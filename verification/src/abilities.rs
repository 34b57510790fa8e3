use vstd::prelude::*;

use std::collections::HashMap;

use crate::attack::{attack_name, AttackType, SpellCategory};
use crate::common::DamageType;
use crate::common::{Aura, Unit};
use crate::config::{flag_or, Config};
use crate::events::{
    aura_event, keeps_unless_aura_event, lemma_filter_none_before, lemma_schedule_none_before,
    none_before, schedule, Event, EventCategory, EventQueue,
};
use crate::simulation::{application, fits, lemma_queue_aura_none_before, queue_aura, State, GameParams};
use crate::text::str_eq;

verus! {

/// What the simulator reads of a champion spell.
pub struct SpellData {
    pub key: String,
    pub variation_name: Option<String>,
    pub cast_time_ms: Option<u64>,
    pub cooldown_ms: Option<HashMap<u64, u64>>,
    pub category: Option<SpellCategory>,
    pub damage_type: Option<DamageType>,
    pub active_effect: Option<KhazixR>,
    pub recast_gap_duration: Option<u64>,
    pub recast_charges: Option<u64>,
    pub recast_window: Option<u64>,
}

/// Kha'Zix's ultimate: a stealth that can be recast while charges remain.
#[derive(Clone, Copy, PartialEq, Eq, Structural, Debug)]
pub struct KhazixR {
    pub base_duration: u64,
    pub evolved_duration: u64,
}

/// The configuration key telling whether Kha'Zix's target is isolated.
pub open spec fn isolated_target_key() -> Seq<char> {
    "CHAMPION_KHAZIX_ISOLATED_TARGET"@
}

/// The configuration key telling whether Kha'Zix's ultimate is evolved.
pub open spec fn r_evolved_key() -> Seq<char> {
    "CHAMPION_KHAZIX_R_EVOLVED"@
}

/// The view of an optional string.
pub open spec fn opt_string_view(o: Option<String>) -> Option<Seq<char>> {
    match o {
        Some(s) => Some(s@),
        None => None,
    }
}

/// Whether a spell has the given key and, when a variation is asked for, that variation.
pub open spec fn ability_matches(a: SpellData, key: Seq<char>, variation: Option<Seq<char>>) -> bool {
    a.key@ == key && (variation is None || opt_string_view(a.variation_name) == variation)
}

/// The variation of a spell that the configuration selects: Kha'Zix's Q deals increased
/// damage to an isolated target; the other spells have a single variation.
pub open spec fn spell_variation(spell: AttackType, config: Map<Seq<char>, Seq<char>>) -> Option<
    Seq<char>,
> {
    if spell == AttackType::Q {
        if config[isolated_target_key()] == "TRUE"@ {
            Some("Increased Damage"@)
        } else {
            Some("Physical Damage"@)
        }
    } else {
        None
    }
}

/// Whether some spell of the list is the one selected for `spell`.
pub open spec fn ability_exists(
    abilities: Seq<SpellData>,
    spell: AttackType,
    config: Map<Seq<char>, Seq<char>>,
) -> bool {
    &&& (spell == AttackType::Q ==> config.contains_key(isolated_target_key()))
    &&& exists|i: int|
        0 <= i < abilities.len() && ability_matches(
            abilities[i],
            attack_name(spell),
            spell_variation(spell, config),
        )
}

/// The position of the first spell of the list selected for `spell`.
pub open spec fn ability_index(
    abilities: Seq<SpellData>,
    spell: AttackType,
    config: Map<Seq<char>, Seq<char>>,
) -> int {
    choose|i: int|
        0 <= i < abilities.len() && ability_matches(
            abilities[i],
            attack_name(spell),
            spell_variation(spell, config),
        ) && forall|j: int|
            0 <= j < i ==> !ability_matches(
                abilities[j],
                attack_name(spell),
                spell_variation(spell, config),
            )
}

/// The first spell of the list selected for `spell`.
pub open spec fn spec_find_ability(
    abilities: Seq<SpellData>,
    spell: AttackType,
    config: Map<Seq<char>, Seq<char>>,
) -> SpellData {
    abilities[ability_index(abilities, spell, config)]
}

/// Finds the data of a spell when the list holds it; for Kha'Zix's Q the configuration
/// picks the variation, and without that setting there is none to find.
pub fn try_find_ability<'a>(
    abilities: &'a Vec<SpellData>,
    spell_name: AttackType,
    configs: &Config,
) -> (r: Option<&'a SpellData>)
    ensures
        r is Some <==> ability_exists(abilities@, spell_name, configs@),
        r matches Some(a) ==> {
            &&& 0 <= ability_index(abilities@, spell_name, configs@) < abilities@.len()
            &&& *a == spec_find_ability(abilities@, spell_name, configs@)
            &&& ability_matches(*a, attack_name(spell_name), spell_variation(spell_name, configs@))
        },
{
    let ghost key = attack_name(spell_name);
    let ghost variation = spell_variation(spell_name, configs@);
    let mut variation_name: Option<&str> = None;
    if spell_name == AttackType::Q {
        // Khazix's Q
        let isolated = configs.get("CHAMPION_KHAZIX_ISOLATED_TARGET");
        match isolated {
            Some(v) => {
                if str_eq(v.as_str(), "TRUE") {
                    variation_name = Some("Increased Damage");
                } else {
                    variation_name = Some("Physical Damage");
                }
            },
            None => {
                return None;
            },
        }
    }
    let name = spell_name.name();
    let mut i: usize = 0;
    while i < abilities.len()
        invariant
            i <= abilities@.len(),
            key == attack_name(spell_name),
            name@ == key,
            variation == spell_variation(spell_name, configs@),
            spell_name == AttackType::Q ==> configs@.contains_key(isolated_target_key()),
            match variation_name {
                Some(v) => variation == Some(v@),
                None => variation is None,
            },
            forall|j: int| 0 <= j < i ==> !ability_matches(abilities@[j], key, variation),
        decreases abilities@.len() - i,
    {
        let a = &abilities[i];
        let key_ok = str_eq(a.key.as_str(), name);
        let variation_ok = match variation_name {
            None => true,
            Some(v) => match &a.variation_name {
                Some(w) => str_eq(w.as_str(), v),
                None => false,
            },
        };
        if key_ok && variation_ok {
            proof {
                assert(ability_matches(abilities@[i as int], key, variation));
                let k = ability_index(abilities@, spell_name, configs@);
                assert(0 <= k < abilities@.len() && ability_matches(abilities@[k], key, variation)
                    && forall|j: int| 0 <= j < k ==> !ability_matches(abilities@[j], key, variation));
                if k < i {
                } else if k > i {
                    assert(!ability_matches(abilities@[i as int], key, variation));
                }
            }
            return Some(a);
        }
        i = i + 1;
    }
    None
}

/// Finds the data of a spell; for Kha'Zix's Q the configuration picks the variation.
pub fn find_ability<'a>(
    abilities: &'a Vec<SpellData>,
    spell_name: AttackType,
    configs: &Config,
) -> (r: &'a SpellData)
    requires
        ability_exists(abilities@, spell_name, configs@),
    ensures
        0 <= ability_index(abilities@, spell_name, configs@) < abilities@.len(),
        *r == spec_find_ability(abilities@, spell_name, configs@),
        ability_matches(*r, attack_name(spell_name), spell_variation(spell_name, configs@)),
{
    match try_find_ability(abilities, spell_name, configs) {
        Some(a) => a,
        None => &abilities[0],
    }
}

/// The effect a spell has when it is cast, beyond its damage.
pub trait ScriptedEffect {
    /// What the effect requires of the state and the game parameters.
    spec fn effect_ok(&self, s: State, gp: GameParams) -> bool;

    /// Applies the effect of the spell, cast now.
    fn on_effect(
        &self,
        state: &mut State,
        game_params: &GameParams,
        event: &Event,
        events: &mut EventQueue,
    )
        requires
            self.effect_ok(*old(state), *game_params),
    ;
}

/// Whether Kha'Zix's ultimate is evolved, per the configuration.
pub open spec fn r_is_evolved(gp: GameParams) -> bool {
    gp.initial_config@[r_evolved_key()] == "TRUE"@
}

/// How long the stealth of Kha'Zix's ultimate lasts.
pub open spec fn stealth_duration(r: KhazixR, gp: GameParams) -> u64 {
    if r_is_evolved(gp) {
        r.evolved_duration
    } else {
        r.base_duration
    }
}

/// The list without any occurrence of `a`.
pub open spec fn without_attack(s: Seq<AttackType>, a: AttackType) -> Seq<AttackType> {
    s.filter(|x: AttackType| x != a)
}

/// The position of the first occurrence of `a` in the list.
pub open spec fn first_position(s: Seq<AttackType>, a: AttackType) -> int {
    choose|i: int| 0 <= i < s.len() && s[i] == a && forall|j: int| 0 <= j < i ==> s[j] != a
}

/// The recast charges after a first cast of the ultimate: one charge, two when evolved.
pub open spec fn first_cast_charges(s: Seq<AttackType>, evolved: bool) -> Seq<AttackType> {
    without_attack(s, AttackType::R) + if evolved {
        seq![AttackType::R, AttackType::R]
    } else {
        seq![AttackType::R]
    }
}

/// Kha'Zix's R cast at time `t` puts him in stealth until `t + base_duration`, or until
/// `t + evolved_duration` only when the configuration sets R as evolved ("TRUE"). A first
/// cast leaves exactly one R charge for recasts, two when R is evolved, after the other
/// charges held, whatever R charges were held before.
pub proof fn lemma_void_assault_by_evolution(
    r: KhazixR,
    gp: GameParams,
    t: u64,
    charges: Seq<AttackType>,
)
    requires
        t + r.base_duration <= u64::MAX,
        t + r.evolved_duration <= u64::MAX,
    ensures
        gp.initial_config@[r_evolved_key()] != "TRUE"@ ==> application(
            Aura::Invisibility,
            t,
            Some(stealth_duration(r, gp)),
            None,
        ).end_ms == Some((t + r.base_duration) as u64),
        gp.initial_config@[r_evolved_key()] == "TRUE"@ ==> application(
            Aura::Invisibility,
            t,
            Some(stealth_duration(r, gp)),
            None,
        ).end_ms == Some((t + r.evolved_duration) as u64),
        ({
            let c = first_cast_charges(charges, r_is_evolved(gp));
            let n: int = if gp.initial_config@[r_evolved_key()] == "TRUE"@ {
                2
            } else {
                1
            };
            &&& c.len() >= n
            &&& forall|i: int| c.len() - n <= i < c.len() ==> #[trigger] c[i] == AttackType::R
            &&& forall|i: int| 0 <= i < c.len() - n ==> #[trigger] c[i] != AttackType::R
        }),
{
    broadcast use vstd::seq_lib::group_filter_ensures;

    let kept = without_attack(charges, AttackType::R);
    assert forall|i: int| 0 <= i < kept.len() implies #[trigger] kept[i] != AttackType::R by {
        assert(kept.contains(kept[i]));
    }
}

/// An occurrence at `k` means a first occurrence at or before `k`.
proof fn lemma_first_occurrence(s: Seq<AttackType>, a: AttackType, k: int)
    requires
        0 <= k < s.len(),
        s[k] == a,
    ensures
        exists|i: int| 0 <= i < s.len() && s[i] == a && forall|j: int| 0 <= j < i ==> s[j] != a,
    decreases k,
{
    if exists|j: int| 0 <= j < k && s[j] == a {
        let j = choose|j: int| 0 <= j < k && s[j] == a;
        lemma_first_occurrence(s, a, j);
    } else {
        assert(forall|j: int| 0 <= j < k ==> s[j] != a);
    }
}

/// An attack type that occurs in a list has a first occurrence.
proof fn lemma_first_position(s: Seq<AttackType>, a: AttackType)
    requires
        s.contains(a),
    ensures
        0 <= first_position(s, a) < s.len(),
        s[first_position(s, a)] == a,
{
    let k = choose|k: int| 0 <= k < s.len() && s[k] == a;
    lemma_first_occurrence(s, a, k);
}

/// The first cast of Kha'Zix's ultimate leaves one recast charge, two when it is evolved;
/// each recast uses up exactly one.
pub proof fn lemma_recast_charges(s: Seq<AttackType>, evolved: bool)
    ensures
        first_cast_charges(s, evolved).to_multiset().count(AttackType::R) == (if evolved {
            2nat
        } else {
            1nat
        }),
        s.contains(AttackType::R) ==> s.remove(first_position(s, AttackType::R)).to_multiset().count(
            AttackType::R,
        ) == s.to_multiset().count(AttackType::R) - 1,
{
    broadcast use vstd::seq_lib::group_to_multiset_ensures, vstd::seq_lib::lemma_multiset_commutative;
    broadcast use vstd::multiset::group_multiset_axioms;
    broadcast use vstd::seq_lib::group_filter_ensures;

    let w = without_attack(s, AttackType::R);
    assert(!w.contains(AttackType::R));
    assert(w.to_multiset().count(AttackType::R) == 0);
    let two = seq![AttackType::R, AttackType::R];
    let one = seq![AttackType::R];
    assert(one =~= Seq::<AttackType>::empty().push(AttackType::R));
    assert(two =~= one.push(AttackType::R));
    if s.contains(AttackType::R) {
        lemma_first_position(s, AttackType::R);
    }
}

/// Casting Kha'Zix's ultimate at the clock's time queues nothing before the clock, whether
/// it is a first cast or a recast.
pub proof fn lemma_r_cast_queue_none_before(r: KhazixR, s: State, gp: GameParams, q: Seq<Event>)
    requires
        none_before(q, s.time_ms),
        fits(s.time_ms, Some(stealth_duration(r, gp))),
    ensures
        none_before(
            queue_aura(
                queue_aura(q, Unit::Attacker, Aura::UnseenThreat, s.time_ms, None),
                Unit::Attacker,
                Aura::Invisibility,
                s.time_ms,
                Some(stealth_duration(r, gp)),
            ),
            s.time_ms,
        ),
        none_before(
            queue_aura(
                queue_aura(
                    schedule(
                        q.filter(
                            keeps_unless_aura_event(
                                EventCategory::AuraAttackerEnd,
                                Aura::VoidAssaultRecastReady,
                            ),
                        ),
                        aura_event(
                            EventCategory::AuraAttackerEnd,
                            s.time_ms,
                            Aura::VoidAssaultRecastReady,
                        ),
                    ),
                    Unit::Attacker,
                    Aura::UnseenThreat,
                    s.time_ms,
                    None,
                ),
                Unit::Attacker,
                Aura::Invisibility,
                s.time_ms,
                Some(stealth_duration(r, gp)),
            ),
            s.time_ms,
        ),
{
    let t = s.time_ms;
    let d = Some(stealth_duration(r, gp));
    lemma_queue_aura_none_before(q, Unit::Attacker, Aura::UnseenThreat, t, None, t);
    lemma_queue_aura_none_before(
        queue_aura(q, Unit::Attacker, Aura::UnseenThreat, t, None),
        Unit::Attacker,
        Aura::Invisibility,
        t,
        d,
        t,
    );
    let f = keeps_unless_aura_event(EventCategory::AuraAttackerEnd, Aura::VoidAssaultRecastReady);
    let e = aura_event(EventCategory::AuraAttackerEnd, t, Aura::VoidAssaultRecastReady);
    lemma_filter_none_before(q, f, t);
    lemma_schedule_none_before(q.filter(f), e, t);
    let q1 = schedule(q.filter(f), e);
    lemma_queue_aura_none_before(q1, Unit::Attacker, Aura::UnseenThreat, t, None, t);
    lemma_queue_aura_none_before(
        queue_aura(q1, Unit::Attacker, Aura::UnseenThreat, t, None),
        Unit::Attacker,
        Aura::Invisibility,
        t,
        d,
        t,
    );
}

/// Removes every occurrence of an attack type from the list.
pub fn remove_all_attacks(v: &mut Vec<AttackType>, a: AttackType)
    ensures
        final(v)@ == without_attack(old(v)@, a),
{
    let ghost s = v@;
    let mut kept: Vec<AttackType> = Vec::new();
    let mut i: usize = 0;
    while i < v.len()
        invariant
            v@ == s,
            i <= s.len(),
            kept@ == without_attack(s.take(i as int), a),
        decreases s.len() - i,
    {
        let x = v[i];
        proof {
            assert(s.take(i + 1).drop_last() =~= s.take(i as int));
            assert(s.take(i + 1).last() == x);
            reveal(Seq::filter);
        }
        if x != a {
            kept.push(x);
        }
        i = i + 1;
    }
    proof {
        assert(s.take(s.len() as int) =~= s);
    }
    *v = kept;
}

/// The position of the first occurrence of an attack type, which must occur.
pub fn position_of_attack(v: &Vec<AttackType>, a: AttackType) -> (r: usize)
    requires
        v@.contains(a),
    ensures
        r == first_position(v@, a),
        0 <= r < v@.len(),
        v@[r as int] == a,
{
    let mut i: usize = 0;
    while i < v.len()
        invariant
            i <= v@.len(),
            v@.contains(a),
            forall|j: int| 0 <= j < i ==> v@[j] != a,
        decreases v@.len() - i,
    {
        if v[i] == a {
            proof {
                let k = first_position(v@, a);
                assert(0 <= k < v@.len() && v@[k] == a && forall|j: int| 0 <= j < k ==> v@[j] != a);
                if k > i {
                    assert(v@[i as int] != a);
                }
            }
            return i;
        }
        i = i + 1;
    }
    proof {
        let w = choose|w: int| 0 <= w < v@.len() && v@[w] == a;
        assert(v@[w] != a);
    }
    0
}

impl ScriptedEffect for KhazixR {
    open spec fn effect_ok(&self, s: State, gp: GameParams) -> bool {
        &&& gp.initial_config@.contains_key(r_evolved_key())
        &&& s.cooldowns@.contains_key(AttackType::R) ==> s.recast_ready@.contains_key(
            AttackType::R,
        ) && s.recast_charges@.contains(AttackType::R)
        &&& fits(s.time_ms, Some(stealth_duration(*self, gp)))
    }

    /// Casts the ultimate: a first cast (R off cooldown) grants the recast charges; a recast
    /// (inside the recast window) closes the window and uses a charge. Either way Kha'Zix
    /// gains Unseen Threat and goes invisible.
    fn on_effect(
        &self,
        state: &mut State,
        game_params: &GameParams,
        event: &Event,
        events: &mut EventQueue,
    )
        ensures
            final(state).time_ms == old(state).time_ms,
            final(state).cooldowns@ == old(state).cooldowns@,
            final(state).effects_cooldowns@ == old(state).effects_cooldowns@,
            final(state).last_attack_time_ms == old(state).last_attack_time_ms,
            final(state).is_casting == old(state).is_casting,
            final(state).target_auras@ == old(state).target_auras@,
            !old(state).cooldowns@.contains_key(AttackType::R) ==> {
                &&& final(state).recast_charges@ == first_cast_charges(
                    old(state).recast_charges@,
                    r_is_evolved(*game_params),
                )
                &&& final(state).recast_ready@ == old(state).recast_ready@
                &&& final(state).attacker_auras@ == old(state).attacker_auras@.insert(
                    Aura::UnseenThreat,
                    application(Aura::UnseenThreat, old(state).time_ms, None, None),
                ).insert(
                    Aura::Invisibility,
                    application(
                        Aura::Invisibility,
                        old(state).time_ms,
                        Some(stealth_duration(*self, *game_params)),
                        None,
                    ),
                )
                &&& final(events)@ == queue_aura(
                    queue_aura(
                        old(events)@,
                        Unit::Attacker,
                        Aura::UnseenThreat,
                        old(state).time_ms,
                        None,
                    ),
                    Unit::Attacker,
                    Aura::Invisibility,
                    old(state).time_ms,
                    Some(stealth_duration(*self, *game_params)),
                )
            },
            old(state).cooldowns@.contains_key(AttackType::R) ==> {
                &&& final(state).recast_charges@ == old(state).recast_charges@.remove(
                    first_position(old(state).recast_charges@, AttackType::R),
                )
                &&& final(state).recast_ready@ == old(state).recast_ready@.remove(AttackType::R)
                &&& final(state).attacker_auras@ == old(state).attacker_auras@.remove(
                    Aura::VoidAssaultRecastReady,
                ).insert(
                    Aura::UnseenThreat,
                    application(Aura::UnseenThreat, old(state).time_ms, None, None),
                ).insert(
                    Aura::Invisibility,
                    application(
                        Aura::Invisibility,
                        old(state).time_ms,
                        Some(stealth_duration(*self, *game_params)),
                        None,
                    ),
                )
                &&& final(events)@ == queue_aura(
                    queue_aura(
                        schedule(
                            old(events)@.filter(
                                keeps_unless_aura_event(
                                    EventCategory::AuraAttackerEnd,
                                    Aura::VoidAssaultRecastReady,
                                ),
                            ),
                            aura_event(
                                EventCategory::AuraAttackerEnd,
                                old(state).time_ms,
                                Aura::VoidAssaultRecastReady,
                            ),
                        ),
                        Unit::Attacker,
                        Aura::UnseenThreat,
                        old(state).time_ms,
                        None,
                    ),
                    Unit::Attacker,
                    Aura::Invisibility,
                    old(state).time_ms,
                    Some(stealth_duration(*self, *game_params)),
                )
            },
    {
        let r_evolved = match game_params.initial_config.get("CHAMPION_KHAZIX_R_EVOLVED") {
            Some(v) => str_eq(v.as_str(), "TRUE"),
            None => false,
        };
        if !state.cooldowns.contains_key(AttackType::R) {
            // first cast
            remove_all_attacks(&mut state.recast_charges, AttackType::R);
            if r_evolved {
                state.recast_charges.push(AttackType::R);
                state.recast_charges.push(AttackType::R);
            } else {
                state.recast_charges.push(AttackType::R);
            }
            proof {
                assert(state.recast_charges@ =~= first_cast_charges(
                    old(state).recast_charges@,
                    r_evolved,
                ));
            }
        } else {
            // recast
            state.end_early_attacker_aura(
                &Aura::VoidAssaultRecastReady,
                game_params,
                event,
                events,
            );
            // remove one recast charge
            let index = position_of_attack(&state.recast_charges, AttackType::R);
            state.recast_charges.remove(index);
        }
        state.add_attacker_aura(Aura::UnseenThreat, None, None, events);
        let stealth_duration = if r_evolved {
            self.evolved_duration
        } else {
            self.base_duration
        };
        state.add_attacker_aura(Aura::Invisibility, Some(stealth_duration), None, events);
    }
}

/// The timings of Kha'Zix's spells as the champion data gives them: the cast times of Q
/// and W, and the cooldown of each spell per rank in whole seconds (five ranks for Q, W
/// and E, three for R).
pub struct KhazixSpellTimings {
    pub q_cast_time_ms: u64,
    pub w_cast_time_ms: u64,
    pub q_cooldowns_s: Vec<u64>,
    pub w_cooldowns_s: Vec<u64>,
    pub e_cooldowns_s: Vec<u64>,
    pub r_cooldowns_s: Vec<u64>,
}

/// The cooldown in milliseconds of each rank from 1 to `ranks`, from the per-rank
/// cooldowns in seconds; `reduced` cuts each by 45%.
pub open spec fn cooldown_table(cds_s: Seq<u64>, ranks: nat, reduced: bool) -> Map<u64, u64> {
    Map::new(
        |rank: u64| 1 <= rank <= ranks,
        |rank: u64|
            {
                let ms = cds_s[rank - 1] * 1000;
                if reduced {
                    (ms * 55 / 100) as u64
                } else {
                    ms as u64
                }
            },
    )
}

/// Whether the per-rank cooldowns cover `ranks` ranks and fit in milliseconds.
pub open spec fn cooldowns_fit(cds_s: Seq<u64>, ranks: nat) -> bool {
    &&& cds_s.len() >= ranks
    &&& forall|i: int| 0 <= i < ranks ==> #[trigger] cds_s[i] * 1000 <= u64::MAX
}

/// Whether Q's cooldown is cut: the target is isolated and Q is evolved (by default).
pub open spec fn q_cooldown_reduced(config: Map<Seq<char>, Seq<char>>) -> bool {
    config[isolated_target_key()] == "TRUE"@ && flag_or(config, "CHAMPION_KHAZIX_Q_EVOLVED"@, true)
}

/// Whether a spell entry has the given timings and no recast.
pub open spec fn plain_spell(
    a: SpellData,
    key: Seq<char>,
    variation: Option<Seq<char>>,
    cast_time_ms: Option<u64>,
    cooldowns: Map<u64, u64>,
    category: Option<SpellCategory>,
) -> bool {
    &&& a.key@ == key
    &&& opt_string_view(a.variation_name) == variation
    &&& a.cast_time_ms == cast_time_ms
    &&& a.cooldown_ms matches Some(m) && m@ == cooldowns
    &&& a.category == category
    &&& a.damage_type == Some(DamageType::Physical)
    &&& a.active_effect is None
    &&& a.recast_gap_duration is None
    &&& a.recast_charges is None
    &&& a.recast_window is None
}

/// Builds the cooldown table of a spell from its per-rank cooldowns in seconds.
fn cooldown_ms_table(cds_s: &Vec<u64>, ranks: u64, reduced: bool) -> (m: HashMap<u64, u64>)
    requires
        ranks <= 5,
        cooldowns_fit(cds_s@, ranks as nat),
    ensures
        m@ == cooldown_table(cds_s@, ranks as nat, reduced),
{
    broadcast use vstd::std_specs::hash::group_hash_axioms;

    let mut m: HashMap<u64, u64> = HashMap::new();
    let mut rank: u64 = 1;
    while rank <= ranks
        invariant
            1 <= rank <= ranks + 1,
            ranks <= 5,
            cooldowns_fit(cds_s@, ranks as nat),
            m@ == cooldown_table(cds_s@, (rank - 1) as nat, reduced),
        decreases ranks + 1 - rank,
    {
        let idx: usize = (rank - 1) as usize;
        assert(cds_s@[idx as int] * 1000 <= u64::MAX);
        let ms = cds_s[idx] * 1000;
        let value = if reduced {
            ms / 100 * 55 + ms % 100 * 55 / 100
        } else {
            ms
        };
        proof {
            if reduced {
                assert(ms / 100 * 55 + ms % 100 * 55 / 100 == ms * 55 / 100) by (nonlinear_arith);
            }
        }
        m.insert(rank, value);
        proof {
            assert(m@ =~= cooldown_table(cds_s@, rank as nat, reduced));
        }
        rank = rank + 1;
    }
    m
}

/// The data of Kha'Zix's spells: the two variations of Q (their cooldown cut by 45% when
/// the target is isolated and Q is evolved), W, E (a dash) and R (a stealth that can be
/// recast once, twice when R is evolved, 2 s apart within 12 s).
pub fn pull_abilities_data(config: &Config, timings: &KhazixSpellTimings) -> (r: Vec<SpellData>)
    requires
        config@.contains_key(isolated_target_key()),
        cooldowns_fit(timings.q_cooldowns_s@, 5),
        cooldowns_fit(timings.w_cooldowns_s@, 5),
        cooldowns_fit(timings.e_cooldowns_s@, 5),
        cooldowns_fit(timings.r_cooldowns_s@, 3),
    ensures
        r@.len() == 5,
        plain_spell(
            r@[0],
            "Q"@,
            Some("Physical Damage"@),
            Some(timings.q_cast_time_ms),
            cooldown_table(timings.q_cooldowns_s@, 5, q_cooldown_reduced(config@)),
            None,
        ),
        plain_spell(
            r@[1],
            "Q"@,
            Some("Increased Damage"@),
            Some(timings.q_cast_time_ms),
            cooldown_table(timings.q_cooldowns_s@, 5, q_cooldown_reduced(config@)),
            None,
        ),
        plain_spell(
            r@[2],
            "W"@,
            None,
            Some(timings.w_cast_time_ms),
            cooldown_table(timings.w_cooldowns_s@, 5, false),
            None,
        ),
        plain_spell(
            r@[3],
            "E"@,
            None,
            None,
            cooldown_table(timings.e_cooldowns_s@, 5, false),
            Some(SpellCategory::Dash),
        ),
        r@[4].key@ == "R"@,
        r@[4].variation_name is None,
        r@[4].cast_time_ms is None,
        r@[4].cooldown_ms matches Some(m) && m@ == cooldown_table(timings.r_cooldowns_s@, 3, false),
        r@[4].category == Some(SpellCategory::Stealth),
        r@[4].damage_type is None,
        r@[4].active_effect == Some(KhazixR { base_duration: 1250, evolved_duration: 2000 }),
        r@[4].recast_gap_duration == Some(2000u64),
        r@[4].recast_charges == Some(if flag_or(config@, r_evolved_key(), false) { 2u64 } else { 1u64 }),
        r@[4].recast_window == Some(12_000u64),
{
    let isolated = match config.get("CHAMPION_KHAZIX_ISOLATED_TARGET") {
        Some(v) => str_eq(v.as_str(), "TRUE"),
        None => false,
    };
    let reduced = isolated && config.flag_or("CHAMPION_KHAZIX_Q_EVOLVED", true);
    let mut abilities_data: Vec<SpellData> = Vec::new();
    // Q (variation 1)
    abilities_data.push(
        SpellData {
            key: String::from_str("Q"),
            variation_name: Some(String::from_str("Physical Damage")),
            cast_time_ms: Some(timings.q_cast_time_ms),
            cooldown_ms: Some(cooldown_ms_table(&timings.q_cooldowns_s, 5, reduced)),
            category: None,
            damage_type: Some(DamageType::Physical),
            active_effect: None,
            recast_gap_duration: None,
            recast_charges: None,
            recast_window: None,
        },
    );
    // Q (variation 2)
    abilities_data.push(
        SpellData {
            key: String::from_str("Q"),
            variation_name: Some(String::from_str("Increased Damage")),
            cast_time_ms: Some(timings.q_cast_time_ms),
            cooldown_ms: Some(cooldown_ms_table(&timings.q_cooldowns_s, 5, reduced)),
            category: None,
            damage_type: Some(DamageType::Physical),
            active_effect: None,
            recast_gap_duration: None,
            recast_charges: None,
            recast_window: None,
        },
    );
    // W
    abilities_data.push(
        SpellData {
            key: String::from_str("W"),
            variation_name: None,
            cast_time_ms: Some(timings.w_cast_time_ms),
            cooldown_ms: Some(cooldown_ms_table(&timings.w_cooldowns_s, 5, false)),
            category: None,
            damage_type: Some(DamageType::Physical),
            active_effect: None,
            recast_gap_duration: None,
            recast_charges: None,
            recast_window: None,
        },
    );
    // E
    abilities_data.push(
        SpellData {
            key: String::from_str("E"),
            variation_name: None,
            cast_time_ms: None,
            cooldown_ms: Some(cooldown_ms_table(&timings.e_cooldowns_s, 5, false)),
            category: Some(SpellCategory::Dash),
            damage_type: Some(DamageType::Physical),
            active_effect: None,
            recast_gap_duration: None,
            recast_charges: None,
            recast_window: None,
        },
    );
    // R
    let recast_charges: u64 = if config.flag_or("CHAMPION_KHAZIX_R_EVOLVED", false) {
        2
    } else {
        1
    };
    abilities_data.push(
        SpellData {
            key: String::from_str("R"),
            variation_name: None,
            cast_time_ms: None,
            cooldown_ms: Some(cooldown_ms_table(&timings.r_cooldowns_s, 3, false)),
            category: Some(SpellCategory::Stealth),
            damage_type: None,
            active_effect: Some(KhazixR { base_duration: 1250, evolved_duration: 2000 }),
            recast_gap_duration: Some(2000),
            recast_charges: Some(recast_charges),
            recast_window: Some(12_000),
        },
    );
    proof {
        reveal_strlit("Q");
        reveal_strlit("W");
        reveal_strlit("E");
        reveal_strlit("R");
        reveal_strlit("Physical Damage");
        reveal_strlit("Increased Damage");
        reveal_strlit("CHAMPION_KHAZIX_ISOLATED_TARGET");
        reveal_strlit("TRUE");
    }
    abilities_data
}

} // verus!
