use vstd::prelude::*;

use crate::attack::AttackType;
use crate::common::{Aura, AuraApplication, DamageType, PassiveEffect, Unit};
use crate::events::{
    insert_passive_triggered_event, aura_event, keeps_unless_aura_event, lemma_filter_none_before, lemma_schedule_none_before,
    none_before, schedule, Event, EventCategory, EventQueue,
};
use crate::items::Item;
use crate::runes::Rune;
use crate::simulation::{
    application, fits, lemma_queue_aura_none_before, passive_triggered_event, queue_aura,
    same_timers, GameParams, State,
};

verus! {

/// Where a damage instance comes from.
#[derive(Clone, Copy, PartialEq, Eq, Structural, Debug)]
pub enum DamageSource {
    Ability,
    Rune,
    ItemPassive,
    ItemActive,
}

/// What the simulator reads of a damage instance besides its amount.
#[derive(Clone, Copy, PartialEq, Eq, Structural, Debug)]
pub struct DamageInfo {
    pub damage_type: DamageType,
    pub time_ms: u64,
    pub source: DamageSource,
    pub source_ability: Option<AttackType>,
    pub source_rune: Option<Rune>,
    pub source_item: Option<Item>,
}

/// A damage that a passive effect deals in reaction, whose amount the caller computes.
#[derive(Clone, Copy, PartialEq, Eq, Structural, Debug)]
pub enum DamageProc {
    /// Voltaic Cyclosword's Energized strike.
    Energized,
    /// Blade of the Ruined King's Mist's Edge.
    MistsEdge,
    /// Eclipse's Ever Rising Moon.
    EverRisingMoon,
    /// The Collector's Death execution.
    Death,
    /// Dark Harvest's soul harvest.
    DarkHarvest,
    /// Sudden Impact's bonus damage.
    SuddenImpact,
    /// Kha'Zix's Unseen Threat.
    UnseenThreat,
}

/// Whether the damage comes from an auto attack.
pub open spec fn from_auto_attack(d: DamageInfo) -> bool {
    d.source_ability == Some(AttackType::AA)
}

/// The two states agree on everything.
pub open spec fn state_unchanged(a: State, b: State) -> bool {
    &&& same_timers(a, b)
    &&& a.attacker_auras@ == b.attacker_auras@
    &&& a.target_auras@ == b.target_auras@
    &&& a.recast_ready@ == b.recast_ready@
}

/// The stack count of an aura held by a unit, when it has one.
pub open spec fn stacks_of(m: Map<Aura, AuraApplication>, a: Aura) -> Option<u64> {
    if m.contains_key(a) {
        m[a].stacks
    } else {
        None
    }
}

/// Whether the item has a pre-damage handler for the effect.
pub open spec fn handles_pre_damage(item: Item, e: PassiveEffect) -> bool {
    ||| (item == Item::SunderedSky && e == PassiveEffect::LightshieldStrike)
    ||| (item == Item::VoltaicCyclosword && e == PassiveEffect::Energized)
    ||| (item == Item::BladeofTheRuinedKing && e == PassiveEffect::MistsEdge)
}

/// What the pre-damage handler of an item requires: held stack counts can grow, and
/// cooldowns end within the clock's range.
pub open spec fn pre_damage_ok(item: Item, e: PassiveEffect, s: State, event: Event) -> bool {
    &&& handles_pre_damage(item, e)
    &&& item == Item::SunderedSky ==> event.time_ms + 8_000 <= u64::MAX
    &&& item == Item::VoltaicCyclosword && s.attacker_auras@.contains_key(Aura::Energized) ==> {
        &&& s.attacker_auras@[Aura::Energized].stacks is Some
        &&& s.attacker_auras@[Aura::Energized].stacks->Some_0 + 6 <= u64::MAX
    }
}

/// The handled application of Energized with 6 more stacks.
pub open spec fn energized_plus(app: AuraApplication, n: u64) -> AuraApplication {
    AuraApplication { stacks: Some((app.stacks->Some_0 + n) as u64), ..app }
}

/// The Energized application once `generated` stacks are added, capped at 100.
pub open spec fn energized_capped(app: AuraApplication, generated: u64) -> AuraApplication {
    let total = app.stacks->Some_0 + generated;
    AuraApplication { stacks: Some(if total < 100 { total as u64 } else { 100 }), ..app }
}

/// Whether the item has a post-damage handler for the effect.
pub open spec fn handles_post_damage(item: Item, e: PassiveEffect) -> bool {
    ||| (item == Item::BlackCleaver && e == PassiveEffect::Carve)
    ||| (item == Item::Eclipse && e == PassiveEffect::EverRisingMoon)
    ||| (item == Item::SpearofShojin && e == PassiveEffect::FocusedWill)
    ||| (item == Item::SunderedSky && e == PassiveEffect::LightshieldStrike)
    ||| (item == Item::TheCollector && e == PassiveEffect::Death)
}

/// The stack count of a stacking aura once one more stack is added, at most `cap`.
pub open spec fn next_stack(m: Map<Aura, AuraApplication>, a: Aura, cap: u64) -> u64 {
    if m.contains_key(a) {
        let n = m[a].stacks->Some_0 + 1;
        if n <= cap {
            n as u64
        } else {
            cap
        }
    } else {
        1
    }
}

/// A stacking aura that gains a stack holds at least one and never more than its cap: Black
/// Cleaver's Carve at most 5, Spear of Shojin's Focused Will at most 4.
pub proof fn lemma_stacks_stay_capped(m: Map<Aura, AuraApplication>, a: Aura, cap: u64)
    requires
        cap >= 1,
    ensures
        1 <= next_stack(m, a, cap) <= cap,
{
}

/// Each hit adds exactly one stack to a stacking aura until its cap: an aura not yet held
/// starts at one stack, a held aura below the cap gains one, and one at or above the cap
/// stays at the cap. So Black Cleaver's Carve goes 1, 2, 3, 4, 5, 5, ... over successive
/// physical hits, and Spear of Shojin's Focused Will 1, 2, 3, 4, 4, ...
pub proof fn lemma_one_stack_per_hit(m: Map<Aura, AuraApplication>, a: Aura, cap: u64)
    requires
        cap >= 1,
    ensures
        !m.contains_key(a) ==> next_stack(m, a, cap) == 1,
        m.contains_key(a) && m[a].stacks is Some && m[a].stacks->Some_0 < cap ==> next_stack(m, a, cap)
            == m[a].stacks->Some_0 + 1,
        m.contains_key(a) && m[a].stacks is Some && m[a].stacks->Some_0 >= cap ==> next_stack(
            m,
            a,
            cap,
        ) == cap,
        forall|app: AuraApplication|
            app.stacks == Some(next_stack(m, a, cap)) && next_stack(m, a, cap) < cap ==> #[trigger] next_stack(
                m.insert(a, app),
                a,
                cap,
            ) == next_stack(m, a, cap) + 1,
{
}

/// Whether a held stacking aura has a stack count that can grow by one.
pub open spec fn can_stack(m: Map<Aura, AuraApplication>, a: Aura) -> bool {
    m.contains_key(a) ==> m[a].stacks is Some && m[a].stacks->Some_0 + 1 <= u64::MAX
}

/// Whether the damage comes from one of the basic spells Q, W or E.
pub open spec fn from_basic_spell(d: DamageInfo) -> bool {
    d.source_ability == Some(AttackType::Q) || d.source_ability == Some(AttackType::W)
        || d.source_ability == Some(AttackType::E)
}

/// What the post-damage handler of an item requires: held stack counts can grow, and
/// auras and cooldowns end within the clock's range.
pub open spec fn post_damage_ok(item: Item, e: PassiveEffect, s: State, event: Event) -> bool {
    &&& handles_post_damage(item, e)
    &&& item == Item::BlackCleaver ==> s.time_ms + 6_000 <= u64::MAX && can_stack(
        s.target_auras@,
        Aura::Carve,
    )
    &&& item == Item::Eclipse ==> s.time_ms + 2_000 <= u64::MAX && event.time_ms + 6_000
        <= u64::MAX
    &&& item == Item::SpearofShojin ==> s.time_ms + 6_000 <= u64::MAX && can_stack(
        s.attacker_auras@,
        Aura::FocusedWill,
    )
}

/// The stack count a stacking aura reaches with one more hit: one when it is not held, one
/// more than before below the cap, and the cap otherwise.
pub open spec fn one_more_stack(held: bool, before: u64, cap: u64) -> u64 {
    if !held {
        1
    } else if before < cap {
        (before + 1) as u64
    } else {
        cap
    }
}

/// Black Cleaver: a physical hit gives the target's Carve one more stack, at most five, for
/// six seconds from now, and any other hit leaves the target's auras alone. Spear of
/// Shojin: damage from Q, W or E gives the attacker's Focused Will one more stack, at most
/// four, for six seconds from now, and any other damage leaves the attacker's auras alone.
pub proof fn lemma_carve_and_focused_will_stack_by_one(
    d: DamageInfo,
    s0: State,
    s1: State,
    q0: Seq<Event>,
    q1: Seq<Event>,
    event: Event,
    r: Option<DamageProc>,
)
    requires
        s0.time_ms + 6_000 <= u64::MAX,
        s0.target_auras@.contains_key(Aura::Carve) ==> s0.target_auras@[Aura::Carve].stacks is Some,
        s0.attacker_auras@.contains_key(Aura::FocusedWill) ==> s0.attacker_auras@[Aura::FocusedWill].stacks is Some,
    ensures
        post_damage_result(Item::BlackCleaver, d, s0, s1, q0, q1, event, r) && d.damage_type
            == DamageType::Physical ==> s1.target_auras@.contains_key(Aura::Carve)
            && s1.target_auras@[Aura::Carve].stacks == Some(
            one_more_stack(
                s0.target_auras@.contains_key(Aura::Carve),
                s0.target_auras@[Aura::Carve].stacks->Some_0,
                5,
            ),
        ) && s1.target_auras@[Aura::Carve].end_ms == Some((s0.time_ms + 6_000) as u64),
        post_damage_result(Item::BlackCleaver, d, s0, s1, q0, q1, event, r) && d.damage_type
            != DamageType::Physical ==> s1.target_auras@ == s0.target_auras@,
        post_damage_result(Item::SpearofShojin, d, s0, s1, q0, q1, event, r) && from_basic_spell(d)
            ==> s1.attacker_auras@.contains_key(Aura::FocusedWill)
            && s1.attacker_auras@[Aura::FocusedWill].stacks == Some(
            one_more_stack(
                s0.attacker_auras@.contains_key(Aura::FocusedWill),
                s0.attacker_auras@[Aura::FocusedWill].stacks->Some_0,
                4,
            ),
        ) && s1.attacker_auras@[Aura::FocusedWill].end_ms == Some((s0.time_ms + 6_000) as u64),
        post_damage_result(Item::SpearofShojin, d, s0, s1, q0, q1, event, r) && !from_basic_spell(d)
            ==> s1.attacker_auras@ == s0.attacker_auras@,
{
}

/// What the pre-damage handler of an item does to the state and the queue, and which
/// reactive damage it asks for.
pub open spec fn pre_damage_result(
    item: Item,
    d: DamageInfo,
    s0: State,
    s1: State,
    q0: Seq<Event>,
    q1: Seq<Event>,
    event: Event,
    r: Option<DamageProc>,
) -> bool {
    &&& (item == Item::SunderedSky ==> {
                if !from_auto_attack(d) || s0.effects_cooldowns@.contains_key(
                    PassiveEffect::LightshieldStrike,
                ) {
                    state_unchanged(s1, s0) && q1 == q0
                } else {
                    &&& s1.time_ms == s0.time_ms
                    &&& s1.cooldowns@ == s0.cooldowns@
                    &&& s1.last_attack_time_ms == s0.last_attack_time_ms
                    &&& s1.recast_charges@ == s0.recast_charges@
                    &&& s1.is_casting == s0.is_casting
                    &&& s1.attacker_auras@ == s0.attacker_auras@
                    &&& s1.recast_ready@ == s0.recast_ready@
                    &&& s1.target_auras@ == s0.target_auras@.insert(
                        Aura::LightshieldStrike,
                        application(Aura::LightshieldStrike, s0.time_ms, None, None),
                    )
                    &&& s1.effects_cooldowns@ == s0.effects_cooldowns@.insert(
                        PassiveEffect::LightshieldStrike,
                        (event.time_ms + 8_000) as u64,
                    )
                    &&& q1 == queue_aura(
                        q0,
                        Unit::Target,
                        Aura::LightshieldStrike,
                        s0.time_ms,
                        None,
                    )
                }
            } && r == None::<DamageProc>)
    &&& (item == Item::VoltaicCyclosword ==> {
                if !from_auto_attack(d) {
                    state_unchanged(s1, s0) && q1 == q0
                        && r == None::<DamageProc>
                } else if stacks_of(s0.attacker_auras@, Aura::Energized) == Some(100u64) {
                    &&& same_timers(s1, s0)
                    &&& s1.target_auras@ == s0.target_auras@
                    &&& s1.recast_ready@ == s0.recast_ready@
                    &&& s1.attacker_auras@ == s0.attacker_auras@.remove(
                        Aura::Energized,
                    )
                    &&& q1 == schedule(
                        q0.filter(
                            keeps_unless_aura_event(EventCategory::AuraAttackerEnd, Aura::Energized),
                        ),
                        aura_event(EventCategory::AuraAttackerEnd, s0.time_ms, Aura::Energized),
                    )
                    &&& r == Some(DamageProc::Energized)
                } else if s0.attacker_auras@.contains_key(Aura::Energized) {
                    &&& same_timers(s1, s0)
                    &&& s1.target_auras@ == s0.target_auras@
                    &&& s1.recast_ready@ == s0.recast_ready@
                    &&& s1.attacker_auras@ == s0.attacker_auras@.insert(
                        Aura::Energized,
                        energized_plus(s0.attacker_auras@[Aura::Energized], 6),
                    )
                    &&& q1 == q0
                    &&& r == None::<DamageProc>
                } else {
                    &&& same_timers(s1, s0)
                    &&& s1.target_auras@ == s0.target_auras@
                    &&& s1.recast_ready@ == s0.recast_ready@
                    &&& s1.attacker_auras@ == s0.attacker_auras@.insert(
                        Aura::Energized,
                        application(Aura::Energized, s0.time_ms, None, Some(6)),
                    )
                    &&& q1 == queue_aura(
                        q0,
                        Unit::Attacker,
                        Aura::Energized,
                        s0.time_ms,
                        None,
                    )
                    &&& r == None::<DamageProc>
                }
            })
    &&& (item == Item::BladeofTheRuinedKing ==> state_unchanged(s1, s0)
                && q1 == q0 && r == (if from_auto_attack(d) {
                Some(DamageProc::MistsEdge)
            } else {
                None
            }))
}

/// What the post-damage handler of an item does to the state and the queue, and which
/// reactive damage it asks for.
pub open spec fn post_damage_result(
    item: Item,
    d: DamageInfo,
    s0: State,
    s1: State,
    q0: Seq<Event>,
    q1: Seq<Event>,
    event: Event,
    r: Option<DamageProc>,
) -> bool {
    &&& (item == Item::BlackCleaver ==> r == None::<DamageProc> && if d.damage_type
                == DamageType::Physical {
                &&& same_timers(s1, s0)
                &&& s1.attacker_auras@ == s0.attacker_auras@
                &&& s1.recast_ready@ == s0.recast_ready@
                &&& s1.target_auras@ == s0.target_auras@.insert(
                    Aura::Carve,
                    application(
                        Aura::Carve,
                        s0.time_ms,
                        Some(6_000),
                        Some(next_stack(s0.target_auras@, Aura::Carve, 5)),
                    ),
                )
                &&& q1 == queue_aura(
                    q0,
                    Unit::Target,
                    Aura::Carve,
                    s0.time_ms,
                    Some(6_000),
                )
            } else {
                state_unchanged(s1, s0) && q1 == q0
            })
    &&& (item == Item::Eclipse ==> {
                if !(d.source == DamageSource::Ability || d.source
                    == DamageSource::ItemActive) || s0.effects_cooldowns@.contains_key(
                    PassiveEffect::EverRisingMoon,
                ) {
                    &&& state_unchanged(s1, s0)
                    &&& q1 == q0
                    &&& r == None::<DamageProc>
                } else if s0.target_auras@.contains_key(Aura::EverRisingMoon) {
                    &&& s1.time_ms == s0.time_ms
                    &&& s1.cooldowns@ == s0.cooldowns@
                    &&& s1.last_attack_time_ms == s0.last_attack_time_ms
                    &&& s1.recast_charges@ == s0.recast_charges@
                    &&& s1.is_casting == s0.is_casting
                    &&& s1.effects_cooldowns@ == s0.effects_cooldowns@.insert(
                        PassiveEffect::EverRisingMoon,
                        (event.time_ms + 6_000) as u64,
                    )
                    &&& s1.attacker_auras@ == s0.attacker_auras@
                    &&& s1.recast_ready@ == s0.recast_ready@
                    &&& s1.target_auras@ == s0.target_auras@.remove(
                        Aura::EverRisingMoon,
                    )
                    &&& q1 == schedule(
                        q0.filter(
                            keeps_unless_aura_event(
                                EventCategory::AuraTargetEnd,
                                Aura::EverRisingMoon,
                            ),
                        ),
                        aura_event(
                            EventCategory::AuraTargetEnd,
                            s0.time_ms,
                            Aura::EverRisingMoon,
                        ),
                    )
                    &&& r == Some(DamageProc::EverRisingMoon)
                } else {
                    &&& same_timers(s1, s0)
                    &&& s1.attacker_auras@ == s0.attacker_auras@
                    &&& s1.recast_ready@ == s0.recast_ready@
                    &&& s1.target_auras@ == s0.target_auras@.insert(
                        Aura::EverRisingMoon,
                        application(Aura::EverRisingMoon, s0.time_ms, Some(2_000), Some(1)),
                    )
                    &&& q1 == queue_aura(
                        q0,
                        Unit::Target,
                        Aura::EverRisingMoon,
                        s0.time_ms,
                        Some(2_000),
                    )
                    &&& r == None::<DamageProc>
                }
            })
    &&& (item == Item::SpearofShojin ==> r == None::<DamageProc> && if from_basic_spell(
                d,
            ) {
                &&& same_timers(s1, s0)
                &&& s1.target_auras@ == s0.target_auras@
                &&& s1.recast_ready@ == s0.recast_ready@
                &&& s1.attacker_auras@ == s0.attacker_auras@.insert(
                    Aura::FocusedWill,
                    application(
                        Aura::FocusedWill,
                        s0.time_ms,
                        Some(6_000),
                        Some(next_stack(s0.attacker_auras@, Aura::FocusedWill, 4)),
                    ),
                )
                &&& q1 == queue_aura(
                    q0,
                    Unit::Attacker,
                    Aura::FocusedWill,
                    s0.time_ms,
                    Some(6_000),
                )
            } else {
                state_unchanged(s1, s0) && q1 == q0
            })
    &&& (item == Item::SunderedSky ==> {
                &&& r == None::<DamageProc>
                &&& same_timers(s1, s0)
                &&& s1.target_auras@ == s0.target_auras@
                &&& s1.recast_ready@ == s0.recast_ready@
                &&& s1.attacker_auras@ == s0.attacker_auras@.remove(
                    Aura::LightshieldStrike,
                )
                &&& q1 == schedule(
                    q0.filter(
                        keeps_unless_aura_event(
                            EventCategory::AuraAttackerEnd,
                            Aura::LightshieldStrike,
                        ),
                    ),
                    aura_event(
                        EventCategory::AuraAttackerEnd,
                        s0.time_ms,
                        Aura::LightshieldStrike,
                    ),
                )
            })
    &&& (item == Item::TheCollector ==> state_unchanged(s1, s0)
                && q1 == q0 && r == Some(DamageProc::Death))
}

/// Ending an aura early at time `now` (as Sundered Sky, Eclipse, Voltaic Cyclosword, Sudden
/// Impact and Unseen Threat do) queues nothing before `now`.
pub proof fn lemma_end_early_none_before(q: Seq<Event>, category: EventCategory, aura: Aura, now: u64)
    requires
        none_before(q, now),
    ensures
        none_before(
            schedule(q.filter(keeps_unless_aura_event(category, aura)), aura_event(category, now, aura)),
            now,
        ),
{
    lemma_filter_none_before(q, keeps_unless_aura_event(category, aura), now);
    lemma_schedule_none_before(
        q.filter(keeps_unless_aura_event(category, aura)),
        aura_event(category, now, aura),
        now,
    );
}

/// The pre-damage handler of an item queues nothing before the clock.
pub proof fn lemma_pre_damage_queue_none_before(
    item: Item,
    e: PassiveEffect,
    d: DamageInfo,
    s0: State,
    s1: State,
    q0: Seq<Event>,
    q1: Seq<Event>,
    event: Event,
    r: Option<DamageProc>,
)
    requires
        pre_damage_ok(item, e, s0, event),
        pre_damage_result(item, d, s0, s1, q0, q1, event, r),
        none_before(q0, s0.time_ms),
    ensures
        none_before(q1, s0.time_ms),
{
    lemma_queue_aura_none_before(q0, Unit::Target, Aura::LightshieldStrike, s0.time_ms, None, s0.time_ms);
    lemma_queue_aura_none_before(q0, Unit::Attacker, Aura::Energized, s0.time_ms, None, s0.time_ms);
    lemma_end_early_none_before(q0, EventCategory::AuraAttackerEnd, Aura::Energized, s0.time_ms);
}

/// The post-damage handler of an item queues nothing before the clock.
pub proof fn lemma_post_damage_queue_none_before(
    item: Item,
    e: PassiveEffect,
    d: DamageInfo,
    s0: State,
    s1: State,
    q0: Seq<Event>,
    q1: Seq<Event>,
    event: Event,
    r: Option<DamageProc>,
)
    requires
        post_damage_ok(item, e, s0, event),
        post_damage_result(item, d, s0, s1, q0, q1, event, r),
        none_before(q0, s0.time_ms),
    ensures
        none_before(q1, s0.time_ms),
{
    let now = s0.time_ms;
    if item == Item::BlackCleaver {
        lemma_queue_aura_none_before(q0, Unit::Target, Aura::Carve, now, Some(6_000), now);
    } else if item == Item::Eclipse {
        lemma_queue_aura_none_before(q0, Unit::Target, Aura::EverRisingMoon, now, Some(2_000), now);
        lemma_end_early_none_before(q0, EventCategory::AuraTargetEnd, Aura::EverRisingMoon, now);
    } else if item == Item::SpearofShojin {
        lemma_queue_aura_none_before(q0, Unit::Attacker, Aura::FocusedWill, now, Some(6_000), now);
    } else if item == Item::SunderedSky {
        lemma_end_early_none_before(q0, EventCategory::AuraAttackerEnd, Aura::LightshieldStrike, now);
    }
}

/// Dark Harvest harvests a soul from a target below its health threshold (which the caller
/// checks): unless it waits out its cooldown, its trigger is recorded and it waits
/// `cooldown` from the event's time. Tells whether it triggered.
pub fn dark_harvest_trigger(state: &mut State, event: &Event, events: &mut EventQueue, cooldown: u64) -> (r: bool)
    requires
        event.time_ms + cooldown <= u64::MAX,
    ensures
        r == !old(state).effects_cooldowns@.contains_key(PassiveEffect::DarkHarvest),
        final(state).time_ms == old(state).time_ms,
        final(state).cooldowns@ == old(state).cooldowns@,
        final(state).last_attack_time_ms == old(state).last_attack_time_ms,
        final(state).recast_charges@ == old(state).recast_charges@,
        final(state).is_casting == old(state).is_casting,
        final(state).attacker_auras@ == old(state).attacker_auras@,
        final(state).target_auras@ == old(state).target_auras@,
        final(state).recast_ready@ == old(state).recast_ready@,
        r ==> final(state).effects_cooldowns@ == old(state).effects_cooldowns@.insert(
            PassiveEffect::DarkHarvest,
            (event.time_ms + cooldown) as u64,
        ) && final(events)@ == schedule(
            old(events)@,
            passive_triggered_event(event.time_ms, PassiveEffect::DarkHarvest),
        ),
        !r ==> final(state).effects_cooldowns@ == old(state).effects_cooldowns@ && final(events)@
            == old(events)@,
{
    if state.effects_cooldowns.contains_key(PassiveEffect::DarkHarvest) {
        return false;
    }
    insert_passive_triggered_event(events, event.time_ms, PassiveEffect::DarkHarvest);
    state.effects_cooldowns.insert(PassiveEffect::DarkHarvest, event.time_ms + cooldown);
    true
}

impl Item {
    /// Runs the item's reaction before a damage instance lands, and tells which reactive
    /// damage the caller must deal. Sundered Sky marks the target on an auto attack off
    /// cooldown (then waits 8 s); Voltaic Cyclosword gains 6 Energized stacks per auto attack
    /// and strikes when at 100; Blade of the Ruined King strikes on every auto attack.
    pub fn handle_on_pre_damage(
        &self,
        passive_effect: &PassiveEffect,
        damage_info: &DamageInfo,
        state: &mut State,
        game_params: &GameParams,
        event: &Event,
        events: &mut EventQueue,
    ) -> (r: Option<DamageProc>)
        requires
            pre_damage_ok(*self, *passive_effect, *old(state), *event),
        ensures
            pre_damage_result(
                *self,
                *damage_info,
                *old(state),
                *final(state),
                old(events)@,
                final(events)@,
                *event,
                r,
            ),
    {
        let is_aa = match damage_info.source_ability {
            Some(attack_type) => attack_type == AttackType::AA,
            None => false,
        };
        match self {
            Item::SunderedSky => {
                if !is_aa {
                    return None;
                }
                if state.effects_cooldowns.contains_key(PassiveEffect::LightshieldStrike) {
                    return None;
                }
                state.add_target_aura(Aura::LightshieldStrike, None, None, events);
                state.effects_cooldowns.insert(
                    PassiveEffect::LightshieldStrike,
                    event.time_ms + 8_000,
                );
                None
            },
            Item::VoltaicCyclosword => {
                if !is_aa {
                    return None;
                }
                match state.attacker_auras.get(Aura::Energized) {
                    Some(aura_app) => {
                        let stacks = aura_app.stacks.unwrap();
                        if stacks == 100 {
                            state.end_early_attacker_aura(
                                &Aura::Energized,
                                game_params,
                                event,
                                events,
                            );
                            return Some(DamageProc::Energized);
                        }
                        // STACKS_PER_AA
                        state.attacker_auras.insert(
                            Aura::Energized,
                            AuraApplication { stacks: Some(stacks + 6), ..aura_app },
                        );
                    },
                    None => {
                        state.add_attacker_aura(Aura::Energized, None, Some(6), events);
                    },
                }
                None
            },
            _ => {
                // Blade of the Ruined King
                if is_aa {
                    Some(DamageProc::MistsEdge)
                } else {
                    None
                }
            },
        }
    }

    /// Runs the item's reaction after a damage instance has landed, and tells which reactive
    /// damage the caller must deal. Black Cleaver adds a Carve stack (at most 5, for 6 s) on
    /// physical damage; Eclipse marks the target on damage of an ability or an item active,
    /// and on a second such hit within 2 s strikes and waits 6 s; Spear of Shojin adds a
    /// Focused Will stack (at most 4, for 6 s) on damage of Q, W or E; Sundered Sky ends its
    /// Lightshield Strike on the attacker; The Collector asks for its execution check.
    pub fn handle_on_post_damage(
        &self,
        passive_effect: &PassiveEffect,
        damage_info: &DamageInfo,
        state: &mut State,
        game_params: &GameParams,
        event: &Event,
        events: &mut EventQueue,
    ) -> (r: Option<DamageProc>)
        requires
            post_damage_ok(*self, *passive_effect, *old(state), *event),
        ensures
            post_damage_result(
                *self,
                *damage_info,
                *old(state),
                *final(state),
                old(events)@,
                final(events)@,
                *event,
                r,
            ),
    {
        match self {
            Item::BlackCleaver => {
                if damage_info.damage_type == DamageType::Physical {
                    let stack = match state.target_auras.get(Aura::Carve) {
                        Some(aura_app) => aura_app.stacks.unwrap() + 1,
                        None => 1,
                    };
                    let capped = if stack <= 5 {
                        stack
                    } else {
                        5
                    };
                    state.add_target_aura(Aura::Carve, Some(6_000), Some(capped), events);
                }
                None
            },
            Item::Eclipse => {
                if damage_info.source != DamageSource::Ability && damage_info.source
                    != DamageSource::ItemActive {
                    return None;
                }
                if state.effects_cooldowns.contains_key(PassiveEffect::EverRisingMoon) {
                    return None;
                }
                if state.target_auras.contains_key(Aura::EverRisingMoon) {
                    state.end_early_target_aura(&Aura::EverRisingMoon, game_params, event, events);
                    state.effects_cooldowns.insert(
                        PassiveEffect::EverRisingMoon,
                        event.time_ms + 6_000,
                    );
                    Some(DamageProc::EverRisingMoon)
                } else {
                    state.add_target_aura(Aura::EverRisingMoon, Some(2_000), Some(1), events);
                    None
                }
            },
            Item::SpearofShojin => {
                let is_basic_spell = match damage_info.source_ability {
                    Some(attack_type) => attack_type == AttackType::Q || attack_type
                        == AttackType::W || attack_type == AttackType::E,
                    None => false,
                };
                if is_basic_spell {
                    let stack = match state.attacker_auras.get(Aura::FocusedWill) {
                        Some(aura_app) => aura_app.stacks.unwrap() + 1,
                        None => 1,
                    };
                    let capped = if stack <= 4 {
                        stack
                    } else {
                        4
                    };
                    state.add_attacker_aura(Aura::FocusedWill, Some(6_000), Some(capped), events);
                }
                None
            },
            Item::SunderedSky => {
                state.end_early_attacker_aura(
                    &Aura::LightshieldStrike,
                    game_params,
                    event,
                    events,
                );
                None
            },
            _ => {
                // The Collector: whether the target is low enough to execute is a question
                // of its health, which the caller holds.
                Some(DamageProc::Death)
            },
        }
    }

    /// Adds the Energized stacks that moving generated (at most 100 in all).
    pub fn handle_on_movement(
        &self,
        passive_effect: &PassiveEffect,
        generated_stacks: u64,
        state: &mut State,
        events: &mut EventQueue,
    )
        requires
            *self == Item::VoltaicCyclosword && *passive_effect == PassiveEffect::Energized,
            old(state).attacker_auras@.contains_key(Aura::Energized) ==> old(state).attacker_auras@[Aura::Energized].stacks is Some && old(state).attacker_auras@[Aura::Energized].stacks->Some_0 + generated_stacks <= u64::MAX,
        ensures
            same_timers(*final(state), *old(state)),
            final(state).target_auras@ == old(state).target_auras@,
            final(state).recast_ready@ == old(state).recast_ready@,
            old(state).attacker_auras@.contains_key(Aura::Energized) ==> final(state).attacker_auras@
                == old(state).attacker_auras@.insert(
                Aura::Energized,
                energized_capped(old(state).attacker_auras@[Aura::Energized], generated_stacks),
            ) && final(events)@ == old(events)@,
            !old(state).attacker_auras@.contains_key(Aura::Energized) ==> final(state).attacker_auras@ == old(state).attacker_auras@.insert(
                Aura::Energized,
                application(
                    Aura::Energized,
                    old(state).time_ms,
                    None,
                    Some(if generated_stacks < 100 { generated_stacks } else { 100 }),
                ),
            ) && final(events)@ == queue_aura(
                old(events)@,
                Unit::Attacker,
                Aura::Energized,
                old(state).time_ms,
                None,
            ),
    {
        match state.attacker_auras.get(Aura::Energized) {
            Some(aura_app) => {
                let total = aura_app.stacks.unwrap() + generated_stacks;
                let new_stacks = if total < 100 {
                    total
                } else {
                    100
                };
                state.attacker_auras.insert(
                    Aura::Energized,
                    AuraApplication { stacks: Some(new_stacks), ..aura_app },
                );
            },
            None => {
                let capped = if generated_stacks < 100 {
                    generated_stacks
                } else {
                    100
                };
                state.add_attacker_aura(Aura::Energized, None, Some(capped), events);
            },
        }
    }
}

/// The item whose pre-damage handler serves a passive effect.
pub open spec fn pre_damage_item(e: PassiveEffect) -> Option<Item> {
    match e {
        PassiveEffect::LightshieldStrike => Some(Item::SunderedSky),
        PassiveEffect::Energized => Some(Item::VoltaicCyclosword),
        PassiveEffect::MistsEdge => Some(Item::BladeofTheRuinedKing),
        _ => None,
    }
}

/// The item whose post-damage handler serves a passive effect.
pub open spec fn post_damage_item(e: PassiveEffect) -> Option<Item> {
    match e {
        PassiveEffect::Carve => Some(Item::BlackCleaver),
        PassiveEffect::EverRisingMoon => Some(Item::Eclipse),
        PassiveEffect::FocusedWill => Some(Item::SpearofShojin),
        PassiveEffect::LightshieldStrike => Some(Item::SunderedSky),
        _ => None,
    }
}

impl PassiveEffect {
    /// Runs the reaction of this effect before a damage instance lands: the effects of
    /// Sundered Sky, Voltaic Cyclosword and Blade of the Ruined King go to their item's
    /// handler; Dark Harvest asks the caller for its rune damage; the others do nothing.
    pub fn handle_on_pre_damage(
        &self,
        damage_info: &DamageInfo,
        state: &mut State,
        game_params: &GameParams,
        event: &Event,
        events: &mut EventQueue,
    ) -> (r: Option<DamageProc>)
        requires
            pre_damage_item(*self) matches Some(item) ==> pre_damage_ok(
                item,
                *self,
                *old(state),
                *event,
            ),
        ensures
            match pre_damage_item(*self) {
                Some(item) => pre_damage_result(
                    item,
                    *damage_info,
                    *old(state),
                    *final(state),
                    old(events)@,
                    final(events)@,
                    *event,
                    r,
                ),
                None => {
                    &&& state_unchanged(*final(state), *old(state))
                    &&& final(events)@ == old(events)@
                    &&& r == (if *self == PassiveEffect::DarkHarvest {
                        Some(DamageProc::DarkHarvest)
                    } else {
                        None
                    })
                },
            },
    {
        match self {
            PassiveEffect::LightshieldStrike => Item::SunderedSky.handle_on_pre_damage(
                self,
                damage_info,
                state,
                game_params,
                event,
                events,
            ),
            PassiveEffect::Energized => Item::VoltaicCyclosword.handle_on_pre_damage(
                self,
                damage_info,
                state,
                game_params,
                event,
                events,
            ),
            PassiveEffect::MistsEdge => Item::BladeofTheRuinedKing.handle_on_pre_damage(
                self,
                damage_info,
                state,
                game_params,
                event,
                events,
            ),
            PassiveEffect::DarkHarvest => Some(DamageProc::DarkHarvest),
            _ => None,
        }
    }

    /// Runs the reaction of this effect after a damage instance has landed: the effects of
    /// Black Cleaver, Eclipse, Spear of Shojin and Sundered Sky go to their item's handler;
    /// the others do nothing.
    pub fn handle_on_post_damage(
        &self,
        damage_info: &DamageInfo,
        state: &mut State,
        game_params: &GameParams,
        event: &Event,
        events: &mut EventQueue,
    ) -> (r: Option<DamageProc>)
        requires
            post_damage_item(*self) matches Some(item) ==> post_damage_ok(
                item,
                *self,
                *old(state),
                *event,
            ),
        ensures
            match post_damage_item(*self) {
                Some(item) => post_damage_result(
                    item,
                    *damage_info,
                    *old(state),
                    *final(state),
                    old(events)@,
                    final(events)@,
                    *event,
                    r,
                ),
                None => {
                    &&& state_unchanged(*final(state), *old(state))
                    &&& final(events)@ == old(events)@
                    &&& r == None::<DamageProc>
                },
            },
    {
        match self {
            PassiveEffect::Carve => Item::BlackCleaver.handle_on_post_damage(
                self,
                damage_info,
                state,
                game_params,
                event,
                events,
            ),
            PassiveEffect::EverRisingMoon => Item::Eclipse.handle_on_post_damage(
                self,
                damage_info,
                state,
                game_params,
                event,
                events,
            ),
            PassiveEffect::FocusedWill => Item::SpearofShojin.handle_on_post_damage(
                self,
                damage_info,
                state,
                game_params,
                event,
                events,
            ),
            PassiveEffect::LightshieldStrike => Item::SunderedSky.handle_on_post_damage(
                self,
                damage_info,
                state,
                game_params,
                event,
                events,
            ),
            _ => None,
        }
    }
}

/// The reactive damage an attacker aura asks for once a damage instance has landed.
pub open spec fn aura_post_damage_proc(aura: Aura, d: DamageInfo) -> Option<DamageProc> {
    match aura {
        Aura::SuddenImpactReady => Some(DamageProc::SuddenImpact),
        Aura::UnseenThreat => if from_auto_attack(d) {
            Some(DamageProc::UnseenThreat)
        } else {
            None
        },
        _ => None,
    }
}

impl Aura {
    /// Which reactive damage this attacker aura asks for once a damage instance has landed:
    /// Sudden Impact's readiness deals its bonus damage on any damage; Unseen Threat deals
    /// its damage on an auto attack. The caller deals it and then uses up the aura.
    pub fn on_post_damage(&self, damage_info: &DamageInfo, state: &State) -> (r: Option<DamageProc>)
        requires
            *self == Aura::UnseenThreat ==> state.attacker_auras@.contains_key(Aura::UnseenThreat),
        ensures
            r == aura_post_damage_proc(*self, *damage_info),
    {
        match self {
            Aura::SuddenImpactReady => Some(DamageProc::SuddenImpact),
            Aura::UnseenThreat => {
                let is_aa = match damage_info.source_ability {
                    Some(attack_type) => attack_type == AttackType::AA,
                    None => false,
                };
                if is_aa {
                    Some(DamageProc::UnseenThreat)
                } else {
                    None
                }
            },
            _ => None,
        }
    }
}

impl PassiveEffect {
    /// Runs the reaction of this effect to the attacker moving: Voltaic Cyclosword's
    /// Energized gains the stacks that the distance travelled generated.
    pub fn handle_on_movement(
        &self,
        generated_stacks: u64,
        state: &mut State,
        events: &mut EventQueue,
    )
        requires
            *self == PassiveEffect::Energized && old(state).attacker_auras@.contains_key(Aura::Energized)
                ==> old(state).attacker_auras@[Aura::Energized].stacks is Some
                && old(state).attacker_auras@[Aura::Energized].stacks->Some_0 + generated_stacks
                <= u64::MAX,
        ensures
            same_timers(*final(state), *old(state)),
            final(state).target_auras@ == old(state).target_auras@,
            final(state).recast_ready@ == old(state).recast_ready@,
            *self != PassiveEffect::Energized ==> final(state).attacker_auras@ == old(state).attacker_auras@
                && final(events)@ == old(events)@,
            *self == PassiveEffect::Energized && old(state).attacker_auras@.contains_key(Aura::Energized)
                ==> final(state).attacker_auras@ == old(state).attacker_auras@.insert(
                Aura::Energized,
                energized_capped(old(state).attacker_auras@[Aura::Energized], generated_stacks),
            ) && final(events)@ == old(events)@,
            *self == PassiveEffect::Energized && !old(state).attacker_auras@.contains_key(Aura::Energized)
                ==> final(state).attacker_auras@ == old(state).attacker_auras@.insert(
                Aura::Energized,
                application(
                    Aura::Energized,
                    old(state).time_ms,
                    None,
                    Some(if generated_stacks < 100 { generated_stacks } else { 100 }),
                ),
            ) && final(events)@ == queue_aura(
                old(events)@,
                Unit::Attacker,
                Aura::Energized,
                old(state).time_ms,
                None,
            ),
    {
        match self {
            PassiveEffect::Energized => {
                Item::VoltaicCyclosword.handle_on_movement(self, generated_stacks, state, events)
            },
            _ => {},
        }
    }
}

} // verus!
