use vstd::prelude::*;

use crate::abilities::{ability_exists, find_ability, spec_find_ability, SpellData};
use crate::attack::{AttackType, SpellCategory};
use crate::common::{Aura, AuraApplication, Champion, CritHandlingChoice, PassiveEffect, Unit};
use crate::config::{flag_or, Config};
use crate::text::{parse_u64, spec_parse_u64};
use crate::events::{
    lemma_filter_none_before, lemma_insert_pos_bound, lemma_schedule_none_before, none_before,
    aura_event, insert_passive_triggered_event, insert_aura_attacker_end_event, insert_aura_attacker_start_event,
    insert_aura_target_end_event, insert_aura_target_start_event, keeps_unless_aura_event,
    schedule, Event, EventCategory, EventQueue,
};
use crate::items::{Item, ItemData};
use crate::keyed::{KeyedTable, SlotKey};
use crate::runes::{RunesData, Rune, SuddenImpact};

verus! {

/// What stays fixed during one simulation.
pub struct GameParams {
    pub champion: Champion,
    pub level: u64,
    pub items: Vec<ItemData>,
    pub initial_config: Config,
    pub abilities: Vec<SpellData>,
    pub runes: Vec<Rune>,
    pub runes_data: RunesData,
    pub passive_effects: Vec<PassiveEffect>,
    pub crit_handling: CritHandlingChoice,
    pub initial_attacker_auras: Vec<AuraApplication>,
    pub initial_target_auras: Vec<AuraApplication>,
    pub start_time_ms: u64,
    pub capture_event_history: bool,
    pub weave_auto_attacks: bool,
}

/// The timeline state of a simulation: the clock, the cooldowns, the auras on both units
/// and the recast charges of spells.
pub struct State {
    pub time_ms: u64,
    pub cooldowns: KeyedTable<AttackType, u64>,
    pub effects_cooldowns: KeyedTable<PassiveEffect, u64>,
    pub last_attack_time_ms: u64,
    pub attacker_auras: KeyedTable<Aura, AuraApplication>,
    pub target_auras: KeyedTable<Aura, AuraApplication>,
    pub recast_charges: Vec<AttackType>,
    pub recast_ready: KeyedTable<AttackType, ()>,
    pub is_casting: bool,
}

/// Whether the game parameters hold a data entry for Kha'Zix's R.
pub open spec fn has_r_ability(gp: GameParams) -> bool {
    ability_exists(gp.abilities@, AttackType::R, gp.initial_config@)
}

/// The data entry of Kha'Zix's R.
pub open spec fn r_ability(gp: GameParams) -> SpellData {
    spec_find_ability(gp.abilities@, AttackType::R, gp.initial_config@)
}

/// Whether a duration started at `start` ends within the clock's range.
pub open spec fn fits(start: u64, duration: Option<u64>) -> bool {
    match duration {
        Some(d) => start + d <= u64::MAX,
        None => true,
    }
}

/// The end time of a duration started at `start` (`None` for an aura without end).
pub open spec fn end_of(start: u64, duration: Option<u64>) -> Option<u64> {
    match duration {
        Some(d) => Some((start + d) as u64),
        None => None,
    }
}

/// The application of an aura started at `start`.
pub open spec fn application(
    aura: Aura,
    start: u64,
    duration: Option<u64>,
    stacks: Option<u64>,
) -> AuraApplication {
    AuraApplication { aura, start_ms: start, end_ms: end_of(start, duration), stacks }
}

/// Whether an aura application has run out at time `now`.
pub open spec fn expired(app: AuraApplication, now: u64) -> bool {
    match app.end_ms {
        Some(end) => end <= now,
        None => false,
    }
}

/// The event category that records the start of an aura on a unit.
pub open spec fn start_category(unit: Unit) -> EventCategory {
    match unit {
        Unit::Attacker => EventCategory::AuraAttackerStart,
        Unit::Target => EventCategory::AuraTargetStart,
    }
}

/// The event category that records the end of an aura on a unit.
pub open spec fn end_category(unit: Unit) -> EventCategory {
    match unit {
        Unit::Attacker => EventCategory::AuraAttackerEnd,
        Unit::Target => EventCategory::AuraTargetEnd,
    }
}

/// The queue once an aura started at `start` on a unit has been recorded: its start, and
/// its end when it has one.
pub open spec fn queue_aura(
    q: Seq<Event>,
    unit: Unit,
    aura: Aura,
    start: u64,
    duration: Option<u64>,
) -> Seq<Event> {
    let q1 = schedule(q, aura_event(start_category(unit), start, aura));
    match duration {
        Some(d) => schedule(q1, aura_event(end_category(unit), (start + d) as u64, aura)),
        None => q1,
    }
}

/// The spells ready to be recast once an aura has started: the recast window of
/// Kha'Zix's R makes R ready.
pub open spec fn started_ready(ready: Map<AttackType, ()>, aura: Aura) -> Map<AttackType, ()> {
    if aura == Aura::VoidAssaultRecastReady {
        ready.insert(AttackType::R, ())
    } else {
        ready
    }
}

/// Whether the end of an aura needs the data of R: the end of the stealth while R charges
/// remain starts the delay before a recast, and the end of that delay opens the recast window.
pub open spec fn end_needs_r(s: State, aura: Aura) -> bool {
    (aura == Aura::Invisibility && s.recast_charges@.contains(AttackType::R)) || aura
        == Aura::VoidAssaultDelay
}

/// What the end of an aura requires: the data of R when it is needed, with durations
/// that end within the clock's range.
pub open spec fn on_end_ok(s: State, gp: GameParams, aura: Aura) -> bool {
    end_needs_r(s, aura) ==> {
        &&& has_r_ability(gp)
        &&& fits(s.time_ms, r_ability(gp).recast_gap_duration)
        &&& fits(s.time_ms, r_ability(gp).recast_window)
    }
}

/// The attacker's auras `m` once an aura has ended at `now` (before the ended aura is
/// removed), given the recast charges: the end of the stealth while R charges remain starts
/// the delay before a recast, and the end of that delay opens the recast window.
pub open spec fn end_attacker_auras(
    m: Map<Aura, AuraApplication>,
    charges: Seq<AttackType>,
    now: u64,
    gp: GameParams,
    aura: Aura,
) -> Map<Aura, AuraApplication> {
    if aura == Aura::Invisibility && charges.contains(AttackType::R) {
        m.insert(
            Aura::VoidAssaultDelay,
            application(Aura::VoidAssaultDelay, now, r_ability(gp).recast_gap_duration, None),
        )
    } else if aura == Aura::VoidAssaultDelay {
        m.insert(
            Aura::VoidAssaultRecastReady,
            application(Aura::VoidAssaultRecastReady, now, r_ability(gp).recast_window, None),
        )
    } else {
        m
    }
}

/// The attacker's auras once an aura has ended (before the ended aura is removed).
pub open spec fn on_end_attacker_auras(s: State, gp: GameParams, aura: Aura) -> Map<
    Aura,
    AuraApplication,
> {
    end_attacker_auras(s.attacker_auras@, s.recast_charges@, s.time_ms, gp, aura)
}

/// The spells ready to be recast once an aura has ended.
pub open spec fn on_end_recast_ready(ready: Map<AttackType, ()>, aura: Aura) -> Map<AttackType, ()> {
    if aura == Aura::VoidAssaultDelay {
        ready.insert(AttackType::R, ())
    } else if aura == Aura::VoidAssaultRecastReady {
        ready.remove(AttackType::R)
    } else {
        ready
    }
}

/// The queue once an aura has ended at `now`, given the recast charges.
pub open spec fn end_queue(
    charges: Seq<AttackType>,
    now: u64,
    gp: GameParams,
    q: Seq<Event>,
    aura: Aura,
) -> Seq<Event> {
    if aura == Aura::Invisibility && charges.contains(AttackType::R) {
        queue_aura(q, Unit::Attacker, Aura::VoidAssaultDelay, now, r_ability(gp).recast_gap_duration)
    } else if aura == Aura::VoidAssaultDelay {
        queue_aura(q, Unit::Attacker, Aura::VoidAssaultRecastReady, now, r_ability(gp).recast_window)
    } else {
        q
    }
}

/// The queue once an aura has ended.
pub open spec fn on_end_queue(s: State, gp: GameParams, q: Seq<Event>, aura: Aura) -> Seq<Event> {
    end_queue(s.recast_charges@, s.time_ms, gp, q, aura)
}

/// The two states agree on the clock, the cooldowns, the recast charges and the flags.
pub open spec fn same_timers(a: State, b: State) -> bool {
    &&& a.time_ms == b.time_ms
    &&& a.cooldowns@ == b.cooldowns@
    &&& a.effects_cooldowns@ == b.effects_cooldowns@
    &&& a.last_attack_time_ms == b.last_attack_time_ms
    &&& a.recast_charges@ == b.recast_charges@
    &&& a.is_casting == b.is_casting
}

impl Aura {
    /// What happens when an aura starts: the recast window of R makes R ready.
    pub fn on_start(&self, state: &mut State, affected_unit: Unit)
        ensures
            same_timers(*final(state), *old(state)),
            final(state).attacker_auras@ == old(state).attacker_auras@,
            final(state).target_auras@ == old(state).target_auras@,
            final(state).recast_ready@ == started_ready(old(state).recast_ready@, *self),
    {
        match self {
            Aura::VoidAssaultRecastReady => {
                state.recast_ready.insert(AttackType::R, ());
            },
            _ => {},
        }
    }

    /// What happens when an aura ends: the end of the stealth while R charges remain starts
    /// the delay before a recast; the end of that delay opens the recast window; the end of
    /// the window makes R no longer ready.
    pub fn on_end(
        &self,
        state: &mut State,
        game_params: &GameParams,
        event: &Event,
        events: &mut EventQueue,
        affected_unit: Unit,
    )
        requires
            on_end_ok(*old(state), *game_params, *self),
        ensures
            same_timers(*final(state), *old(state)),
            final(state).target_auras@ == old(state).target_auras@,
            final(state).attacker_auras@ == on_end_attacker_auras(*old(state), *game_params, *self),
            final(state).recast_ready@ == on_end_recast_ready(old(state).recast_ready@, *self),
            final(events)@ == on_end_queue(*old(state), *game_params, old(events)@, *self),
    {
        match self {
            Aura::Invisibility => {
                if contains_attack(&state.recast_charges, AttackType::R) {
                    let r_ability = find_ability(
                        &game_params.abilities,
                        AttackType::R,
                        &game_params.initial_config,
                    );
                    state.add_attacker_aura(
                        Aura::VoidAssaultDelay,
                        r_ability.recast_gap_duration,
                        None,
                        events,
                    );
                }
            },
            Aura::VoidAssaultDelay => {
                let r_ability = find_ability(
                    &game_params.abilities,
                    AttackType::R,
                    &game_params.initial_config,
                );
                state.add_attacker_aura(
                    Aura::VoidAssaultRecastReady,
                    r_ability.recast_window,
                    None,
                    events,
                );
            },
            Aura::VoidAssaultRecastReady => {
                state.recast_ready.remove(AttackType::R);
            },
            _ => {},
        }
    }
}

/// Whether the list holds the attack type.
pub fn contains_attack(v: &Vec<AttackType>, a: AttackType) -> (r: bool)
    ensures
        r == v@.contains(a),
{
    let mut i: usize = 0;
    while i < v.len()
        invariant
            i <= v@.len(),
            forall|j: int| 0 <= j < i ==> v@[j] != a,
        decreases v@.len() - i,
    {
        if v[i] == a {
            return true;
        }
        i = i + 1;
    }
    false
}

/// Recording an aura started no earlier than `t` (and ending within the clock's range)
/// queues nothing before `t`.
pub proof fn lemma_queue_aura_none_before(
    q: Seq<Event>,
    unit: Unit,
    aura: Aura,
    start: u64,
    duration: Option<u64>,
    t: u64,
)
    requires
        none_before(q, t),
        start >= t,
        fits(start, duration),
    ensures
        none_before(queue_aura(q, unit, aura, start, duration), t),
{
    let q1 = schedule(q, aura_event(start_category(unit), start, aura));
    lemma_schedule_none_before(q, aura_event(start_category(unit), start, aura), t);
    match duration {
        Some(d) => {
            lemma_schedule_none_before(
                q1,
                aura_event(end_category(unit), (start + d) as u64, aura),
                t,
            );
        },
        None => {},
    }
}

/// The end of an aura at a time no earlier than `t` queues nothing before `t`.
pub proof fn lemma_on_end_queue_none_before(s: State, gp: GameParams, q: Seq<Event>, aura: Aura, t: u64)
    requires
        none_before(q, t),
        s.time_ms >= t,
        on_end_ok(s, gp, aura),
    ensures
        none_before(on_end_queue(s, gp, q, aura), t),
{
    if aura == Aura::Invisibility && s.recast_charges@.contains(AttackType::R) {
        lemma_queue_aura_none_before(
            q,
            Unit::Attacker,
            Aura::VoidAssaultDelay,
            s.time_ms,
            r_ability(gp).recast_gap_duration,
            t,
        );
    } else if aura == Aura::VoidAssaultDelay {
        lemma_queue_aura_none_before(
            q,
            Unit::Attacker,
            Aura::VoidAssaultRecastReady,
            s.time_ms,
            r_ability(gp).recast_window,
            t,
        );
    }
}


impl State {
    /// A state at the given time with no cooldown, aura or recast charge.
    pub fn new(time_ms: u64) -> (s: State)
        ensures
            s.time_ms == time_ms,
            s.cooldowns@ == Map::<AttackType, u64>::empty(),
            s.effects_cooldowns@ == Map::<PassiveEffect, u64>::empty(),
            s.last_attack_time_ms == 0,
            s.attacker_auras@ == Map::<Aura, AuraApplication>::empty(),
            s.target_auras@ == Map::<Aura, AuraApplication>::empty(),
            s.recast_charges@ == Seq::<AttackType>::empty(),
            s.recast_ready@ == Map::<AttackType, ()>::empty(),
            !s.is_casting,
    {
        State {
            time_ms,
            cooldowns: KeyedTable::new(),
            effects_cooldowns: KeyedTable::new(),
            last_attack_time_ms: 0,
            attacker_auras: KeyedTable::new(),
            target_auras: KeyedTable::new(),
            recast_charges: Vec::new(),
            recast_ready: KeyedTable::new(),
            is_casting: false,
        }
    }

    /// Starts an aura on the attacker now, for the given duration (for good when `None`),
    /// records its start and end in the queue and runs its start effect.
    pub fn add_attacker_aura(
        &mut self,
        aura: Aura,
        duration: Option<u64>,
        stacks: Option<u64>,
        events: &mut EventQueue,
    )
        requires
            fits(old(self).time_ms, duration),
        ensures
            same_timers(*final(self), *old(self)),
            final(self).attacker_auras@ == old(self).attacker_auras@.insert(
                aura,
                application(aura, old(self).time_ms, duration, stacks),
            ),
            final(self).target_auras@ == old(self).target_auras@,
            final(self).recast_ready@ == started_ready(old(self).recast_ready@, aura),
            final(events)@ == queue_aura(
                old(events)@,
                Unit::Attacker,
                aura,
                old(self).time_ms,
                duration,
            ),
    {
        let end_time = match duration {
            None => None,
            Some(d) => Some(self.time_ms + d),
        };
        insert_aura_attacker_start_event(events, self.time_ms, aura);
        match end_time {
            Some(end) => insert_aura_attacker_end_event(events, end, aura),
            None => {},
        }
        self.attacker_auras.insert(
            aura,
            AuraApplication { aura: aura, start_ms: self.time_ms, end_ms: end_time, stacks: stacks },
        );
        aura.on_start(self, Unit::Attacker);
    }

    /// Starts an aura on the target now, for the given duration (for good when `None`),
    /// records its start and end in the queue and runs its start effect.
    pub fn add_target_aura(
        &mut self,
        aura: Aura,
        duration: Option<u64>,
        stacks: Option<u64>,
        events: &mut EventQueue,
    )
        requires
            fits(old(self).time_ms, duration),
        ensures
            same_timers(*final(self), *old(self)),
            final(self).target_auras@ == old(self).target_auras@.insert(
                aura,
                application(aura, old(self).time_ms, duration, stacks),
            ),
            final(self).attacker_auras@ == old(self).attacker_auras@,
            final(self).recast_ready@ == started_ready(old(self).recast_ready@, aura),
            final(events)@ == queue_aura(
                old(events)@,
                Unit::Target,
                aura,
                old(self).time_ms,
                duration,
            ),
    {
        let end_time = match duration {
            None => None,
            Some(d) => Some(self.time_ms + d),
        };
        insert_aura_target_start_event(events, self.time_ms, aura);
        match end_time {
            Some(end) => insert_aura_target_end_event(events, end, aura),
            None => {},
        }
        self.target_auras.insert(
            aura,
            AuraApplication { aura: aura, start_ms: self.time_ms, end_ms: end_time, stacks: stacks },
        );
        aura.on_start(self, Unit::Target);
    }

    /// Ends an attacker aura now, before its time: its scheduled end is replaced by an end
    /// now, its end effect runs, and it is removed.
    pub fn end_early_attacker_aura(
        &mut self,
        aura: &Aura,
        game_params: &GameParams,
        event: &Event,
        events: &mut EventQueue,
    )
        requires
            on_end_ok(*old(self), *game_params, *aura),
        ensures
            same_timers(*final(self), *old(self)),
            final(self).target_auras@ == old(self).target_auras@,
            final(self).attacker_auras@ == on_end_attacker_auras(
                *old(self),
                *game_params,
                *aura,
            ).remove(*aura),
            final(self).recast_ready@ == on_end_recast_ready(old(self).recast_ready@, *aura),
            final(events)@ == on_end_queue(
                *old(self),
                *game_params,
                schedule(
                    old(events)@.filter(
                        keeps_unless_aura_event(EventCategory::AuraAttackerEnd, *aura),
                    ),
                    aura_event(EventCategory::AuraAttackerEnd, old(self).time_ms, *aura),
                ),
                *aura,
            ),
    {
        // remove the default end event (queued when the aura was added)
        events.remove_aura_events(EventCategory::AuraAttackerEnd, *aura);
        insert_aura_attacker_end_event(events, self.time_ms, *aura);
        aura.on_end(self, game_params, event, events, Unit::Attacker);
        self.attacker_auras.remove(*aura);
    }

    /// Runs the end effect of an attacker aura that has run out, and removes it.
    pub fn on_expire_attacker_aura(
        &mut self,
        aura: &Aura,
        game_params: &GameParams,
        event: &Event,
        events: &mut EventQueue,
    )
        requires
            on_end_ok(*old(self), *game_params, *aura),
        ensures
            same_timers(*final(self), *old(self)),
            final(self).target_auras@ == old(self).target_auras@,
            final(self).attacker_auras@ == on_end_attacker_auras(
                *old(self),
                *game_params,
                *aura,
            ).remove(*aura),
            final(self).recast_ready@ == on_end_recast_ready(old(self).recast_ready@, *aura),
            final(events)@ == on_end_queue(*old(self), *game_params, old(events)@, *aura),
    {
        aura.on_end(self, game_params, event, events, Unit::Attacker);
        self.attacker_auras.remove(*aura);
    }

    /// Ends a target aura now, before its time: its scheduled end is replaced by an end now,
    /// its end effect runs, and it is removed.
    pub fn end_early_target_aura(
        &mut self,
        aura: &Aura,
        game_params: &GameParams,
        event: &Event,
        events: &mut EventQueue,
    )
        requires
            on_end_ok(*old(self), *game_params, *aura),
        ensures
            same_timers(*final(self), *old(self)),
            final(self).target_auras@ == old(self).target_auras@.remove(*aura),
            final(self).attacker_auras@ == on_end_attacker_auras(*old(self), *game_params, *aura),
            final(self).recast_ready@ == on_end_recast_ready(old(self).recast_ready@, *aura),
            final(events)@ == on_end_queue(
                *old(self),
                *game_params,
                schedule(
                    old(events)@.filter(
                        keeps_unless_aura_event(EventCategory::AuraTargetEnd, *aura),
                    ),
                    aura_event(EventCategory::AuraTargetEnd, old(self).time_ms, *aura),
                ),
                *aura,
            ),
    {
        // remove the default end event (queued when the aura was added)
        events.remove_aura_events(EventCategory::AuraTargetEnd, *aura);
        insert_aura_target_end_event(events, self.time_ms, *aura);
        aura.on_end(self, game_params, event, events, Unit::Target);
        self.target_auras.remove(*aura);
    }

    /// Runs the end effect of a target aura that has run out, and removes it.
    pub fn on_expire_target_aura(
        &mut self,
        aura: &Aura,
        game_params: &GameParams,
        event: &Event,
        events: &mut EventQueue,
    )
        requires
            on_end_ok(*old(self), *game_params, *aura),
        ensures
            same_timers(*final(self), *old(self)),
            final(self).target_auras@ == old(self).target_auras@.remove(*aura),
            final(self).attacker_auras@ == on_end_attacker_auras(*old(self), *game_params, *aura),
            final(self).recast_ready@ == on_end_recast_ready(old(self).recast_ready@, *aura),
            final(events)@ == on_end_queue(*old(self), *game_params, old(events)@, *aura),
    {
        aura.on_end(self, game_params, event, events, Unit::Target);
        self.target_auras.remove(*aura);
    }
}

/// How much expiring an aura can cost at most before the expiries stop: the end of the
/// stealth may start the recast delay, whose end may open the recast window.
pub open spec fn aura_weight(a: Aura) -> nat {
    match a {
        Aura::Invisibility => 3,
        Aura::VoidAssaultDelay => 2,
        _ => 1,
    }
}

/// The weight of an aura if it is held and has run out at `now`.
pub open spec fn expired_term(m: Map<Aura, AuraApplication>, now: u64, a: Aura) -> nat {
    if m.contains_key(a) && expired(m[a], now) {
        aura_weight(a)
    } else {
        0
    }
}

/// The summed weight of the auras that have run out at `now`.
pub open spec fn expired_weight(m: Map<Aura, AuraApplication>, now: u64) -> nat {
    expired_term(m, now, Aura::SuddenImpactReady) + expired_term(m, now, Aura::Invisibility)
        + expired_term(m, now, Aura::UnseenThreat) + expired_term(m, now, Aura::VoidAssaultDelay)
        + expired_term(m, now, Aura::VoidAssaultRecastReady) + expired_term(m, now, Aura::Carve)
        + expired_term(m, now, Aura::EverRisingMoon) + expired_term(m, now, Aura::HubrisEminence)
        + expired_term(m, now, Aura::Preparation) + expired_term(m, now, Aura::FocusedWill)
        + expired_term(m, now, Aura::LightshieldStrike) + expired_term(m, now, Aura::Energized)
}

/// Removing an aura that has run out lowers the weight of the auras that have run out.
pub proof fn lemma_remove_expired(m: Map<Aura, AuraApplication>, now: u64, a: Aura)
    requires
        m.contains_key(a),
        expired(m[a], now),
    ensures
        expired_weight(m.remove(a), now) < expired_weight(m, now),
{
    let r = m.remove(a);
    assert(expired_term(r, now, a) == 0);
    assert forall|b: Aura| b != a implies expired_term(r, now, b) == expired_term(m, now, b) by {
        assert(r.contains_key(b) == m.contains_key(b));
    }
}

/// Ending an aura that has run out lowers the weight of the auras that have run out,
/// counting the aura its end effect may start.
pub proof fn lemma_end_expired_decreases(
    m: Map<Aura, AuraApplication>,
    charges: Seq<AttackType>,
    now: u64,
    gp: GameParams,
    a: Aura,
)
    requires
        m.contains_key(a),
        expired(m[a], now),
    ensures
        expired_weight(end_attacker_auras(m, charges, now, gp, a).remove(a), now) < expired_weight(
            m,
            now,
        ),
{
    let e = end_attacker_auras(m, charges, now, gp, a);
    let r = e.remove(a);
    if a == Aura::Invisibility && charges.contains(AttackType::R) {
        assert forall|b: Aura| b != a && b != Aura::VoidAssaultDelay implies expired_term(r, now, b)
            == expired_term(m, now, b) by {
            assert(r.contains_key(b) == m.contains_key(b));
        }
        assert(expired_term(r, now, a) == 0);
        assert(expired_term(r, now, Aura::VoidAssaultDelay) <= 2);
    } else if a == Aura::VoidAssaultDelay {
        assert forall|b: Aura| b != a && b != Aura::VoidAssaultRecastReady implies expired_term(
            r,
            now,
            b,
        ) == expired_term(m, now, b) by {
            assert(r.contains_key(b) == m.contains_key(b));
        }
        assert(expired_term(r, now, a) == 0);
        assert(expired_term(r, now, Aura::VoidAssaultRecastReady) <= 1);
    } else {
        assert(e == m);
        lemma_remove_expired(m, now, a);
    }
}

/// What ending the attacker's auras that have run out at `now` gives, one after the other
/// in slot order (each end may start another aura, which may have run out too): the
/// attacker's auras, the spells ready to be recast, and the queue.
pub open spec fn attacker_expiries(
    m: Map<Aura, AuraApplication>,
    ready: Map<AttackType, ()>,
    q: Seq<Event>,
    charges: Seq<AttackType>,
    now: u64,
    gp: GameParams,
) -> (Map<Aura, AuraApplication>, Map<AttackType, ()>, Seq<Event>)
    decreases expired_weight(m, now),
{
    match first_expired(m, now) {
        Some(a) => {
            proof {
                lemma_end_expired_decreases(m, charges, now, gp, a);
            }
            attacker_expiries(
                end_attacker_auras(m, charges, now, gp, a).remove(a),
                on_end_recast_ready(ready, a),
                end_queue(charges, now, gp, q, a),
                charges,
                now,
                gp,
            )
        },
        None => (m, ready, q),
    }
}

/// What ending the target's auras that have run out at `now` gives, one after the other in
/// slot order: the target's auras, the attacker's auras, the spells ready to be recast, and
/// the queue.
pub open spec fn target_expiries(
    t: Map<Aura, AuraApplication>,
    m: Map<Aura, AuraApplication>,
    ready: Map<AttackType, ()>,
    q: Seq<Event>,
    charges: Seq<AttackType>,
    now: u64,
    gp: GameParams,
) -> (Map<Aura, AuraApplication>, Map<Aura, AuraApplication>, Map<AttackType, ()>, Seq<Event>)
    decreases expired_weight(t, now),
{
    match first_expired(t, now) {
        Some(a) => {
            proof {
                lemma_remove_expired(t, now, a);
            }
            target_expiries(
                t.remove(a),
                end_attacker_auras(m, charges, now, gp, a),
                on_end_recast_ready(ready, a),
                end_queue(charges, now, gp, q, a),
                charges,
                now,
                gp,
            )
        },
        None => (t, m, ready, q),
    }
}

/// What bringing the state up to its time does to the auras, the spells ready to be
/// recast and the queue: first the attacker's auras that have run out end, then the
/// target's.
pub open spec fn expiries(s: State, q: Seq<Event>, gp: GameParams) -> (
    Map<Aura, AuraApplication>,
    Map<Aura, AuraApplication>,
    Map<AttackType, ()>,
    Seq<Event>,
) {
    let a = attacker_expiries(
        s.attacker_auras@,
        s.recast_ready@,
        q,
        s.recast_charges@,
        s.time_ms,
        gp,
    );
    target_expiries(s.target_auras@, a.0, a.1, a.2, s.recast_charges@, s.time_ms, gp)
}

/// Whether an aura is one of the two auras that R's recast cycle starts on its own.
pub open spec fn is_recast_cycle_aura(a: Aura) -> bool {
    a == Aura::VoidAssaultDelay || a == Aura::VoidAssaultRecastReady
}

/// Whether a unit holds an aura whose end may need the data of R.
pub open spec fn holds_r_chain(m: Map<Aura, AuraApplication>) -> bool {
    m.contains_key(Aura::Invisibility) || m.contains_key(Aura::VoidAssaultDelay)
}

/// What refreshing the state requires: if an aura whose end may need the data of R is
/// held, that data is there and its durations end within the clock's range.
pub open spec fn refresh_ok(s: State, gp: GameParams) -> bool {
    (holds_r_chain(s.attacker_auras@) || holds_r_chain(s.target_auras@)) ==> {
        &&& has_r_ability(gp)
        &&& fits(s.time_ms, r_ability(gp).recast_gap_duration)
        &&& fits(s.time_ms, r_ability(gp).recast_window)
    }
}

/// Whether a target aura whose end acts on the attacker's auras has run out.
pub open spec fn target_chain_expired(m: Map<Aura, AuraApplication>, now: u64) -> bool {
    (m.contains_key(Aura::Invisibility) && expired(m[Aura::Invisibility], now)) || (
    m.contains_key(Aura::VoidAssaultDelay) && expired(m[Aura::VoidAssaultDelay], now))
}

/// Whether `a` is held, has run out at `now`, and comes first in slot order among the
/// auras that have run out.
pub open spec fn is_first_expired(m: Map<Aura, AuraApplication>, now: u64, a: Aura) -> bool {
    &&& m.contains_key(a)
    &&& expired(m[a], now)
    &&& forall|b: Aura|
        m.contains_key(b) && expired(m[b], now) ==> a.index_of() <= #[trigger] b.index_of()
}

/// The aura that runs out first in slot order, if any has run out.
pub open spec fn first_expired(m: Map<Aura, AuraApplication>, now: u64) -> Option<Aura> {
    if exists|a: Aura| is_first_expired(m, now, a) {
        Some(choose|a: Aura| is_first_expired(m, now, a))
    } else {
        None
    }
}

/// The aura of the table that runs out first in slot order, if any has run out at `now`.
pub fn find_expired_aura(table: &KeyedTable<Aura, AuraApplication>, now: u64) -> (r: Option<Aura>)
    ensures
        r == first_expired(table@, now),
        match r {
            Some(a) => table@.contains_key(a) && expired(table@[a], now),
            None => forall|a: Aura| #[trigger]
                table@.contains_key(a) ==> !expired(table@[a], now),
        },
{
    let n = Aura::slots();
    let mut i: usize = 0;
    while i < n
        invariant
            n == Aura::slot_count(),
            i <= n,
            forall|j: nat|
                j < i ==> #[trigger] table@.contains_key(Aura::key_of_slot(j)) ==> !expired(
                    table@[Aura::key_of_slot(j)],
                    now,
                ),
        decreases n - i,
    {
        let a = Aura::from_slot(i);
        match table.get(a) {
            Some(app) => {
                match app.end_ms {
                    Some(end) => {
                        if end <= now {
                            proof {
                                assert forall|b: Aura|
                                    table@.contains_key(b) && expired(table@[b], now) implies a.index_of()
                                    <= #[trigger] b.index_of() by {
                                    Aura::lemma_slots(b);
                                    if b.index_of() < i {
                                        assert(table@.contains_key(Aura::key_of_slot(b.index_of())));
                                    }
                                }
                                assert(is_first_expired(table@, now, a));
                                let c = choose|c: Aura| is_first_expired(table@, now, c);
                                Aura::lemma_slots(a);
                                Aura::lemma_slots(c);
                                assert(a.index_of() == c.index_of());
                            }
                            return Some(a);
                        }
                    },
                    None => {},
                }
            },
            None => {},
        }
        i = i + 1;
    }
    proof {
        assert forall|a: Aura| #[trigger] table@.contains_key(a) implies !expired(
            table@[a],
            now,
        ) by {
            Aura::lemma_slots(a);
            assert(table@.contains_key(Aura::key_of_slot(a.index_of())));
        }
    }
    None
}

/// What bringing a state up to its time does: cooldowns that are over are dropped, target
/// auras that have run out are removed, attacker auras that have run out are removed (R's
/// recast cycle may start new ones), and the rest is kept.
pub open spec fn refreshed(s0: State, s1: State) -> bool {
    &&& (s1.time_ms == s0.time_ms)
    &&& (s1.last_attack_time_ms == s0.last_attack_time_ms)
    &&& (s1.is_casting == s0.is_casting)
    &&& (s1.recast_charges@ == s0.recast_charges@)
    &&& (s1.cooldowns@ == s0.cooldowns@.restrict(
                s0.cooldowns@.dom().filter(|k: AttackType| s0.cooldowns@[k] > s0.time_ms),
            ))
    &&& (s1.effects_cooldowns@ == s0.effects_cooldowns@.restrict(
                s0.effects_cooldowns@.dom().filter(
                    |k: PassiveEffect| s0.effects_cooldowns@[k] > s0.time_ms,
                ),
            ))
    &&& (forall|a: Aura| #[trigger]
                s1.target_auras@.contains_key(a) == (s0.target_auras@.contains_key(a)
                    && !expired(s0.target_auras@[a], s0.time_ms)))
    &&& (forall|a: Aura| #[trigger]
                s1.target_auras@.contains_key(a) ==> s1.target_auras@[a]
                    == s0.target_auras@[a])
    &&& (forall|a: Aura|
                !is_recast_cycle_aura(a) ==> (#[trigger] s1.attacker_auras@.contains_key(a)
                    == (s0.attacker_auras@.contains_key(a) && !expired(
                    s0.attacker_auras@[a],
                    s0.time_ms,
                ))))
    &&& (forall|a: Aura|
                !is_recast_cycle_aura(a) && #[trigger] s1.attacker_auras@.contains_key(a)
                    ==> s1.attacker_auras@[a] == s0.attacker_auras@[a])
    &&& (!target_chain_expired(s0.target_auras@, s0.time_ms) ==> forall|a: Aura|
                #[trigger] s1.attacker_auras@.contains_key(a) ==> !expired(
                    s1.attacker_auras@[a],
                    s0.time_ms,
                ))
    &&& (forall|at: AttackType|
                at != AttackType::R ==> (#[trigger] s1.recast_ready@.contains_key(at)
                    == s0.recast_ready@.contains_key(at)))
}

impl State {
    /// Brings the state up to its current time: cooldowns that are over are dropped, and the
    /// auras that have run out end (first on the attacker, then on the target), running
    /// their end effects until none of them has run out.
    #[verifier::rlimit(40)]
    pub fn refresh_cds_and_auras(
        &mut self,
        game_params: &GameParams,
        event: &Event,
        events: &mut EventQueue,
    )
        requires
            refresh_ok(*old(self), *game_params),
        ensures
            refreshed(*old(self), *final(self)),
            final(self).target_auras@ == expiries(*old(self), old(events)@, *game_params).0,
            final(self).attacker_auras@ == expiries(*old(self), old(events)@, *game_params).1,
            final(self).recast_ready@ == expiries(*old(self), old(events)@, *game_params).2,
            final(events)@ == expiries(*old(self), old(events)@, *game_params).3,
            none_before(old(events)@, old(self).time_ms) ==> none_before(
                final(events)@,
                old(self).time_ms,
            ),
    {
        let current_time = self.time_ms;
        self.effects_cooldowns.retain_later_than(current_time);
        self.cooldowns.retain_later_than(current_time);

        let ghost orig = *old(self);
        let ghost q_orig = old(events)@;
        let ghost orig_attacker = old(self).attacker_auras@;
        let ghost orig_target = old(self).target_auras@;
        // the attacker's auras are emptied in a way that their end effects run for as long
        // as an aura has run out
        loop
            invariant
                self.time_ms == current_time,
                current_time == orig.time_ms,
                none_before(q_orig, current_time) ==> none_before(events@, current_time),
                self.last_attack_time_ms == orig.last_attack_time_ms,
                self.is_casting == orig.is_casting,
                self.recast_charges@ == orig.recast_charges@,
                attacker_expiries(
                    self.attacker_auras@,
                    self.recast_ready@,
                    events@,
                    orig.recast_charges@,
                    current_time,
                    *game_params,
                ) == attacker_expiries(
                    orig_attacker,
                    orig.recast_ready@,
                    q_orig,
                    orig.recast_charges@,
                    current_time,
                    *game_params,
                ),
                self.cooldowns@ == orig.cooldowns@.restrict(
                    orig.cooldowns@.dom().filter(|k: AttackType| orig.cooldowns@[k] > current_time),
                ),
                self.effects_cooldowns@ == orig.effects_cooldowns@.restrict(
                    orig.effects_cooldowns@.dom().filter(
                        |k: PassiveEffect| orig.effects_cooldowns@[k] > current_time,
                    ),
                ),
                self.target_auras@ == orig_target,
                refresh_ok(*self, *game_params),
                forall|a: Aura|
                    !is_recast_cycle_aura(a) && #[trigger] self.attacker_auras@.contains_key(a)
                        ==> orig_attacker.contains_key(a) && self.attacker_auras@[a]
                        == orig_attacker[a],
                forall|a: Aura|
                    !is_recast_cycle_aura(a) && #[trigger] orig_attacker.contains_key(a) && !expired(
                        orig_attacker[a],
                        current_time,
                    ) ==> self.attacker_auras@.contains_key(a),
                forall|at: AttackType|
                    at != AttackType::R ==> (#[trigger] self.recast_ready@.contains_key(at)
                        == orig.recast_ready@.contains_key(at)),
            ensures
                forall|a: Aura| #[trigger]
                    self.attacker_auras@.contains_key(a) ==> !expired(
                        self.attacker_auras@[a],
                        current_time,
                    ),
            decreases expired_weight(self.attacker_auras@, current_time),
        {
            match find_expired_aura(&self.attacker_auras, current_time) {
                Some(aura) => {
                    proof {
                        lemma_end_expired_decreases(
                            self.attacker_auras@,
                            self.recast_charges@,
                            self.time_ms,
                            *game_params,
                            aura,
                        );
                    }
                    let ghost s_before = *self;
                    let ghost q_before = events@;
                    self.on_expire_attacker_aura(&aura, game_params, event, events);
                    proof {
                        if none_before(q_orig, current_time) {
                            lemma_on_end_queue_none_before(
                                s_before,
                                *game_params,
                                q_before,
                                aura,
                                current_time,
                            );
                        }
                    }
                },
                None => {
                    break ;
                },
            }
        }
        let ghost after_attacker = self.attacker_auras@;
        proof {
            assert(orig.target_auras@ == orig_target);
            assert(self.target_auras@ == orig_target);
        }
        loop
            invariant
                self.time_ms == current_time,
                current_time == orig.time_ms,
                none_before(q_orig, current_time) ==> none_before(events@, current_time),
                self.last_attack_time_ms == orig.last_attack_time_ms,
                self.is_casting == orig.is_casting,
                self.recast_charges@ == orig.recast_charges@,
                target_expiries(
                    self.target_auras@,
                    self.attacker_auras@,
                    self.recast_ready@,
                    events@,
                    orig.recast_charges@,
                    current_time,
                    *game_params,
                ) == expiries(orig, q_orig, *game_params),
                self.cooldowns@ == orig.cooldowns@.restrict(
                    orig.cooldowns@.dom().filter(|k: AttackType| orig.cooldowns@[k] > current_time),
                ),
                self.effects_cooldowns@ == orig.effects_cooldowns@.restrict(
                    orig.effects_cooldowns@.dom().filter(
                        |k: PassiveEffect| orig.effects_cooldowns@[k] > current_time,
                    ),
                ),
                refresh_ok(*self, *game_params),
                forall|a: Aura| #[trigger]
                    self.target_auras@.contains_key(a) ==> orig_target.contains_key(a)
                        && self.target_auras@[a] == orig_target[a],
                forall|a: Aura| #[trigger]
                    orig_target.contains_key(a) && !expired(orig_target[a], current_time)
                        ==> self.target_auras@.contains_key(a),
                forall|a: Aura|
                    !is_recast_cycle_aura(a) && #[trigger] self.attacker_auras@.contains_key(a)
                        ==> orig_attacker.contains_key(a) && self.attacker_auras@[a]
                        == orig_attacker[a],
                forall|a: Aura|
                    !is_recast_cycle_aura(a) && #[trigger] orig_attacker.contains_key(a) && !expired(
                        orig_attacker[a],
                        current_time,
                    ) ==> self.attacker_auras@.contains_key(a),
                forall|a: Aura| #[trigger]
                    after_attacker.contains_key(a) ==> !expired(after_attacker[a], current_time),
                !target_chain_expired(orig_target, current_time) ==> self.attacker_auras@
                    == after_attacker,
                forall|a: Aura|
                    !is_recast_cycle_aura(a) ==> (#[trigger] self.attacker_auras@.contains_key(a)
                        == after_attacker.contains_key(a)),
                forall|a: Aura|
                    !is_recast_cycle_aura(a) && #[trigger] self.attacker_auras@.contains_key(a)
                        ==> self.attacker_auras@[a] == after_attacker[a],
                forall|at: AttackType|
                    at != AttackType::R ==> (#[trigger] self.recast_ready@.contains_key(at)
                        == orig.recast_ready@.contains_key(at)),
            ensures
                forall|a: Aura| #[trigger]
                    self.target_auras@.contains_key(a) ==> !expired(
                        self.target_auras@[a],
                        current_time,
                    ),
            decreases expired_weight(self.target_auras@, current_time),
        {
            match find_expired_aura(&self.target_auras, current_time) {
                Some(aura) => {
                    let ghost before = self.target_auras@;
                    proof {
                        lemma_remove_expired(before, current_time, aura);
                        assert(orig_target.contains_key(aura) && orig_target[aura] == before[aura]);
                    }
                    let ghost s_before = *self;
                    let ghost q_before = events@;
                    self.on_expire_target_aura(&aura, game_params, event, events);
                    proof {
                        if none_before(q_orig, current_time) {
                            lemma_on_end_queue_none_before(
                                s_before,
                                *game_params,
                                q_before,
                                aura,
                                current_time,
                            );
                        }
                    }
                },
                None => {
                    break ;
                },
            }
        }
    }
}

/// Whether the earliest time of an attack can be told: an attack with recast charges on
/// cooldown may wait for the stealth to end (plus the recast gap), which needs its data and
/// the stealth's end, or for the recast delay to end, which needs the delay's end.
pub open spec fn next_time_defined(s: State, gp: GameParams, at: AttackType) -> bool {
    s.cooldowns@.contains_key(at) && s.recast_charges@.contains(at) ==> {
        &&& ability_exists(gp.abilities@, at, gp.initial_config@)
        &&& if s.attacker_auras@.contains_key(Aura::Invisibility) {
            let end = s.attacker_auras@[Aura::Invisibility].end_ms;
            let gap = spec_find_ability(gp.abilities@, at, gp.initial_config@).recast_gap_duration;
            &&& end is Some
            &&& gap is Some
            &&& end->Some_0 + gap->Some_0 <= u64::MAX
        } else if s.attacker_auras@.contains_key(Aura::VoidAssaultDelay) {
            s.attacker_auras@[Aura::VoidAssaultDelay].end_ms is Some
        } else {
            true
        }
    }
}

/// The earliest time at which an attack can start.
pub open spec fn spec_next_earliest_time(s: State, gp: GameParams, at: AttackType) -> u64 {
    if !s.cooldowns@.contains_key(at) {
        s.time_ms
    } else if s.recast_charges@.contains(at) {
        if s.attacker_auras@.contains_key(Aura::Invisibility) {
            (s.attacker_auras@[Aura::Invisibility].end_ms->Some_0 + spec_find_ability(
                gp.abilities@,
                at,
                gp.initial_config@,
            ).recast_gap_duration->Some_0) as u64
        } else if s.attacker_auras@.contains_key(Aura::VoidAssaultDelay) {
            s.attacker_auras@[Aura::VoidAssaultDelay].end_ms->Some_0
        } else if s.recast_ready@.contains_key(at) {
            s.time_ms
        } else {
            s.cooldowns@[at]
        }
    } else {
        s.cooldowns@[at]
    }
}

/// Whether a state has been brought up to its time: every cooldown and every attacker
/// aura it holds ends later.
pub open spec fn is_refreshed(s: State) -> bool {
    &&& forall|at: AttackType| #[trigger]
        s.cooldowns@.contains_key(at) ==> s.cooldowns@[at] > s.time_ms
    &&& forall|a: Aura| #[trigger]
        s.attacker_auras@.contains_key(a) ==> !expired(s.attacker_auras@[a], s.time_ms)
}

/// The event that starts the cast of an attack.
pub open spec fn cast_start_event(at: AttackType, time_ms: u64) -> Event {
    Event {
        attack_type: Some(at),
        category: EventCategory::AttackCastStart,
        time_ms,
        passive_effect: None,
        aura: None,
    }
}

/// Whether an auto attack fits in before the next command: it can start at the earliest
/// time of an auto attack and its cast ends no later than when the command can start.
pub open spec fn spec_can_weave(s: State, gp: GameParams, next_possible_attack_ms: u64, aa_cast_time_ms: u64) -> bool {
    spec_next_earliest_time(s, gp, AttackType::AA) + aa_cast_time_ms <= next_possible_attack_ms
}

/// The earliest time at which an attack can start: now when it is off cooldown; for an
/// attack with recast charges, the end of the stealth plus the recast gap, the end of the
/// recast delay, or now when it is ready to be recast; otherwise (the recast window has
/// passed, or there is no recast) the end of its cooldown.
pub fn next_earliest_time_possible_for(
    attack_type: AttackType,
    state: &State,
    game_params: &GameParams,
) -> (r: u64)
    requires
        next_time_defined(*state, *game_params, attack_type),
    ensures
        r == spec_next_earliest_time(*state, *game_params, attack_type),
{
    let current_time_ms = state.time_ms;
    // If ability is not on cooldown, it can be used immediately
    if !state.cooldowns.contains_key(attack_type) {
        return current_time_ms;
    }
    // Special case: ability has recast charges
    if contains_attack(&state.recast_charges, attack_type) {
        let ability = find_ability(
            &game_params.abilities,
            attack_type,
            &game_params.initial_config,
        );
        // Check for invisibility aura
        match state.attacker_auras.get(Aura::Invisibility) {
            Some(invis_aura_app) => {
                let end = invis_aura_app.end_ms.unwrap();
                let gap = ability.recast_gap_duration.unwrap();
                return end + gap;
            },
            None => {},
        }
        // Check for void assault delay aura
        match state.attacker_auras.get(Aura::VoidAssaultDelay) {
            Some(delay_aura_app) => {
                return delay_aura_app.end_ms.unwrap();
            },
            None => {},
        }
        // Check for void assault recast ready aura
        if state.recast_ready.contains_key(attack_type) {
            return current_time_ms;
        }
        // the recast window has passed: the ability waits for its cooldown
    }
    // Default case: ability is on cooldown, return the cooldown time
    state.cooldowns.get(attack_type).unwrap()
}

/// No timer of the state is in the past: every cooldown ends, and every attacker aura
/// with an end ends, at or after the state's time.
pub open spec fn timers_not_past(s: State) -> bool {
    &&& forall|at: AttackType| #[trigger]
        s.cooldowns@.contains_key(at) ==> s.cooldowns@[at] >= s.time_ms
    &&& forall|a: Aura| #[trigger]
        s.attacker_auras@.contains_key(a) && s.attacker_auras@[a].end_ms is Some
            ==> s.attacker_auras@[a].end_ms->Some_0 >= s.time_ms
}

/// When no timer of the state is in the past, no attack is ever scheduled in the past.
pub proof fn lemma_next_attack_not_in_past(s: State, gp: GameParams, at: AttackType)
    requires
        timers_not_past(s),
        next_time_defined(s, gp, at),
    ensures
        spec_next_earliest_time(s, gp, at) >= s.time_ms,
{
    if s.cooldowns@.contains_key(at) && s.recast_charges@.contains(at) {
        if s.attacker_auras@.contains_key(Aura::Invisibility) {
            assert(s.attacker_auras@[Aura::Invisibility].end_ms->Some_0 >= s.time_ms);
        } else if s.attacker_auras@.contains_key(Aura::VoidAssaultDelay) {
            assert(s.attacker_auras@[Aura::VoidAssaultDelay].end_ms->Some_0 >= s.time_ms);
        }
    }
}

/// Queueing the next command (or a woven auto attack) in a state whose timers are not in
/// the past queues nothing before the state's time.
pub proof fn lemma_next_attack_queue_none_before(
    commands: Seq<AttackType>,
    s: State,
    gp: GameParams,
    aa_cast_time_ms: u64,
    q: Seq<Event>,
)
    requires
        none_before(q, s.time_ms),
        timers_not_past(s),
        next_attack_ok(commands, s, gp),
        commands.len() > 0,
    ensures
        none_before(
            schedule(
                q,
                cast_start_event(
                    if weaves(commands, s, gp, aa_cast_time_ms) {
                        AttackType::AA
                    } else {
                        commands[0]
                    },
                    spec_next_earliest_time(
                        s,
                        gp,
                        if weaves(commands, s, gp, aa_cast_time_ms) {
                            AttackType::AA
                        } else {
                            commands[0]
                        },
                    ),
                ),
            ),
            s.time_ms,
        ),
{
    let at = if weaves(commands, s, gp, aa_cast_time_ms) {
        AttackType::AA
    } else {
        commands[0]
    };
    lemma_next_attack_not_in_past(s, gp, at);
    lemma_schedule_none_before(q, cast_start_event(at, spec_next_earliest_time(s, gp, at)), s.time_ms);
}

/// Once the state has been brought up to its time (and no stealth or recast delay on the
/// target ran out, whose end could start new attacker auras), no attack is scheduled
/// before that time.
pub proof fn lemma_refresh_schedules_no_attack_in_past(
    s0: State,
    s1: State,
    gp: GameParams,
    at: AttackType,
)
    requires
        refreshed(s0, s1),
        !target_chain_expired(s0.target_auras@, s0.time_ms),
        next_time_defined(s1, gp, at),
    ensures
        spec_next_earliest_time(s1, gp, at) >= s1.time_ms,
{
    assert forall|a: AttackType| #[trigger] s1.cooldowns@.contains_key(a) implies s1.cooldowns@[a]
        > s1.time_ms by {
        assert(s0.cooldowns@.dom().filter(|k: AttackType| s0.cooldowns@[k] > s0.time_ms).contains(a));
    }
    assert(is_refreshed(s1));
    assert(timers_not_past(s1));
    lemma_next_attack_not_in_past(s1, gp, at);
}

/// Whether an auto attack can be cast before the next command could start anyway.
pub fn can_weave_auto_attack(
    state: &State,
    game_params: &GameParams,
    next_possible_attack_ms: u64,
    aa_cast_time_ms: u64,
) -> (r: bool)
    requires
        next_time_defined(*state, *game_params, AttackType::AA),
    ensures
        r == spec_can_weave(*state, *game_params, next_possible_attack_ms, aa_cast_time_ms),
{
    let next_possible_aa_ms = next_earliest_time_possible_for(
        AttackType::AA,
        state,
        game_params,
    );
    let aa_cast_end_ms: u128 = next_possible_aa_ms as u128 + aa_cast_time_ms as u128;
    aa_cast_end_ms <= next_possible_attack_ms as u128
}

/// Whether the next command's start time can be told, and that of an auto attack when one
/// may be woven in before it.
pub open spec fn next_attack_ok(commands: Seq<AttackType>, s: State, gp: GameParams) -> bool {
    commands.len() > 0 ==> {
        &&& next_time_defined(s, gp, commands[0])
        &&& (commands[0] != AttackType::AA && gp.weave_auto_attacks) ==> next_time_defined(
            s,
            gp,
            AttackType::AA,
        )
    }
}

/// Whether an auto attack is woven in before the next command.
pub open spec fn weaves(commands: Seq<AttackType>, s: State, gp: GameParams, aa_cast_time_ms: u64) -> bool {
    commands.len() > 0 && commands[0] != AttackType::AA && gp.weave_auto_attacks && spec_can_weave(
        s,
        gp,
        spec_next_earliest_time(s, gp, commands[0]),
        aa_cast_time_ms,
    )
}

/// Queues the start of the next command at its earliest time; when weaving is on and an
/// auto attack fits in before a spell command, the auto attack is queued instead and the
/// command waits.
pub fn insert_next_attack_event(
    events: &mut EventQueue,
    commands: &mut std::collections::VecDeque<AttackType>,
    state: &State,
    game_params: &GameParams,
    aa_cast_time_ms: u64,
)
    requires
        next_attack_ok(old(commands)@, *state, *game_params),
    ensures
        old(commands)@.len() == 0 ==> final(events)@ == old(events)@ && final(commands)@ == old(commands)@,
        old(commands)@.len() > 0 && weaves(old(commands)@, *state, *game_params, aa_cast_time_ms)
            ==> final(events)@ == schedule(
            old(events)@,
            cast_start_event(
                AttackType::AA,
                spec_next_earliest_time(*state, *game_params, AttackType::AA),
            ),
        ) && final(commands)@ == old(commands)@,
        old(commands)@.len() > 0 && !weaves(old(commands)@, *state, *game_params, aa_cast_time_ms)
            ==> final(events)@ == schedule(
            old(events)@,
            cast_start_event(
                old(commands)@[0],
                spec_next_earliest_time(*state, *game_params, old(commands)@[0]),
            ),
        ) && final(commands)@ == old(commands)@.drop_first(),
{
    // If there are no more commands, do nothing
    if commands.len() == 0 {
        return;
    }
    let next_command_attack_type = commands[0];
    // Calculate when the next attack should occur
    let next_possible_attack_ms = next_earliest_time_possible_for(
        next_command_attack_type,
        state,
        game_params,
    );
    if next_command_attack_type != AttackType::AA && game_params.weave_auto_attacks
        && can_weave_auto_attack(state, game_params, next_possible_attack_ms, aa_cast_time_ms) {
        let next_possible_auto_attack_ms = next_earliest_time_possible_for(
            AttackType::AA,
            state,
            game_params,
        );
        let event = Event {
            attack_type: Some(AttackType::AA),
            category: EventCategory::AttackCastStart,
            time_ms: next_possible_auto_attack_ms,
            passive_effect: None,
            aura: None,
        };
        events.push(event);
    } else {
        let event = Event {
            attack_type: Some(next_command_attack_type),
            category: EventCategory::AttackCastStart,
            time_ms: next_possible_attack_ms,
            passive_effect: None,
            aura: None,
        };
        events.push(event);
        commands.pop_front();
    }
}

/// Puts an attack on cooldown until the given time.
pub fn add_cooldown_to_state(state: &mut State, attack_type: AttackType, cooldown_end_ms: u64)
    ensures
        final(state).cooldowns@ == old(state).cooldowns@.insert(attack_type, cooldown_end_ms),
        final(state).time_ms == old(state).time_ms,
        final(state).effects_cooldowns@ == old(state).effects_cooldowns@,
        final(state).last_attack_time_ms == old(state).last_attack_time_ms,
        final(state).attacker_auras@ == old(state).attacker_auras@,
        final(state).target_auras@ == old(state).target_auras@,
        final(state).recast_charges@ == old(state).recast_charges@,
        final(state).recast_ready@ == old(state).recast_ready@,
        final(state).is_casting == old(state).is_casting,
{
    state.cooldowns.insert(attack_type, cooldown_end_ms);
}

/// Whether an attack can be cast now: it is off cooldown, or ready to be recast.
pub fn is_spell_off_cooldown(attack_type: AttackType, state: &State) -> (r: bool)
    ensures
        r == (!state.cooldowns@.contains_key(attack_type) || state.recast_ready@.contains_key(
            attack_type,
        )),
{
    !state.cooldowns.contains_key(attack_type) || state.recast_ready.contains_key(attack_type)
}

/// The record that a passive effect triggered.
pub open spec fn passive_triggered_event(time_ms: u64, e: PassiveEffect) -> Event {
    Event {
        attack_type: None,
        category: EventCategory::PassiveTriggered,
        time_ms,
        passive_effect: Some(e),
        aura: None,
    }
}

/// Whether Sudden Impact can trigger at the time of an event: it is not waiting out its
/// cooldown.
pub open spec fn sudden_impact_available(cds: Map<PassiveEffect, u64>, event_time: u64) -> bool {
    !(cds.contains_key(PassiveEffect::SuddenImpact) && event_time < cds[PassiveEffect::SuddenImpact])
}

/// The number of times Sudden Impact occurs among the passive effects.
pub open spec fn sudden_impact_count(effects: Seq<PassiveEffect>) -> nat
    decreases effects.len(),
{
    if effects.len() == 0 {
        0
    } else {
        sudden_impact_count(effects.drop_last()) + if effects.last() == PassiveEffect::SuddenImpact {
            1nat
        } else {
            0nat
        }
    }
}

/// The queue once Sudden Impact has triggered `n` times at the time of an event: each
/// time, the trigger is recorded and its readiness aura starts.
pub open spec fn sudden_impact_queue(
    q: Seq<Event>,
    n: nat,
    now: u64,
    event_time: u64,
    buff_duration: u64,
) -> Seq<Event>
    decreases n,
{
    if n == 0 {
        q
    } else {
        queue_aura(
            schedule(
                sudden_impact_queue(q, (n - 1) as nat, now, event_time, buff_duration),
                passive_triggered_event(event_time, PassiveEffect::SuddenImpact),
            ),
            Unit::Attacker,
            Aura::SuddenImpactReady,
            now,
            Some(buff_duration),
        )
    }
}

/// The attacker's auras once a dash or a stealth exit has been handled by the passive
/// effects: Sudden Impact, if taken and available, becomes ready.
pub open spec fn after_dash_auras(
    auras: Map<Aura, AuraApplication>,
    cds: Map<PassiveEffect, u64>,
    now: u64,
    gp: GameParams,
    event_time: u64,
) -> Map<Aura, AuraApplication> {
    if sudden_impact_count(gp.passive_effects@) > 0 && sudden_impact_available(cds, event_time) {
        auras.insert(
            Aura::SuddenImpactReady,
            application(
                Aura::SuddenImpactReady,
                now,
                Some(gp.runes_data.sudden_impact.buff_duration),
                None,
            ),
        )
    } else {
        auras
    }
}

/// The queue once a dash or a stealth exit has been handled by the passive effects.
pub open spec fn after_dash_queue(
    cds: Map<PassiveEffect, u64>,
    now: u64,
    gp: GameParams,
    q: Seq<Event>,
    event_time: u64,
) -> Seq<Event> {
    if sudden_impact_available(cds, event_time) {
        sudden_impact_queue(
            q,
            sudden_impact_count(gp.passive_effects@),
            now,
            event_time,
            gp.runes_data.sudden_impact.buff_duration,
        )
    } else {
        q
    }
}

/// Queueing one event adds one event to the queue.
proof fn lemma_schedule_len(q: Seq<Event>, e: Event)
    ensures
        schedule(q, e).len() == q.len() + 1,
{
    lemma_insert_pos_bound(q, e.time_ms);
}

/// Each trigger of Sudden Impact queues three events: the trigger, and the start and end of
/// its readiness aura.
proof fn lemma_sudden_impact_queue_len(q: Seq<Event>, n: nat, now: u64, event_time: u64, buff_duration: u64)
    ensures
        sudden_impact_queue(q, n, now, event_time, buff_duration).len() == q.len() + 3 * n,
    decreases n,
{
    if n > 0 {
        let prev = sudden_impact_queue(q, (n - 1) as nat, now, event_time, buff_duration);
        lemma_sudden_impact_queue_len(q, (n - 1) as nat, now, event_time, buff_duration);
        let q1 = schedule(prev, passive_triggered_event(event_time, PassiveEffect::SuddenImpact));
        lemma_schedule_len(prev, passive_triggered_event(event_time, PassiveEffect::SuddenImpact));
        let q2 = schedule(q1, aura_event(start_category(Unit::Attacker), now, Aura::SuddenImpactReady));
        lemma_schedule_len(q1, aura_event(start_category(Unit::Attacker), now, Aura::SuddenImpactReady));
        lemma_schedule_len(
            q2,
            aura_event(end_category(Unit::Attacker), (now + buff_duration) as u64, Aura::SuddenImpactReady),
        );
    }
}

/// While Sudden Impact waits out its cooldown (the cooldown ends after the event), a dash or
/// a stealth exit leaves the attacker's auras and the queue as they were. Once the cooldown
/// is over, or was never started, and the rune is taken, Sudden Impact becomes ready from now
/// until the end of its buff, and three events are queued for each time the rune is taken:
/// its trigger and the start and end of its readiness.
pub proof fn lemma_sudden_impact_waits_out_cooldown(
    auras: Map<Aura, AuraApplication>,
    cds: Map<PassiveEffect, u64>,
    now: u64,
    gp: GameParams,
    q: Seq<Event>,
    event_time: u64,
)
    requires
        now + gp.runes_data.sudden_impact.buff_duration <= u64::MAX,
    ensures
        cds.contains_key(PassiveEffect::SuddenImpact) && event_time < cds[PassiveEffect::SuddenImpact]
            ==> after_dash_auras(auras, cds, now, gp, event_time) == auras && after_dash_queue(
            cds,
            now,
            gp,
            q,
            event_time,
        ) == q,
        (!cds.contains_key(PassiveEffect::SuddenImpact) || cds[PassiveEffect::SuddenImpact]
            <= event_time) && sudden_impact_count(gp.passive_effects@) > 0 ==> {
            &&& after_dash_auras(auras, cds, now, gp, event_time) == auras.insert(
                Aura::SuddenImpactReady,
                AuraApplication {
                    aura: Aura::SuddenImpactReady,
                    start_ms: now,
                    end_ms: Some((now + gp.runes_data.sudden_impact.buff_duration) as u64),
                    stacks: None,
                },
            )
            &&& after_dash_queue(cds, now, gp, q, event_time).len() == q.len() + 3
                * sudden_impact_count(gp.passive_effects@)
        },
{
    lemma_sudden_impact_queue_len(
        q,
        sudden_impact_count(gp.passive_effects@),
        now,
        event_time,
        gp.runes_data.sudden_impact.buff_duration,
    );
}

/// Sudden Impact triggering at and after `t` queues nothing before `t`.
pub proof fn lemma_sudden_impact_queue_none_before(
    q: Seq<Event>,
    n: nat,
    now: u64,
    event_time: u64,
    buff_duration: u64,
    t: u64,
)
    requires
        none_before(q, t),
        now >= t,
        event_time >= t,
        now + buff_duration <= u64::MAX,
    ensures
        none_before(sudden_impact_queue(q, n, now, event_time, buff_duration), t),
    decreases n,
{
    if n > 0 {
        let prev = sudden_impact_queue(q, (n - 1) as nat, now, event_time, buff_duration);
        lemma_sudden_impact_queue_none_before(q, (n - 1) as nat, now, event_time, buff_duration, t);
        lemma_schedule_none_before(
            prev,
            passive_triggered_event(event_time, PassiveEffect::SuddenImpact),
            t,
        );
        lemma_queue_aura_none_before(
            schedule(prev, passive_triggered_event(event_time, PassiveEffect::SuddenImpact)),
            Unit::Attacker,
            Aura::SuddenImpactReady,
            now,
            Some(buff_duration),
            t,
        );
    }
}

/// Handling a dash at and after `t` queues nothing before `t`.
pub proof fn lemma_after_dash_queue_none_before(
    cds: Map<PassiveEffect, u64>,
    now: u64,
    gp: GameParams,
    q: Seq<Event>,
    event_time: u64,
    t: u64,
)
    requires
        none_before(q, t),
        now >= t,
        event_time >= t,
        now + gp.runes_data.sudden_impact.buff_duration <= u64::MAX,
    ensures
        none_before(after_dash_queue(cds, now, gp, q, event_time), t),
{
    if sudden_impact_available(cds, event_time) {
        lemma_sudden_impact_queue_none_before(
            q,
            sudden_impact_count(gp.passive_effects@),
            now,
            event_time,
            gp.runes_data.sudden_impact.buff_duration,
            t,
        );
    }
}

impl SuddenImpact {
    /// After a dash: unless Sudden Impact waits out its cooldown, its trigger is recorded and
    /// its readiness aura starts for the buff duration.
    pub fn handle_dash_event(
        &self,
        event: &Event,
        events: &mut EventQueue,
        state: &mut State,
        game_params: &GameParams,
    )
        requires
            fits(old(state).time_ms, Some(self.buff_duration)),
        ensures
            same_timers(*final(state), *old(state)),
            final(state).target_auras@ == old(state).target_auras@,
            final(state).recast_ready@ == old(state).recast_ready@,
            sudden_impact_available(old(state).effects_cooldowns@, event.time_ms) ==> final(state).attacker_auras@
                == old(state).attacker_auras@.insert(
                Aura::SuddenImpactReady,
                application(Aura::SuddenImpactReady, old(state).time_ms, Some(self.buff_duration), None),
            ) && final(events)@ == queue_aura(
                schedule(
                    old(events)@,
                    passive_triggered_event(event.time_ms, PassiveEffect::SuddenImpact),
                ),
                Unit::Attacker,
                Aura::SuddenImpactReady,
                old(state).time_ms,
                Some(self.buff_duration),
            ),
            !sudden_impact_available(old(state).effects_cooldowns@, event.time_ms) ==> final(state).attacker_auras@
                == old(state).attacker_auras@ && final(events)@ == old(events)@,
    {
        // check if it is in cooldown
        match state.effects_cooldowns.get(PassiveEffect::SuddenImpact) {
            Some(cooldown_end) => {
                if event.time_ms < cooldown_end {
                    return;
                }
            },
            None => {},
        }
        insert_passive_triggered_event(events, event.time_ms, PassiveEffect::SuddenImpact);
        // apply buff
        state.add_attacker_aura(Aura::SuddenImpactReady, Some(self.buff_duration), None, events);
    }

    /// The end of a stealth is handled as a dash.
    pub fn handle_stealth_exit_event(
        &self,
        event: &Event,
        events: &mut EventQueue,
        state: &mut State,
        game_params: &GameParams,
    )
        requires
            fits(old(state).time_ms, Some(self.buff_duration)),
        ensures
            same_timers(*final(state), *old(state)),
            final(state).target_auras@ == old(state).target_auras@,
            final(state).recast_ready@ == old(state).recast_ready@,
            sudden_impact_available(old(state).effects_cooldowns@, event.time_ms) ==> final(state).attacker_auras@
                == old(state).attacker_auras@.insert(
                Aura::SuddenImpactReady,
                application(Aura::SuddenImpactReady, old(state).time_ms, Some(self.buff_duration), None),
            ) && final(events)@ == queue_aura(
                schedule(
                    old(events)@,
                    passive_triggered_event(event.time_ms, PassiveEffect::SuddenImpact),
                ),
                Unit::Attacker,
                Aura::SuddenImpactReady,
                old(state).time_ms,
                Some(self.buff_duration),
            ),
            !sudden_impact_available(old(state).effects_cooldowns@, event.time_ms) ==> final(state).attacker_auras@
                == old(state).attacker_auras@ && final(events)@ == old(events)@,
    {
        self.handle_dash_event(event, events, state, game_params);
    }
}

/// Runs the dash handler of every passive effect (only Sudden Impact has one).
pub fn on_dash_effects(event: &Event, events: &mut EventQueue, game_params: &GameParams, state: &mut State)
    requires
        fits(old(state).time_ms, Some(game_params.runes_data.sudden_impact.buff_duration)),
    ensures
        same_timers(*final(state), *old(state)),
        final(state).target_auras@ == old(state).target_auras@,
        final(state).recast_ready@ == old(state).recast_ready@,
        final(state).attacker_auras@ == after_dash_auras(
            old(state).attacker_auras@,
            old(state).effects_cooldowns@,
            old(state).time_ms,
            *game_params,
            event.time_ms,
        ),
        final(events)@ == after_dash_queue(
            old(state).effects_cooldowns@,
            old(state).time_ms,
            *game_params,
            old(events)@,
            event.time_ms,
        ),
{
    let ghost s0 = *old(state);
    let ghost q0 = old(events)@;
    let ghost effects = game_params.passive_effects@;
    let mut i: usize = 0;
    while i < game_params.passive_effects.len()
        invariant
            i <= effects.len(),
            effects == game_params.passive_effects@,
            same_timers(*state, s0),
            state.target_auras@ == s0.target_auras@,
            state.recast_ready@ == s0.recast_ready@,
            fits(state.time_ms, Some(game_params.runes_data.sudden_impact.buff_duration)),
            sudden_impact_available(s0.effects_cooldowns@, event.time_ms) && sudden_impact_count(effects.take(i as int)) > 0
                ==> state.attacker_auras@ == s0.attacker_auras@.insert(
                Aura::SuddenImpactReady,
                application(
                    Aura::SuddenImpactReady,
                    s0.time_ms,
                    Some(game_params.runes_data.sudden_impact.buff_duration),
                    None,
                ),
            ),
            !(sudden_impact_available(s0.effects_cooldowns@, event.time_ms) && sudden_impact_count(effects.take(i as int)) > 0)
                ==> state.attacker_auras@ == s0.attacker_auras@,
            sudden_impact_available(s0.effects_cooldowns@, event.time_ms) ==> events@ == sudden_impact_queue(
                q0,
                sudden_impact_count(effects.take(i as int)),
                s0.time_ms,
                event.time_ms,
                game_params.runes_data.sudden_impact.buff_duration,
            ),
            !sudden_impact_available(s0.effects_cooldowns@, event.time_ms) ==> events@ == q0,
        decreases effects.len() - i,
    {
        let effect = game_params.passive_effects[i];
        proof {
            assert(effects.take(i + 1).drop_last() =~= effects.take(i as int));
        }
        effect.handle_dash_event(event, events, game_params, state);
        i = i + 1;
    }
    proof {
        assert(effects.take(effects.len() as int) =~= effects);
        if sudden_impact_available(s0.effects_cooldowns@, event.time_ms) && sudden_impact_count(effects) > 0 {
            assert(state.attacker_auras@ =~= after_dash_auras(
                s0.attacker_auras@,
                s0.effects_cooldowns@,
                s0.time_ms,
                *game_params,
                event.time_ms,
            ));
        }
    }
}

impl PassiveEffect {
    /// What a passive effect does after a dash: Sudden Impact may become ready.
    pub fn handle_dash_event(
        &self,
        event: &Event,
        events: &mut EventQueue,
        game_params: &GameParams,
        state: &mut State,
    )
        requires
            fits(old(state).time_ms, Some(game_params.runes_data.sudden_impact.buff_duration)),
        ensures
            same_timers(*final(state), *old(state)),
            final(state).target_auras@ == old(state).target_auras@,
            final(state).recast_ready@ == old(state).recast_ready@,
            *self == PassiveEffect::SuddenImpact && sudden_impact_available(old(state).effects_cooldowns@, event.time_ms)
                ==> final(state).attacker_auras@ == old(state).attacker_auras@.insert(
                Aura::SuddenImpactReady,
                application(
                    Aura::SuddenImpactReady,
                    old(state).time_ms,
                    Some(game_params.runes_data.sudden_impact.buff_duration),
                    None,
                ),
            ) && final(events)@ == queue_aura(
                schedule(
                    old(events)@,
                    passive_triggered_event(event.time_ms, PassiveEffect::SuddenImpact),
                ),
                Unit::Attacker,
                Aura::SuddenImpactReady,
                old(state).time_ms,
                Some(game_params.runes_data.sudden_impact.buff_duration),
            ),
            !(*self == PassiveEffect::SuddenImpact && sudden_impact_available(old(state).effects_cooldowns@, event.time_ms))
                ==> final(state).attacker_auras@ == old(state).attacker_auras@ && final(events)@
                == old(events)@,
    {
        match self {
            PassiveEffect::SuddenImpact => {
                game_params.runes_data.sudden_impact.handle_dash_event(
                    event,
                    events,
                    state,
                    game_params,
                )
            },
            _ => {},
        }
    }
}

/// Runs the stealth-exit handler of every passive effect (only Sudden Impact has one).
pub fn on_stealth_exit_effects(event: &Event, events: &mut EventQueue, game_params: &GameParams, state: &mut State)
    requires
        fits(old(state).time_ms, Some(game_params.runes_data.sudden_impact.buff_duration)),
    ensures
        same_timers(*final(state), *old(state)),
        final(state).target_auras@ == old(state).target_auras@,
        final(state).recast_ready@ == old(state).recast_ready@,
        final(state).attacker_auras@ == after_dash_auras(
            old(state).attacker_auras@,
            old(state).effects_cooldowns@,
            old(state).time_ms,
            *game_params,
            event.time_ms,
        ),
        final(events)@ == after_dash_queue(
            old(state).effects_cooldowns@,
            old(state).time_ms,
            *game_params,
            old(events)@,
            event.time_ms,
        ),
{
    let ghost s0 = *old(state);
    let ghost q0 = old(events)@;
    let ghost effects = game_params.passive_effects@;
    let mut i: usize = 0;
    while i < game_params.passive_effects.len()
        invariant
            i <= effects.len(),
            effects == game_params.passive_effects@,
            same_timers(*state, s0),
            state.target_auras@ == s0.target_auras@,
            state.recast_ready@ == s0.recast_ready@,
            fits(state.time_ms, Some(game_params.runes_data.sudden_impact.buff_duration)),
            sudden_impact_available(s0.effects_cooldowns@, event.time_ms) && sudden_impact_count(effects.take(i as int)) > 0
                ==> state.attacker_auras@ == s0.attacker_auras@.insert(
                Aura::SuddenImpactReady,
                application(
                    Aura::SuddenImpactReady,
                    s0.time_ms,
                    Some(game_params.runes_data.sudden_impact.buff_duration),
                    None,
                ),
            ),
            !(sudden_impact_available(s0.effects_cooldowns@, event.time_ms) && sudden_impact_count(effects.take(i as int)) > 0)
                ==> state.attacker_auras@ == s0.attacker_auras@,
            sudden_impact_available(s0.effects_cooldowns@, event.time_ms) ==> events@ == sudden_impact_queue(
                q0,
                sudden_impact_count(effects.take(i as int)),
                s0.time_ms,
                event.time_ms,
                game_params.runes_data.sudden_impact.buff_duration,
            ),
            !sudden_impact_available(s0.effects_cooldowns@, event.time_ms) ==> events@ == q0,
        decreases effects.len() - i,
    {
        let effect = game_params.passive_effects[i];
        proof {
            assert(effects.take(i + 1).drop_last() =~= effects.take(i as int));
        }
        effect.handle_stealth_exit_event(event, events, game_params, state);
        i = i + 1;
    }
    proof {
        assert(effects.take(effects.len() as int) =~= effects);
        if sudden_impact_available(s0.effects_cooldowns@, event.time_ms) && sudden_impact_count(effects) > 0 {
            assert(state.attacker_auras@ =~= after_dash_auras(
                s0.attacker_auras@,
                s0.effects_cooldowns@,
                s0.time_ms,
                *game_params,
                event.time_ms,
            ));
        }
    }
}

impl PassiveEffect {
    /// What a passive effect does when the attacker's stealth ends: Sudden Impact may become
    /// ready.
    pub fn handle_stealth_exit_event(
        &self,
        event: &Event,
        events: &mut EventQueue,
        game_params: &GameParams,
        state: &mut State,
    )
        requires
            fits(old(state).time_ms, Some(game_params.runes_data.sudden_impact.buff_duration)),
        ensures
            same_timers(*final(state), *old(state)),
            final(state).target_auras@ == old(state).target_auras@,
            final(state).recast_ready@ == old(state).recast_ready@,
            *self == PassiveEffect::SuddenImpact && sudden_impact_available(old(state).effects_cooldowns@, event.time_ms)
                ==> final(state).attacker_auras@ == old(state).attacker_auras@.insert(
                Aura::SuddenImpactReady,
                application(
                    Aura::SuddenImpactReady,
                    old(state).time_ms,
                    Some(game_params.runes_data.sudden_impact.buff_duration),
                    None,
                ),
            ) && final(events)@ == queue_aura(
                schedule(
                    old(events)@,
                    passive_triggered_event(event.time_ms, PassiveEffect::SuddenImpact),
                ),
                Unit::Attacker,
                Aura::SuddenImpactReady,
                old(state).time_ms,
                Some(game_params.runes_data.sudden_impact.buff_duration),
            ),
            !(*self == PassiveEffect::SuddenImpact && sudden_impact_available(old(state).effects_cooldowns@, event.time_ms))
                ==> final(state).attacker_auras@ == old(state).attacker_auras@ && final(events)@
                == old(events)@,
    {
        match self {
            PassiveEffect::SuddenImpact => {
                game_params.runes_data.sudden_impact.handle_stealth_exit_event(
                    event,
                    events,
                    state,
                    game_params,
                )
            },
            _ => {},
        }
    }
}

/// Whether the event ends the attacker's stealth: Kha'Zix's stealth breaks at the end of an
/// auto attack's windup or at the start of a spell cast; other champions' at the start of
/// any cast.
pub open spec fn stealth_exit_applies(s: State, gp: GameParams, event: Event) -> bool {
    &&& s.attacker_auras@.contains_key(Aura::Invisibility)
    &&& if gp.champion == Champion::Khazix {
        ||| (event.attack_type == Some(AttackType::AA) && event.category
            == EventCategory::AttackCastEnd)
        ||| (event.attack_type is Some && event.attack_type != Some(AttackType::AA)
            && event.category == EventCategory::AttackCastStart)
    } else {
        event.category == EventCategory::AttackCastStart
    }
}

/// What ending the stealth requires.
pub open spec fn stealth_exit_ok(s: State, gp: GameParams) -> bool {
    &&& on_end_ok(s, gp, Aura::Invisibility)
    &&& fits(s.time_ms, Some(gp.runes_data.sudden_impact.buff_duration))
}

/// The attacker's auras once the stealth has ended and the passive effects have handled it.
pub open spec fn stealth_exit_auras(s: State, gp: GameParams, event_time: u64) -> Map<Aura, AuraApplication> {
    after_dash_auras(
        on_end_attacker_auras(s, gp, Aura::Invisibility).remove(Aura::Invisibility),
        s.effects_cooldowns@,
        s.time_ms,
        gp,
        event_time,
    )
}

/// The queue once the stealth has ended and the passive effects have handled it.
pub open spec fn stealth_exit_queue(s: State, gp: GameParams, q: Seq<Event>, event_time: u64) -> Seq<Event> {
    after_dash_queue(
        s.effects_cooldowns@,
        s.time_ms,
        gp,
        on_end_queue(
            s,
            gp,
            schedule(
                q.filter(keeps_unless_aura_event(EventCategory::AuraAttackerEnd, Aura::Invisibility)),
                aura_event(EventCategory::AuraAttackerEnd, s.time_ms, Aura::Invisibility),
            ),
            Aura::Invisibility,
        ),
        event_time,
    )
}

/// Ending the stealth at and after `t` queues nothing before `t`.
pub proof fn lemma_stealth_exit_queue_none_before(
    s: State,
    gp: GameParams,
    q: Seq<Event>,
    event_time: u64,
    t: u64,
)
    requires
        none_before(q, t),
        s.time_ms >= t,
        event_time >= t,
        stealth_exit_ok(s, gp),
    ensures
        none_before(stealth_exit_queue(s, gp, q, event_time), t),
{
    let f = keeps_unless_aura_event(EventCategory::AuraAttackerEnd, Aura::Invisibility);
    lemma_filter_none_before(q, f, t);
    let e = aura_event(EventCategory::AuraAttackerEnd, s.time_ms, Aura::Invisibility);
    lemma_schedule_none_before(q.filter(f), e, t);
    lemma_on_end_queue_none_before(s, gp, schedule(q.filter(f), e), Aura::Invisibility, t);
    lemma_after_dash_queue_none_before(
        s.effects_cooldowns@,
        s.time_ms,
        gp,
        on_end_queue(s, gp, schedule(q.filter(f), e), Aura::Invisibility),
        event_time,
        t,
    );
}

/// Ends the attacker's stealth now, and lets the passive effects handle it (Sudden Impact
/// may become ready).
pub fn trigger_stealth_exit(
    event: &Event,
    events: &mut EventQueue,
    game_params: &GameParams,
    state: &mut State,
)
    requires
        stealth_exit_ok(*old(state), *game_params),
    ensures
        same_timers(*final(state), *old(state)),
        final(state).target_auras@ == old(state).target_auras@,
        final(state).recast_ready@ == old(state).recast_ready@,
        final(state).attacker_auras@ == stealth_exit_auras(*old(state), *game_params, event.time_ms),
        final(events)@ == stealth_exit_queue(*old(state), *game_params, old(events)@, event.time_ms),
{
    state.end_early_attacker_aura(&Aura::Invisibility, game_params, event, events);
    on_stealth_exit_effects(event, events, game_params, state);
}

/// Ends the attacker's stealth if the event breaks it.
pub fn trigger_stealth_exit_if_applicable(
    event: &Event,
    events: &mut EventQueue,
    game_params: &GameParams,
    state: &mut State,
)
    requires
        stealth_exit_applies(*old(state), *game_params, *event) ==> stealth_exit_ok(
            *old(state),
            *game_params,
        ),
    ensures
        same_timers(*final(state), *old(state)),
        final(state).target_auras@ == old(state).target_auras@,
        final(state).recast_ready@ == old(state).recast_ready@,
        stealth_exit_applies(*old(state), *game_params, *event) ==> final(state).attacker_auras@
            == stealth_exit_auras(*old(state), *game_params, event.time_ms) && final(events)@
            == stealth_exit_queue(*old(state), *game_params, old(events)@, event.time_ms),
        !stealth_exit_applies(*old(state), *game_params, *event) ==> final(state).attacker_auras@
            == old(state).attacker_auras@ && final(events)@ == old(events)@,
{
    if !state.attacker_auras.contains_key(Aura::Invisibility) {
        return;
    }
    // Kha'Zix is an exception in the sense that its stealth is broken only at the end
    // of the AA windup. Regarding abilities, it's the same as other champs
    if game_params.champion == Champion::Khazix {
        let is_aa = match event.attack_type {
            Some(attack_type) => attack_type == AttackType::AA,
            None => false,
        };
        let is_spell = match event.attack_type {
            Some(attack_type) => attack_type != AttackType::AA,
            None => false,
        };
        if is_aa && event.category == EventCategory::AttackCastEnd {
            trigger_stealth_exit(event, events, game_params, state);
        } else if is_spell && event.category == EventCategory::AttackCastStart {
            trigger_stealth_exit(event, events, game_params, state);
        }
    } else {
        if event.category == EventCategory::AttackCastStart {
            trigger_stealth_exit(event, events, game_params, state);
        }
    }
}

/// Whether the cast of the event's attack is a dash.
pub open spec fn is_dash_cast(gp: GameParams, at: AttackType) -> bool {
    at != AttackType::AA && spec_find_ability(gp.abilities@, at, gp.initial_config@).category
        == Some(SpellCategory::Dash)
}

/// Lets the passive effects handle a dash when the event's spell is one.
pub fn handle_dash_if_applicable(
    event: &Event,
    events: &mut EventQueue,
    game_params: &GameParams,
    state: &mut State,
)
    requires
        event.attack_type is Some,
        event.attack_type->Some_0 != AttackType::AA ==> ability_exists(
            game_params.abilities@,
            event.attack_type->Some_0,
            game_params.initial_config@,
        ),
        fits(old(state).time_ms, Some(game_params.runes_data.sudden_impact.buff_duration)),
    ensures
        same_timers(*final(state), *old(state)),
        final(state).target_auras@ == old(state).target_auras@,
        final(state).recast_ready@ == old(state).recast_ready@,
        is_dash_cast(*game_params, event.attack_type->Some_0) ==> final(state).attacker_auras@
            == after_dash_auras(
            old(state).attacker_auras@,
            old(state).effects_cooldowns@,
            old(state).time_ms,
            *game_params,
            event.time_ms,
        ) && final(events)@ == after_dash_queue(
            old(state).effects_cooldowns@,
            old(state).time_ms,
            *game_params,
            old(events)@,
            event.time_ms,
        ),
        !is_dash_cast(*game_params, event.attack_type->Some_0) ==> final(state).attacker_auras@
            == old(state).attacker_auras@ && final(events)@ == old(events)@,
{
    let attack_type = event.attack_type.unwrap();
    if attack_type == AttackType::AA {
        return;
    }
    let ability = find_ability(&game_params.abilities, attack_type, &game_params.initial_config);
    let is_dash = match ability.category {
        Some(cat) => cat == SpellCategory::Dash,
        None => false,
    };
    if is_dash {
        on_dash_effects(event, events, game_params, state);
    }
}

/// Whether one of the items is the given item.
pub open spec fn items_include(items: Seq<ItemData>, i: Item) -> bool {
    exists|k: int| 0 <= k < items.len() && items[k].item == i
}

/// Whether the list of items holds the given item.
pub fn has_item(items: &Vec<ItemData>, item: Item) -> (r: bool)
    ensures
        r == items_include(items@, item),
{
    let mut k: usize = 0;
    while k < items.len()
        invariant
            k <= items@.len(),
            forall|j: int| 0 <= j < k ==> items@[j].item != item,
        decreases items@.len() - k,
    {
        if items[k].item == item {
            return true;
        }
        k = k + 1;
    }
    false
}

/// Whether Opportunity's Preparation is up when the simulation starts: Opportunity is
/// bought and the setting does not say otherwise.
pub open spec fn preparation_applies(gp: GameParams) -> bool {
    flag_or(gp.initial_config@, "ITEM_OPPORTUNITY_PREPARATION_READY"@, true) && items_include(
        gp.items@,
        Item::Opportunity,
    )
}

/// Whether Hubris's Eminence is up when the simulation starts: Hubris is bought and the
/// setting does not say otherwise.
pub open spec fn eminence_applies(gp: GameParams) -> bool {
    flag_or(gp.initial_config@, "ITEM_HUBRIS_EMINENCE_ACTIVE"@, true) && items_include(
        gp.items@,
        Item::Hubris,
    )
}

/// The text of the number of Eminence stacks (17 when it is not set).
pub open spec fn eminence_stacks_text(gp: GameParams) -> Seq<char> {
    if gp.initial_config@.contains_key("ITEM_HUBRIS_EMINENCE_STACKS"@) {
        gp.initial_config@["ITEM_HUBRIS_EMINENCE_STACKS"@]
    } else {
        "17"@
    }
}

/// The auras held once the given applications have been started now, in order; each
/// application's end time is taken as its duration.
pub open spec fn apply_auras_map(
    m: Map<Aura, AuraApplication>,
    apps: Seq<AuraApplication>,
    now: u64,
) -> Map<Aura, AuraApplication>
    decreases apps.len(),
{
    if apps.len() == 0 {
        m
    } else {
        let a = apps.last();
        apply_auras_map(m, apps.drop_last(), now).insert(
            a.aura,
            application(a.aura, now, a.end_ms, a.stacks),
        )
    }
}

/// The spells ready to be recast once the given applications have been started.
pub open spec fn apply_auras_ready(r: Map<AttackType, ()>, apps: Seq<AuraApplication>) -> Map<
    AttackType,
    (),
>
    decreases apps.len(),
{
    if apps.len() == 0 {
        r
    } else {
        started_ready(apply_auras_ready(r, apps.drop_last()), apps.last().aura)
    }
}

/// The queue once the given applications have been started now on a unit.
pub open spec fn apply_auras_queue(q: Seq<Event>, apps: Seq<AuraApplication>, unit: Unit, now: u64) -> Seq<
    Event,
>
    decreases apps.len(),
{
    if apps.len() == 0 {
        q
    } else {
        let a = apps.last();
        queue_aura(apply_auras_queue(q, apps.drop_last(), unit, now), unit, a.aura, now, a.end_ms)
    }
}

/// Whether every application can be started now within the clock's range.
pub open spec fn all_fit(apps: Seq<AuraApplication>, now: u64) -> bool {
    forall|i: int| 0 <= i < apps.len() ==> fits(now, #[trigger] apps[i].end_ms)
}

/// The attacker's auras after the item auras that hold from the start.
pub open spec fn item_start_auras(m: Map<Aura, AuraApplication>, gp: GameParams, now: u64) -> Map<Aura, AuraApplication> {
    let m1 = if preparation_applies(gp) {
        m.insert(Aura::Preparation, application(Aura::Preparation, now, Some(3_000), None))
    } else {
        m
    };
    if eminence_applies(gp) {
        m1.insert(
            Aura::HubrisEminence,
            application(
                Aura::HubrisEminence,
                now,
                Some(90_000),
                spec_parse_u64(eminence_stacks_text(gp)),
            ),
        )
    } else {
        m1
    }
}

/// The queue after the item auras that hold from the start.
pub open spec fn item_start_queue(q: Seq<Event>, gp: GameParams, now: u64) -> Seq<Event> {
    let q1 = if preparation_applies(gp) {
        queue_aura(q, Unit::Attacker, Aura::Preparation, now, Some(3_000))
    } else {
        q
    };
    if eminence_applies(gp) {
        queue_aura(q1, Unit::Attacker, Aura::HubrisEminence, now, Some(90_000))
    } else {
        q1
    }
}

/// Starts one aura application on a unit, for its end time taken as a duration.
fn start_application(
    state: &mut State,
    app: &AuraApplication,
    unit: Unit,
    events: &mut EventQueue,
)
    requires
        fits(old(state).time_ms, app.end_ms),
    ensures
        same_timers(*final(state), *old(state)),
        unit == Unit::Attacker ==> final(state).attacker_auras@ == old(state).attacker_auras@.insert(
            app.aura,
            application(app.aura, old(state).time_ms, app.end_ms, app.stacks),
        ) && final(state).target_auras@ == old(state).target_auras@,
        unit == Unit::Target ==> final(state).target_auras@ == old(state).target_auras@.insert(
            app.aura,
            application(app.aura, old(state).time_ms, app.end_ms, app.stacks),
        ) && final(state).attacker_auras@ == old(state).attacker_auras@,
        final(state).recast_ready@ == started_ready(old(state).recast_ready@, app.aura),
        final(events)@ == queue_aura(old(events)@, unit, app.aura, old(state).time_ms, app.end_ms),
{
    match unit {
        Unit::Attacker => state.add_attacker_aura(app.aura, app.end_ms, app.stacks, events),
        Unit::Target => state.add_target_aura(app.aura, app.end_ms, app.stacks, events),
    }
}

/// Starts the given aura applications on a unit, in order.
fn start_applications(
    state: &mut State,
    apps: &Vec<AuraApplication>,
    unit: Unit,
    events: &mut EventQueue,
)
    requires
        all_fit(apps@, old(state).time_ms),
    ensures
        same_timers(*final(state), *old(state)),
        unit == Unit::Attacker ==> final(state).attacker_auras@ == apply_auras_map(
            old(state).attacker_auras@,
            apps@,
            old(state).time_ms,
        ) && final(state).target_auras@ == old(state).target_auras@,
        unit == Unit::Target ==> final(state).target_auras@ == apply_auras_map(
            old(state).target_auras@,
            apps@,
            old(state).time_ms,
        ) && final(state).attacker_auras@ == old(state).attacker_auras@,
        final(state).recast_ready@ == apply_auras_ready(old(state).recast_ready@, apps@),
        final(events)@ == apply_auras_queue(old(events)@, apps@, unit, old(state).time_ms),
{
    let ghost s0 = *old(state);
    let ghost q0 = old(events)@;
    let mut i: usize = 0;
    while i < apps.len()
        invariant
            i <= apps@.len(),
            all_fit(apps@, s0.time_ms),
            same_timers(*state, s0),
            unit == Unit::Attacker ==> state.attacker_auras@ == apply_auras_map(
                s0.attacker_auras@,
                apps@.take(i as int),
                s0.time_ms,
            ) && state.target_auras@ == s0.target_auras@,
            unit == Unit::Target ==> state.target_auras@ == apply_auras_map(
                s0.target_auras@,
                apps@.take(i as int),
                s0.time_ms,
            ) && state.attacker_auras@ == s0.attacker_auras@,
            state.recast_ready@ == apply_auras_ready(s0.recast_ready@, apps@.take(i as int)),
            events@ == apply_auras_queue(q0, apps@.take(i as int), unit, s0.time_ms),
        decreases apps@.len() - i,
    {
        proof {
            assert(apps@.take(i + 1).drop_last() =~= apps@.take(i as int));
            assert(apps@.take(i + 1).last() == apps@[i as int]);
            assert(fits(s0.time_ms, apps@[i as int].end_ms));
        }
        start_application(state, &apps[i], unit, events);
        i = i + 1;
    }
    proof {
        assert(apps@.take(apps@.len() as int) =~= apps@);
    }
}

/// What starting the initial auras requires: the Eminence stacks setting writes a number
/// when Eminence applies, and every duration ends within the clock's range.
pub open spec fn initial_auras_ok(now: u64, gp: GameParams) -> bool {
    &&& eminence_applies(gp) ==> spec_parse_u64(eminence_stacks_text(gp)) is Some
    &&& fits(now, Some(90_000))
    &&& all_fit(gp.initial_attacker_auras@, now)
    &&& all_fit(gp.initial_target_auras@, now)
}

/// Starts the auras that hold when the simulation starts: Opportunity's Preparation and
/// Hubris's Eminence when they apply, then the configured attacker and target auras.
pub fn add_initial_auras(game_params: &GameParams, state: &mut State, events: &mut EventQueue)
    requires
        initial_auras_ok(old(state).time_ms, *game_params),
    ensures
        same_timers(*final(state), *old(state)),
        final(state).attacker_auras@ == apply_auras_map(
            item_start_auras(old(state).attacker_auras@, *game_params, old(state).time_ms),
            game_params.initial_attacker_auras@,
            old(state).time_ms,
        ),
        final(state).target_auras@ == apply_auras_map(
            old(state).target_auras@,
            game_params.initial_target_auras@,
            old(state).time_ms,
        ),
        final(state).recast_ready@ == apply_auras_ready(
            apply_auras_ready(old(state).recast_ready@, game_params.initial_attacker_auras@),
            game_params.initial_target_auras@,
        ),
        final(events)@ == apply_auras_queue(
            apply_auras_queue(
                item_start_queue(old(events)@, *game_params, old(state).time_ms),
                game_params.initial_attacker_auras@,
                Unit::Attacker,
                old(state).time_ms,
            ),
            game_params.initial_target_auras@,
            Unit::Target,
            old(state).time_ms,
        ),
{
    if game_params.initial_config.flag_or("ITEM_OPPORTUNITY_PREPARATION_READY", true) && has_item(
        &game_params.items,
        Item::Opportunity,
    ) {
        state.add_attacker_aura(Aura::Preparation, Some(3_000), None, events);
    }
    if game_params.initial_config.flag_or("ITEM_HUBRIS_EMINENCE_ACTIVE", true) && has_item(
        &game_params.items,
        Item::Hubris,
    ) {
        let stacks = match game_params.initial_config.get("ITEM_HUBRIS_EMINENCE_STACKS") {
            Some(text) => parse_u64(text.as_str()),
            None => parse_u64("17"),
        };
        state.add_attacker_aura(Aura::HubrisEminence, Some(90_000), stacks, events);
    }
    start_applications(state, &game_params.initial_attacker_auras, Unit::Attacker, events);
    start_applications(state, &game_params.initial_target_auras, Unit::Target, events);
}

/// The cast time of a spell (no cast time counts as zero).
pub fn spell_cast_time(game_params: &GameParams, spell: AttackType) -> (r: u64)
    requires
        ability_exists(game_params.abilities@, spell, game_params.initial_config@),
    ensures
        r == match spec_find_ability(game_params.abilities@, spell, game_params.initial_config@).cast_time_ms {
            Some(t) => t,
            None => 0,
        },
{
    let ability = find_ability(&game_params.abilities, spell, &game_params.initial_config);
    match ability.cast_time_ms {
        Some(t) => t,
        None => 0,
    }
}

impl SuddenImpact {
    /// Uses up the readiness aura once Sudden Impact has dealt its damage: the aura ends now
    /// and the rune goes on cooldown.
    pub fn consume_buff(
        &self,
        state: &mut State,
        game_params: &GameParams,
        event: &Event,
        events: &mut EventQueue,
    )
        requires
            old(state).attacker_auras@.contains_key(Aura::SuddenImpactReady),
            fits(old(state).time_ms, Some(self.cooldown)),
        ensures
            final(state).time_ms == old(state).time_ms,
            final(state).cooldowns@ == old(state).cooldowns@,
            final(state).last_attack_time_ms == old(state).last_attack_time_ms,
            final(state).recast_charges@ == old(state).recast_charges@,
            final(state).is_casting == old(state).is_casting,
            final(state).target_auras@ == old(state).target_auras@,
            final(state).recast_ready@ == old(state).recast_ready@,
            final(state).attacker_auras@ == old(state).attacker_auras@.remove(
                Aura::SuddenImpactReady,
            ),
            final(state).effects_cooldowns@ == old(state).effects_cooldowns@.insert(
                PassiveEffect::SuddenImpact,
                (old(state).time_ms + self.cooldown) as u64,
            ),
            final(events)@ == schedule(
                old(events)@.filter(
                    keeps_unless_aura_event(EventCategory::AuraAttackerEnd, Aura::SuddenImpactReady),
                ),
                aura_event(EventCategory::AuraAttackerEnd, old(state).time_ms, Aura::SuddenImpactReady),
            ),
    {
        state.end_early_attacker_aura(&Aura::SuddenImpactReady, game_params, event, events);
        state.effects_cooldowns.insert(PassiveEffect::SuddenImpact, state.time_ms + self.cooldown);
    }
}

/// The queue at the start of a simulation whose first cast is `first`: that cast at time
/// zero, then the starts and ends of the initial auras.
pub open spec fn item_start_queue_after_first(first: AttackType, gp: GameParams) -> Seq<Event> {
    apply_auras_queue(
        apply_auras_queue(
            item_start_queue(
                schedule(Seq::empty(), cast_start_event(first, 0)),
                gp,
                0,
            ),
            gp.initial_attacker_auras@,
            Unit::Attacker,
            0,
        ),
        gp.initial_target_auras@,
        Unit::Target,
        0,
    )
}

/// The events queued at time zero when there is no command: the items' and the initial
/// auras' starts and ends.
pub open spec fn item_start_queue_without_command(gp: GameParams) -> Seq<Event> {
    apply_auras_queue(
        apply_auras_queue(
            item_start_queue(Seq::empty(), gp, 0),
            gp.initial_attacker_auras@,
            Unit::Attacker,
            0,
        ),
        gp.initial_target_auras@,
        Unit::Target,
        0,
    )
}

/// Starts a simulation at time zero: queues the first command and starts the initial
/// auras.
pub fn start_run(
    selected_commands: &mut std::collections::VecDeque<AttackType>,
    game_params: &GameParams,
    aa_cast_time_ms: u64,
) -> (r: (State, EventQueue))
    requires
        initial_auras_ok(0, *game_params),
    ensures
        r.0.time_ms == 0,
        r.0.cooldowns@ == Map::<AttackType, u64>::empty(),
        r.0.effects_cooldowns@ == Map::<PassiveEffect, u64>::empty(),
        r.0.recast_charges@ == Seq::<AttackType>::empty(),
        r.0.attacker_auras@ == apply_auras_map(
            item_start_auras(Map::empty(), *game_params, 0),
            game_params.initial_attacker_auras@,
            0,
        ),
        r.0.target_auras@ == apply_auras_map(Map::empty(), game_params.initial_target_auras@, 0),
        r.0.recast_ready@ == apply_auras_ready(
            apply_auras_ready(Map::empty(), game_params.initial_attacker_auras@),
            game_params.initial_target_auras@,
        ),
        r.0.last_attack_time_ms == 0,
        !r.0.is_casting,
        old(selected_commands)@.len() == 0 ==> final(selected_commands)@ == old(selected_commands)@
            && r.1@ == item_start_queue_without_command(*game_params),
        old(selected_commands)@.len() > 0 && !(old(selected_commands)@[0] != AttackType::AA
            && game_params.weave_auto_attacks && aa_cast_time_ms == 0) ==> final(selected_commands)@ == old(selected_commands)@.drop_first() && r.1@ == item_start_queue_after_first(
            old(selected_commands)@[0],
            *game_params,
        ),
        old(selected_commands)@.len() > 0 && (old(selected_commands)@[0] != AttackType::AA
            && game_params.weave_auto_attacks && aa_cast_time_ms == 0) ==> final(selected_commands)@ == old(selected_commands)@ && r.1@ == item_start_queue_after_first(
            AttackType::AA,
            *game_params,
        ),
{
    let mut events = EventQueue::new();
    let mut state = State::new(0);
    insert_next_attack_event(&mut events, selected_commands, &state, game_params, aa_cast_time_ms);
    add_initial_auras(game_params, &mut state, &mut events);
    (state, events)
}

} // verus!
