use vstd::prelude::*;

use crate::abilities::ability_exists;
use crate::common::{Aura, AuraApplication, PassiveEffect, Unit};
use crate::events::{lemma_schedule_none_before, none_before, schedule, Event, EventCategory, EventQueue};
use crate::simulation::{
    after_dash_auras, after_dash_queue, application, expiries, handle_dash_if_applicable,
    is_dash_cast, lemma_after_dash_queue_none_before, lemma_queue_aura_none_before,
    lemma_stealth_exit_queue_none_before, queue_aura, refresh_ok, refreshed, same_timers,
    stealth_exit_applies, stealth_exit_auras, stealth_exit_ok, stealth_exit_queue,
    trigger_stealth_exit_if_applicable, GameParams, State,
};

verus! {

/// The state with its clock set to `t`.
pub open spec fn at_time(s: State, t: u64) -> State {
    State { time_ms: t, ..s }
}

/// Brings the simulation forward to the time of an event: when the clock moves, it is set
/// to the event's time and the state is brought up to it. Returns how much time passed.
pub fn advance_time(
    event: &Event,
    events: &mut EventQueue,
    game_params: &GameParams,
    state: &mut State,
) -> (passed: u64)
    requires
        old(state).time_ms <= event.time_ms,
        refresh_ok(at_time(*old(state), event.time_ms), *game_params),
    ensures
        passed == event.time_ms - old(state).time_ms,
        final(state).time_ms == event.time_ms,
        passed == 0 ==> *final(state) == *old(state) && final(events)@ == old(events)@,
        passed > 0 ==> refreshed(at_time(*old(state), event.time_ms), *final(state)),
        passed > 0 ==> {
            let e = expiries(at_time(*old(state), event.time_ms), old(events)@, *game_params);
            &&& final(state).target_auras@ == e.0
            &&& final(state).attacker_auras@ == e.1
            &&& final(state).recast_ready@ == e.2
            &&& final(events)@ == e.3
        },
        none_before(old(events)@, event.time_ms) ==> none_before(final(events)@, event.time_ms),
{
    if state.time_ms == event.time_ms {
        return 0;
    }
    let time_passed = event.time_ms - state.time_ms;
    state.time_ms = event.time_ms;
    state.refresh_cds_and_auras(game_params, event, events);
    time_passed
}

/// The number of times an effect occurs among the passive effects.
pub open spec fn effect_count(effects: Seq<PassiveEffect>, e: PassiveEffect) -> nat
    decreases effects.len(),
{
    if effects.len() == 0 {
        0
    } else {
        effect_count(effects.drop_last(), e) + if effects.last() == e {
            1nat
        } else {
            0nat
        }
    }
}

/// The Energized stack count once `n` movements, each generating `g` stacks, have been
/// added to `s` (each capped at 100).
pub open spec fn moved_stacks(s: u64, g: u64, n: nat) -> u64
    decreases n,
{
    if n == 0 {
        s
    } else {
        let t = moved_stacks(s, g, (n - 1) as nat) + g;
        if t < 100 {
            t as u64
        } else {
            100
        }
    }
}

/// However far the attacker moves, Energized never holds more than 100 stacks once a
/// movement has been handled.
pub proof fn lemma_movement_caps_energized(s: u64, g: u64, n: nat)
    requires
        n >= 1,
    ensures
        moved_stacks(s, g, n) <= 100,
{
}

/// The attacker's auras once `n` Energized effects have handled a movement generating `g`
/// stacks: an Energized aura already held keeps its timing, a new one starts now.
pub open spec fn moved_auras(m: Map<Aura, AuraApplication>, now: u64, g: u64, n: nat) -> Map<
    Aura,
    AuraApplication,
> {
    if n == 0 {
        m
    } else if m.contains_key(Aura::Energized) {
        m.insert(
            Aura::Energized,
            AuraApplication {
                stacks: Some(moved_stacks(m[Aura::Energized].stacks->Some_0, g, n)),
                ..m[Aura::Energized]
            },
        )
    } else {
        m.insert(Aura::Energized, application(Aura::Energized, now, None, Some(moved_stacks(0, g, n))))
    }
}

/// The queue once `n` Energized effects have handled a movement: a new Energized aura is
/// recorded when none was held.
pub open spec fn moved_queue(m: Map<Aura, AuraApplication>, q: Seq<Event>, now: u64, n: nat) -> Seq<
    Event,
> {
    if n > 0 && !m.contains_key(Aura::Energized) {
        queue_aura(q, Unit::Attacker, Aura::Energized, now, None)
    } else {
        q
    }
}

/// What handling a movement requires: the stack counts stay within range.
pub open spec fn movement_ok(s: State, g: u64) -> bool {
    &&& g + 100 <= u64::MAX
    &&& s.attacker_auras@.contains_key(Aura::Energized) ==> {
        &&& s.attacker_auras@[Aura::Energized].stacks is Some
        &&& s.attacker_auras@[Aura::Energized].stacks->Some_0 + g <= u64::MAX
    }
}

/// After some time has passed without a cast under way, each passive effect handles the
/// attacker's movement; `generated_stacks` is what the distance travelled generates for
/// Voltaic Cyclosword's Energized.
pub fn on_time_passed(
    events: &mut EventQueue,
    game_params: &GameParams,
    state: &mut State,
    generated_stacks: u64,
)
    requires
        movement_ok(*old(state), generated_stacks),
    ensures
        same_timers(*final(state), *old(state)),
        final(state).target_auras@ == old(state).target_auras@,
        final(state).recast_ready@ == old(state).recast_ready@,
        old(state).is_casting ==> final(state).attacker_auras@ == old(state).attacker_auras@
            && final(events)@ == old(events)@,
        !old(state).is_casting ==> final(state).attacker_auras@ == moved_auras(
            old(state).attacker_auras@,
            old(state).time_ms,
            generated_stacks,
            effect_count(game_params.passive_effects@, PassiveEffect::Energized),
        ) && final(events)@ == moved_queue(
            old(state).attacker_auras@,
            old(events)@,
            old(state).time_ms,
            effect_count(game_params.passive_effects@, PassiveEffect::Energized),
        ),
{
    if state.is_casting {
        return;
    }
    let ghost s0 = *old(state);
    let ghost q0 = old(events)@;
    let ghost m0 = old(state).attacker_auras@;
    let ghost effects = game_params.passive_effects@;
    let mut i: usize = 0;
    while i < game_params.passive_effects.len()
        invariant
            i <= effects.len(),
            effects == game_params.passive_effects@,
            same_timers(*state, s0),
            !s0.is_casting,
            state.target_auras@ == s0.target_auras@,
            state.recast_ready@ == s0.recast_ready@,
            movement_ok(s0, generated_stacks),
            m0 == s0.attacker_auras@,
            state.attacker_auras@ == moved_auras(
                m0,
                s0.time_ms,
                generated_stacks,
                effect_count(effects.take(i as int), PassiveEffect::Energized),
            ),
            events@ == moved_queue(
                m0,
                q0,
                s0.time_ms,
                effect_count(effects.take(i as int), PassiveEffect::Energized),
            ),
        decreases effects.len() - i,
    {
        let effect = game_params.passive_effects[i];
        let ghost c = effect_count(effects.take(i as int), PassiveEffect::Energized);
        proof {
            assert(effects.take(i + 1).drop_last() =~= effects.take(i as int));
            assert(effects.take(i + 1).last() == effect);
            if c > 0 {
                assert(moved_stacks(0, generated_stacks, c) <= 100);
                if m0.contains_key(Aura::Energized) {
                    assert(moved_stacks(m0[Aura::Energized].stacks->Some_0, generated_stacks, c)
                        <= 100);
                }
            }
        }
        effect.handle_on_movement(generated_stacks, state, events);
        proof {
            if effect == PassiveEffect::Energized {
                if c == 0 {
                    if m0.contains_key(Aura::Energized) {
                        assert(state.attacker_auras@ =~= moved_auras(
                            m0,
                            s0.time_ms,
                            generated_stacks,
                            1,
                        ));
                    } else {
                        assert(state.attacker_auras@ =~= moved_auras(
                            m0,
                            s0.time_ms,
                            generated_stacks,
                            1,
                        ));
                    }
                } else {
                    assert(state.attacker_auras@ =~= moved_auras(
                        m0,
                        s0.time_ms,
                        generated_stacks,
                        c + 1,
                    ));
                }
            }
        }
        i = i + 1;
    }
    proof {
        assert(effects.take(effects.len() as int) =~= effects);
    }
}

/// The queue once a cast has started: the end of the stealth is recorded if the cast
/// breaks it.
pub open spec fn cast_start_queue(s0: State, gp: GameParams, q0: Seq<Event>, event: Event) -> Seq<Event> {
    if stealth_exit_applies(s0, gp, event) {
        stealth_exit_queue(s0, gp, q0, event.time_ms)
    } else {
        q0
    }
}

/// Handling a movement queues nothing before the clock.
pub proof fn lemma_moved_queue_none_before(m: Map<Aura, AuraApplication>, q: Seq<Event>, now: u64, n: nat)
    requires
        none_before(q, now),
    ensures
        none_before(moved_queue(m, q, now, n), now),
{
    if n > 0 && !m.contains_key(Aura::Energized) {
        lemma_queue_aura_none_before(q, Unit::Attacker, Aura::Energized, now, None, now);
    }
}

/// Starting a cast at the clock's time queues nothing before the clock, its end included.
pub proof fn lemma_cast_start_queue_none_before(
    s0: State,
    gp: GameParams,
    q0: Seq<Event>,
    event: Event,
    cast_time_ms: u64,
)
    requires
        none_before(q0, s0.time_ms),
        event.time_ms == s0.time_ms,
        stealth_exit_applies(s0, gp, event) ==> stealth_exit_ok(s0, gp),
        s0.time_ms + cast_time_ms <= u64::MAX,
    ensures
        none_before(cast_start_queue(s0, gp, q0, event), s0.time_ms),
        none_before(
            schedule(
                cast_start_queue(s0, gp, q0, event),
                cast_end_event(event, (s0.time_ms + cast_time_ms) as u64),
            ),
            s0.time_ms,
        ),
{
    if stealth_exit_applies(s0, gp, event) {
        lemma_stealth_exit_queue_none_before(s0, gp, q0, event.time_ms, s0.time_ms);
    }
    lemma_schedule_none_before(
        cast_start_queue(s0, gp, q0, event),
        cast_end_event(event, (s0.time_ms + cast_time_ms) as u64),
        s0.time_ms,
    );
}

/// Ending a cast at the clock's time queues nothing before the clock.
pub proof fn lemma_cast_end_queue_none_before(
    s0: State,
    s1: State,
    q0: Seq<Event>,
    q1: Seq<Event>,
    gp: GameParams,
    event: Event,
)
    requires
        cast_ended(s0, s1, q0, q1, gp, event),
        none_before(q0, s0.time_ms),
        event.time_ms == s0.time_ms,
        s0.time_ms + gp.runes_data.sudden_impact.buff_duration <= u64::MAX,
        stealth_exit_applies(s0, gp, event) ==> stealth_exit_ok(s0, gp),
    ensures
        none_before(q1, s0.time_ms),
{
    if is_dash_cast(gp, event.attack_type->Some_0) {
        lemma_after_dash_queue_none_before(
            s0.effects_cooldowns@,
            s0.time_ms,
            gp,
            q0,
            event.time_ms,
            s0.time_ms,
        );
    } else if stealth_exit_applies(s0, gp, event) {
        lemma_stealth_exit_queue_none_before(s0, gp, q0, event.time_ms, s0.time_ms);
    }
}

/// The state once a cast has started: a cast is under way, and the stealth has ended if
/// the cast breaks it.
pub open spec fn cast_started(s0: State, s1: State, gp: GameParams, event: Event) -> bool {
    &&& s1.is_casting
    &&& s1.time_ms == s0.time_ms
    &&& s1.cooldowns@ == s0.cooldowns@
    &&& s1.effects_cooldowns@ == s0.effects_cooldowns@
    &&& s1.last_attack_time_ms == s0.last_attack_time_ms
    &&& s1.recast_charges@ == s0.recast_charges@
    &&& s1.target_auras@ == s0.target_auras@
    &&& s1.recast_ready@ == s0.recast_ready@
    &&& s1.attacker_auras@ == if stealth_exit_applies(s0, gp, event) {
        stealth_exit_auras(s0, gp, event.time_ms)
    } else {
        s0.attacker_auras@
    }
}

/// The event that ends the cast started by `event` at time `t`.
pub open spec fn cast_end_event(event: Event, t: u64) -> Event {
    Event {
        attack_type: event.attack_type,
        category: EventCategory::AttackCastEnd,
        time_ms: t,
        passive_effect: None,
        aura: None,
    }
}

/// Starts the cast of the event's attack, which must be off cooldown or ready to be recast;
/// the cast may break the attacker's stealth. The caller then queues the end of the cast.
pub fn on_cast_start(
    event: &Event,
    events: &mut EventQueue,
    game_params: &GameParams,
    state: &mut State,
)
    requires
        event.category == EventCategory::AttackCastStart,
        event.attack_type is Some,
        !old(state).cooldowns@.contains_key(event.attack_type->Some_0) || old(
            state,
        ).recast_ready@.contains_key(event.attack_type->Some_0),
        stealth_exit_applies(*old(state), *game_params, *event) ==> stealth_exit_ok(
            *old(state),
            *game_params,
        ),
    ensures
        cast_started(*old(state), *final(state), *game_params, *event),
        final(events)@ == cast_start_queue(*old(state), *game_params, old(events)@, *event),
{
    state.is_casting = true;
    trigger_stealth_exit_if_applicable(event, events, game_params, state);
}

/// The state once a cast has ended, before its damage: no cast is under way; a dash lets
/// the passive effects handle it; an auto attack may break Kha'Zix's stealth.
pub open spec fn cast_ended(s0: State, s1: State, q0: Seq<Event>, q1: Seq<Event>, gp: GameParams, event: Event) -> bool {
    &&& !s1.is_casting
    &&& s1.time_ms == s0.time_ms
    &&& s1.cooldowns@ == s0.cooldowns@
    &&& s1.effects_cooldowns@ == s0.effects_cooldowns@
    &&& s1.last_attack_time_ms == s0.last_attack_time_ms
    &&& s1.recast_charges@ == s0.recast_charges@
    &&& s1.target_auras@ == s0.target_auras@
    &&& s1.recast_ready@ == s0.recast_ready@
    &&& if is_dash_cast(gp, event.attack_type->Some_0) {
        &&& s1.attacker_auras@ == after_dash_auras(
            s0.attacker_auras@,
            s0.effects_cooldowns@,
            s0.time_ms,
            gp,
            event.time_ms,
        )
        &&& q1 == after_dash_queue(s0.effects_cooldowns@, s0.time_ms, gp, q0, event.time_ms)
    } else if stealth_exit_applies(s0, gp, event) {
        &&& s1.attacker_auras@ == stealth_exit_auras(s0, gp, event.time_ms)
        &&& q1 == stealth_exit_queue(s0, gp, q0, event.time_ms)
    } else {
        &&& s1.attacker_auras@ == s0.attacker_auras@
        &&& q1 == q0
    }
}

/// Ends the cast of the event's attack, before its damage is dealt: a dash lets the passive
/// effects handle it, and the end of an auto attack's windup may break the stealth.
pub fn on_cast_end(
    event: &Event,
    events: &mut EventQueue,
    game_params: &GameParams,
    state: &mut State,
)
    requires
        event.category == EventCategory::AttackCastEnd,
        event.attack_type is Some,
        event.attack_type->Some_0 != crate::attack::AttackType::AA ==> ability_exists(
            game_params.abilities@,
            event.attack_type->Some_0,
            game_params.initial_config@,
        ),
        old(state).time_ms + game_params.runes_data.sudden_impact.buff_duration <= u64::MAX,
        stealth_exit_applies(*old(state), *game_params, *event) ==> stealth_exit_ok(
            *old(state),
            *game_params,
        ),
    ensures
        cast_ended(*old(state), *final(state), old(events)@, final(events)@, *game_params, *event),
{
    state.is_casting = false;
    handle_dash_if_applicable(event, events, game_params, state);
    trigger_stealth_exit_if_applicable(event, events, game_params, state);
}

} // verus!
