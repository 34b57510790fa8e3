use vstd::prelude::*;

use crate::abilities::{ability_exists, try_find_ability};
use crate::attack::AttackType;
use crate::common::{Aura, AuraApplication, Champion, PassiveEffect};
use crate::event_steps::{at_time, movement_ok};
use crate::events::{Event, EventCategory};
use crate::item_effects::{
    can_stack, post_damage_item, post_damage_ok, pre_damage_item, pre_damage_ok,
};
use crate::items::Item;
use crate::keyed::KeyedTable;
use crate::simulation::{
    all_fit, contains_attack, fits, has_item, has_r_ability, initial_auras_ok, next_attack_ok,
    next_time_defined, r_ability, refresh_ok, stealth_exit_applies, stealth_exit_ok,
    GameParams, State,
};
use crate::text::parse_u64;

verus! {

/// Whether a duration started at `start` ends within the clock's range.
fn fits_from(start: u64, duration: Option<u64>) -> (r: bool)
    ensures
        r == fits(start, duration),
{
    match duration {
        Some(d) => d <= u64::MAX - start,
        None => true,
    }
}

/// Whether the data of Kha'Zix's R is there, with a recast delay and window that end
/// within the clock's range when started at `now`.
fn r_data_fits(now: u64, gp: &GameParams) -> (r: bool)
    ensures
        r == (has_r_ability(*gp) && fits(now, r_ability(*gp).recast_gap_duration) && fits(
            now,
            r_ability(*gp).recast_window,
        )),
{
    match try_find_ability(&gp.abilities, AttackType::R, &gp.initial_config) {
        Some(a) => fits_from(now, a.recast_gap_duration) && fits_from(now, a.recast_window),
        None => false,
    }
}

/// Whether the state can be brought forward to the time `now` (what `advance_time` asks of
/// the state at the event's time).
pub fn can_refresh_at(state: &State, gp: &GameParams, now: u64) -> (r: bool)
    ensures
        r == refresh_ok(at_time(*state, now), *gp),
{
    let holds_chain = state.attacker_auras.contains_key(Aura::Invisibility)
        || state.attacker_auras.contains_key(Aura::VoidAssaultDelay)
        || state.target_auras.contains_key(Aura::Invisibility)
        || state.target_auras.contains_key(Aura::VoidAssaultDelay);
    !holds_chain || r_data_fits(now, gp)
}

/// Whether the attacker can move while `generated_stacks` Energized stacks are generated
/// (what `on_time_passed` asks): the counts stay within the integers' range.
pub fn can_move(state: &State, generated_stacks: u64) -> (r: bool)
    ensures
        r == movement_ok(*state, generated_stacks),
{
    if generated_stacks > u64::MAX - 100 {
        return false;
    }
    match state.attacker_auras.get(Aura::Energized) {
        Some(app) => match app.stacks {
            Some(n) => generated_stacks <= u64::MAX - n,
            None => false,
        },
        None => true,
    }
}

/// Whether the earliest start of an attack is known: a recast waits on the stealth or the
/// delay that precedes it, and on the data of the spell.
fn next_time_known(state: &State, gp: &GameParams, at: AttackType) -> (r: bool)
    ensures
        r == next_time_defined(*state, *gp, at),
{
    if !(state.cooldowns.contains_key(at) && contains_attack(&state.recast_charges, at)) {
        return true;
    }
    match try_find_ability(&gp.abilities, at, &gp.initial_config) {
        None => false,
        Some(a) => {
            if state.attacker_auras.contains_key(Aura::Invisibility) {
                match state.attacker_auras.get(Aura::Invisibility) {
                    Some(app) => match (app.end_ms, a.recast_gap_duration) {
                        (Some(end), Some(gap)) => gap <= u64::MAX - end,
                        _ => false,
                    },
                    None => false,
                }
            } else if state.attacker_auras.contains_key(Aura::VoidAssaultDelay) {
                match state.attacker_auras.get(Aura::VoidAssaultDelay) {
                    Some(app) => app.end_ms.is_some(),
                    None => false,
                }
            } else {
                true
            }
        },
    }
}

/// Whether the next command can be queued (what `insert_next_attack_event` asks).
pub fn can_queue_next_attack(
    commands: &std::collections::VecDeque<AttackType>,
    state: &State,
    gp: &GameParams,
) -> (r: bool)
    ensures
        r == next_attack_ok(commands@, *state, *gp),
{
    if commands.len() == 0 {
        return true;
    }
    let first = commands[0];
    let weaving = first != AttackType::AA && gp.weave_auto_attacks;
    next_time_known(state, gp, first) && (!weaving || next_time_known(state, gp, AttackType::AA))
}

/// Whether every aura application ends within the clock's range when started at `now`.
fn all_fit_from(apps: &Vec<AuraApplication>, now: u64) -> (r: bool)
    ensures
        r == all_fit(apps@, now),
{
    let mut i: usize = 0;
    while i < apps.len()
        invariant
            i <= apps@.len(),
            forall|j: int| 0 <= j < i ==> fits(now, #[trigger] apps@[j].end_ms),
        decreases apps@.len() - i,
    {
        if !fits_from(now, apps[i].end_ms) {
            assert(!fits(now, apps@[i as int].end_ms));
            return false;
        }
        i = i + 1;
    }
    true
}

/// Whether the initial auras can be started at `now` (what `add_initial_auras` and
/// `start_run` ask): Eminence's stack count is a number when it applies, and every
/// duration ends within the clock's range.
pub fn can_start_auras_at(now: u64, gp: &GameParams) -> (r: bool)
    ensures
        r == initial_auras_ok(now, *gp),
{
    let eminence_ok = if gp.initial_config.flag_or("ITEM_HUBRIS_EMINENCE_ACTIVE", true)
        && has_item(&gp.items, Item::Hubris) {
        let stacks = match gp.initial_config.get("ITEM_HUBRIS_EMINENCE_STACKS") {
            Some(text) => parse_u64(text.as_str()),
            None => parse_u64("17"),
        };
        stacks.is_some()
    } else {
        true
    };
    eminence_ok && fits_from(now, Some(90_000)) && all_fit_from(&gp.initial_attacker_auras, now)
        && all_fit_from(&gp.initial_target_auras, now)
}

/// Whether a cast can end on this event (what `on_cast_end` asks): the event ends the cast
/// of a known attack whose data is there, Sudden Impact's buff ends within the clock's
/// range, and a stealth that ends here has what its end needs.
pub fn can_end_cast(event: &Event, state: &State, gp: &GameParams) -> (r: bool)
    ensures
        r == {
            &&& event.category == EventCategory::AttackCastEnd
            &&& event.attack_type is Some
            &&& event.attack_type->Some_0 != AttackType::AA ==> ability_exists(
                gp.abilities@,
                event.attack_type->Some_0,
                gp.initial_config@,
            )
            &&& state.time_ms + gp.runes_data.sudden_impact.buff_duration <= u64::MAX
            &&& stealth_exit_applies(*state, *gp, *event) ==> stealth_exit_ok(*state, *gp)
        },
{
    if event.category != EventCategory::AttackCastEnd {
        return false;
    }
    let attack_type = match event.attack_type {
        Some(a) => a,
        None => {
            return false;
        },
    };
    if attack_type != AttackType::AA && try_find_ability(
        &gp.abilities,
        attack_type,
        &gp.initial_config,
    ).is_none() {
        return false;
    }
    let buff = gp.runes_data.sudden_impact.buff_duration;
    if buff > u64::MAX - state.time_ms {
        return false;
    }
    let exits_stealth = state.attacker_auras.contains_key(Aura::Invisibility) && gp.champion
        == Champion::Khazix && attack_type == AttackType::AA;
    !exits_stealth || stealth_exit_possible(state, gp)
}

/// Whether the stealth can end now: the data of R is there when charges remain, and
/// Sudden Impact's buff ends within the clock's range.
fn stealth_exit_possible(state: &State, gp: &GameParams) -> (r: bool)
    ensures
        r == stealth_exit_ok(*state, *gp),
{
    let needs_r = contains_attack(&state.recast_charges, AttackType::R);
    (!needs_r || r_data_fits(state.time_ms, gp)) && fits_from(
        state.time_ms,
        Some(gp.runes_data.sudden_impact.buff_duration),
    )
}

/// Whether a cast can start on this event (what `on_cast_start` asks): the event starts
/// the cast of a known attack that is off cooldown or ready to be recast, and a stealth
/// that ends here has what its end needs.
pub fn can_start_cast(event: &Event, state: &State, gp: &GameParams) -> (r: bool)
    ensures
        r == {
            &&& event.category == EventCategory::AttackCastStart
            &&& event.attack_type is Some
            &&& !state.cooldowns@.contains_key(event.attack_type->Some_0)
                || state.recast_ready@.contains_key(event.attack_type->Some_0)
            &&& stealth_exit_applies(*state, *gp, *event) ==> stealth_exit_ok(*state, *gp)
        },
{
    if event.category != EventCategory::AttackCastStart {
        return false;
    }
    let attack_type = match event.attack_type {
        Some(a) => a,
        None => {
            return false;
        },
    };
    if state.cooldowns.contains_key(attack_type) && !state.recast_ready.contains_key(attack_type) {
        return false;
    }
    let exits_stealth = state.attacker_auras.contains_key(Aura::Invisibility) && attack_type
        != AttackType::AA;
    !exits_stealth || stealth_exit_possible(state, gp)
}

/// Whether an aura table has room for one more stack of an aura.
fn stack_room(m: &KeyedTable<Aura, AuraApplication>, a: Aura) -> (r: bool)
    ensures
        r == can_stack(m@, a),
{
    match m.get(a) {
        Some(app) => match app.stacks {
            Some(n) => n < u64::MAX,
            None => false,
        },
        None => true,
    }
}

/// Whether the pre-damage reaction of a passive effect can run (what
/// `PassiveEffect::handle_on_pre_damage` asks).
pub fn can_handle_pre_damage(effect: PassiveEffect, state: &State, event: &Event) -> (r: bool)
    ensures
        r == (pre_damage_item(effect) matches Some(item) ==> pre_damage_ok(
            item,
            effect,
            *state,
            *event,
        )),
{
    match effect {
        PassiveEffect::LightshieldStrike => event.time_ms <= u64::MAX - 8_000,
        PassiveEffect::Energized => match state.attacker_auras.get(Aura::Energized) {
            Some(app) => match app.stacks {
                Some(n) => n <= u64::MAX - 6,
                None => false,
            },
            None => true,
        },
        _ => true,
    }
}

/// Whether the post-damage reaction of a passive effect can run (what
/// `PassiveEffect::handle_on_post_damage` asks).
pub fn can_handle_post_damage(effect: PassiveEffect, state: &State, event: &Event) -> (r: bool)
    ensures
        r == (post_damage_item(effect) matches Some(item) ==> post_damage_ok(
            item,
            effect,
            *state,
            *event,
        )),
{
    match effect {
        PassiveEffect::Carve => state.time_ms <= u64::MAX - 6_000 && stack_room(
            &state.target_auras,
            Aura::Carve,
        ),
        PassiveEffect::EverRisingMoon => state.time_ms <= u64::MAX - 2_000 && event.time_ms
            <= u64::MAX - 6_000,
        PassiveEffect::FocusedWill => state.time_ms <= u64::MAX - 6_000 && stack_room(
            &state.attacker_auras,
            Aura::FocusedWill,
        ),
        _ => true,
    }
}

} // verus!
