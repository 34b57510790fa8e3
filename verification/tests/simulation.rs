use std::collections::VecDeque;

use league_sim::abilities::{find_ability, pull_abilities_data, KhazixSpellTimings, ScriptedEffect, SpellData};
use league_sim::attack::AttackType;
use league_sim::common::{Aura, Champion, CritHandlingChoice};
use league_sim::config::Config;
use league_sim::events::{Event, EventCategory, EventQueue};
use league_sim::runes::{pull_runes, Rune};
use league_sim::simulation::{
    add_cooldown_to_state, insert_next_attack_event, is_spell_off_cooldown,
    next_earliest_time_possible_for, GameParams, State,
};

fn khazix_timings() -> KhazixSpellTimings {
    KhazixSpellTimings {
        q_cast_time_ms: 250,
        w_cast_time_ms: 250,
        q_cooldowns_s: vec![4, 4, 4, 4, 4],
        w_cooldowns_s: vec![9, 9, 9, 9, 9],
        e_cooldowns_s: vec![20, 18, 16, 14, 12],
        r_cooldowns_s: vec![100, 85, 70],
    }
}

fn khazix_config() -> Config {
    let mut config = Config::new();
    config.insert("CHAMPION_KHAZIX_ISOLATED_TARGET".to_string(), "FALSE".to_string());
    config.insert("CHAMPION_KHAZIX_R_EVOLVED".to_string(), "FALSE".to_string());
    config
}

fn khazix_params(weave_auto_attacks: bool) -> GameParams {
    let config = khazix_config();
    let abilities = pull_abilities_data(&config, &khazix_timings());
    GameParams {
        champion: Champion::Khazix,
        level: 18,
        items: Vec::new(),
        initial_config: config,
        abilities,
        runes: vec![
            Rune::DarkHarvest,
            Rune::SuddenImpact,
            Rune::AbsoluteFocus,
            Rune::GatheringStorm,
            Rune::AdaptiveForce1,
            Rune::AdaptiveForce2,
        ],
        runes_data: pull_runes(),
        passive_effects: Vec::new(),
        crit_handling: CritHandlingChoice::Min,
        initial_attacker_auras: Vec::new(),
        initial_target_auras: Vec::new(),
        start_time_ms: 0,
        capture_event_history: false,
        weave_auto_attacks,
    }
}

/// The windup of Kha'Zix's auto attack at level 18 without items, in milliseconds.
fn khazix_aa_cast_time_ms() -> u64 {
    let level = 18.0_f64;
    let per_level = 0.027_f64;
    let bonus = per_level * (level - 1.0) * (0.7025 + 0.0175 * (level - 1.0));
    let total_attack_speed = 0.668_f64 + 0.667999982833862_f64 * bonus;
    let windup_percent = 0.3_f64 + -0.0994652435183525_f64;
    (1000.0_f64 * windup_percent / total_attack_speed).round() as u64
}

fn r_ability(game_params: &GameParams) -> &SpellData {
    find_ability(&game_params.abilities, AttackType::R, &game_params.initial_config)
}

/// Casts Kha'Zix's R at the time of the state.
fn cast_r(state: &mut State, game_params: &GameParams, time_ms: u64) {
    let event = Event {
        attack_type: Some(AttackType::R),
        category: EventCategory::AttackCastEnd,
        time_ms,
        passive_effect: None,
        aura: None,
    };
    let effect = r_ability(game_params).active_effect.unwrap();
    effect.on_effect(state, game_params, &event, &mut EventQueue::new());
}

fn fast_forward_to(new_time_s: u64, state: &mut State, game_params: &GameParams) {
    state.time_ms = new_time_s;
    // the content of the event does not matter
    let event = Event {
        attack_type: None,
        category: EventCategory::AuraAttackerEnd,
        time_ms: 0,
        passive_effect: None,
        aura: Some(Aura::Invisibility),
    };
    state.refresh_cds_and_auras(game_params, &event, &mut EventQueue::new());
}

fn start_event(time_ms: u64, attack_type: AttackType) -> Event {
    Event {
        time_ms,
        category: EventCategory::AttackCastStart,
        attack_type: Some(attack_type),
        passive_effect: None,
        aura: None,
    }
}

#[test]
fn it_works() {
    let mut events = EventQueue::new();

    let event_1 = start_event(1000, AttackType::Q);
    let event_2 = start_event(1000, AttackType::W);
    let event_3 = start_event(1000, AttackType::E);

    events.push(event_1);
    events.push(event_2);
    events.push(event_3);

    assert_eq!(events.pop(), Some(event_1));
    assert_eq!(events.pop(), Some(event_2));
    assert_eq!(events.pop(), Some(event_3));
}

#[test]
fn test_next_earliest_time_possible_for_no_cooldown() {
    let current_time_ms = 5_000;
    let mut state = State::new(current_time_ms);
    let game_params = khazix_params(false);

    let next_attack_time = next_earliest_time_possible_for(AttackType::Q, &state, &game_params);
    assert_eq!(next_attack_time, current_time_ms);

    fast_forward_to(next_attack_time, &mut state, &game_params);
    assert!(is_spell_off_cooldown(AttackType::R, &state));

    let cast_end_ms = r_ability(&game_params).cast_time_ms.unwrap_or_default() + next_attack_time;
    fast_forward_to(cast_end_ms, &mut state, &game_params);
    cast_r(&mut state, &game_params, cast_end_ms);
}

#[test]
fn test_next_earliest_time_possible_for_with_invisibility() {
    let current_time_ms = 5_000;
    let mut state = State::new(current_time_ms);
    let game_params = khazix_params(false);

    cast_r(&mut state, &game_params, 2_500);
    let r = r_ability(&game_params);
    // R deals no damage of its own: only its cooldown follows from the cast
    assert_eq!(r.damage_type, None);
    let cd_ms = *r.cooldown_ms.as_ref().unwrap().get(&3u64).unwrap();

    add_cooldown_to_state(&mut state, AttackType::R, cd_ms);

    let invis_end_ms = state.attacker_auras.get(Aura::Invisibility).unwrap().end_ms.unwrap();
    let recast_gap = r.recast_gap_duration.unwrap();

    let next_attack_time = next_earliest_time_possible_for(AttackType::R, &state, &game_params);
    assert_eq!(next_attack_time, invis_end_ms + recast_gap);

    // cannot fast forward to next attack time directly because of how
    // refresh_cds_and_auras works.
    fast_forward_to(invis_end_ms, &mut state, &game_params);
    fast_forward_to(next_attack_time, &mut state, &game_params);

    assert!(is_spell_off_cooldown(AttackType::R, &state));

    let cast_end_ms = r.cast_time_ms.unwrap_or_default() + next_attack_time;
    fast_forward_to(cast_end_ms, &mut state, &game_params);
    cast_r(&mut state, &game_params, cast_end_ms);
}

#[test]
fn test_next_earliest_time_possible_for_with_void_assault_delay() {
    let current_time_ms = 5_000;
    let mut state = State::new(current_time_ms);
    let game_params = khazix_params(false);

    cast_r(&mut state, &game_params, 2_500);
    let r = r_ability(&game_params);
    let cd_ms = *r.cooldown_ms.as_ref().unwrap().get(&3u64).unwrap();
    add_cooldown_to_state(&mut state, AttackType::R, cd_ms);

    let invis_end_ms = state.attacker_auras.get(Aura::Invisibility).unwrap().end_ms.unwrap();
    fast_forward_to(invis_end_ms, &mut state, &game_params);

    let gap_end_ms = state.attacker_auras.get(Aura::VoidAssaultDelay).unwrap().end_ms.unwrap();

    let next_attack_time = next_earliest_time_possible_for(AttackType::R, &state, &game_params);
    assert_eq!(next_attack_time, gap_end_ms);

    fast_forward_to(next_attack_time, &mut state, &game_params);
    assert!(is_spell_off_cooldown(AttackType::R, &state));

    let cast_end_ms = r.cast_time_ms.unwrap_or_default() + gap_end_ms;
    fast_forward_to(cast_end_ms, &mut state, &game_params);
    cast_r(&mut state, &game_params, gap_end_ms);
}

#[test]
fn test_next_earliest_time_possible_for_with_void_assault_recast_ready() {
    let current_time_ms = 5_000;
    let mut state = State::new(current_time_ms);
    let game_params = khazix_params(false);

    cast_r(&mut state, &game_params, 2_500);
    let r = r_ability(&game_params);
    let cd_ms = *r.cooldown_ms.as_ref().unwrap().get(&3u64).unwrap();
    add_cooldown_to_state(&mut state, AttackType::R, cd_ms);

    let invis_end_ms = state.attacker_auras.get(Aura::Invisibility).unwrap().end_ms.unwrap();
    fast_forward_to(invis_end_ms, &mut state, &game_params);

    let gap_end_ms = state.attacker_auras.get(Aura::VoidAssaultDelay).unwrap().end_ms.unwrap();
    fast_forward_to(gap_end_ms, &mut state, &game_params);

    let possible_recast_end_ms =
        state.attacker_auras.get(Aura::VoidAssaultRecastReady).unwrap().end_ms.unwrap();

    // check that the ability can be recasted straight away at any time between the beginning
    // of VoidAssaultRecastReady to its end.
    for i in gap_end_ms..possible_recast_end_ms {
        fast_forward_to(i, &mut state, &game_params);
        let next_attack_time = next_earliest_time_possible_for(AttackType::R, &state, &game_params);
        assert_eq!(next_attack_time, i);
    }

    assert!(is_spell_off_cooldown(AttackType::R, &state));
    let cast_end_ms = r.cast_time_ms.unwrap_or_default() + state.time_ms;
    fast_forward_to(cast_end_ms, &mut state, &game_params);
    cast_r(&mut state, &game_params, gap_end_ms);
}

#[test]
fn test_next_earliest_time_possible_for_on_cooldown() {
    let current_time_ms = 5_000;
    let mut state = State::new(current_time_ms);
    let game_params = khazix_params(false);

    cast_r(&mut state, &game_params, current_time_ms);
    let r = r_ability(&game_params);
    let cd_ms = *r.cooldown_ms.as_ref().unwrap().get(&3u64).unwrap();
    add_cooldown_to_state(&mut state, AttackType::R, cd_ms + current_time_ms);

    let invis_end_ms = state.attacker_auras.get(Aura::Invisibility).unwrap().end_ms.unwrap();
    fast_forward_to(invis_end_ms, &mut state, &game_params);

    let gap_end_ms = state.attacker_auras.get(Aura::VoidAssaultDelay).unwrap().end_ms.unwrap();
    fast_forward_to(gap_end_ms, &mut state, &game_params);

    let possible_recast_end_ms =
        state.attacker_auras.get(Aura::VoidAssaultRecastReady).unwrap().end_ms.unwrap();
    fast_forward_to(possible_recast_end_ms, &mut state, &game_params);

    let next_attack_time = next_earliest_time_possible_for(AttackType::R, &state, &game_params);
    assert_eq!(next_attack_time, cd_ms + current_time_ms);

    fast_forward_to(next_attack_time, &mut state, &game_params);
    assert!(is_spell_off_cooldown(AttackType::R, &state));

    let cast_end_ms = r.cast_time_ms.unwrap_or_default() + gap_end_ms;
    fast_forward_to(cast_end_ms, &mut state, &game_params);
    cast_r(&mut state, &game_params, gap_end_ms);
}

#[test]
fn works() {
    let current_time_ms = 5_000;
    let state = State::new(current_time_ms);
    let game_params = khazix_params(false);
    let aa_cast_time = khazix_aa_cast_time_ms();

    let mut events = EventQueue::new();
    let mut commands = VecDeque::new();
    commands.push_back(AttackType::Q);
    commands.push_back(AttackType::AA);

    insert_next_attack_event(&mut events, &mut commands, &state, &game_params, aa_cast_time);

    assert_eq!(events.to_vec(), vec![start_event(current_time_ms, AttackType::Q)]);
    assert_eq!(commands, vec![AttackType::AA]);
}

#[test]
fn works_with_weaving_auto_attack() {
    let current_time_ms = 5_000;
    let mut state = State::new(current_time_ms);
    let game_params = khazix_params(true);
    let aa_cast_time = khazix_aa_cast_time_ms();

    add_cooldown_to_state(&mut state, AttackType::Q, current_time_ms + aa_cast_time);

    let mut events = EventQueue::new();
    let mut commands = VecDeque::new();
    commands.push_back(AttackType::Q);

    insert_next_attack_event(&mut events, &mut commands, &state, &game_params, aa_cast_time);

    assert_eq!(events.to_vec(), vec![start_event(current_time_ms, AttackType::AA)]);
    assert_eq!(commands, vec![AttackType::Q]);
}

#[test]
fn does_not_weave_auto_attack_if_not_enough_time() {
    let current_time_ms = 5_000;
    let mut state = State::new(current_time_ms);
    let game_params = khazix_params(true);
    let aa_cast_time = khazix_aa_cast_time_ms();

    let cooldown_end_ms = current_time_ms + aa_cast_time - 1;
    add_cooldown_to_state(&mut state, AttackType::Q, cooldown_end_ms);

    let mut events = EventQueue::new();
    let mut commands = VecDeque::new();
    commands.push_back(AttackType::Q);

    insert_next_attack_event(&mut events, &mut commands, &state, &game_params, aa_cast_time);

    assert_eq!(events.to_vec(), vec![start_event(cooldown_end_ms, AttackType::Q)]);
    assert_eq!(commands, Vec::<AttackType>::new());
}

#[test]
fn does_not_weave_auto_attack_with_another_auto() {
    let current_time_ms = 5_000;
    let mut state = State::new(current_time_ms);
    let game_params = khazix_params(true);
    let aa_cast_time = khazix_aa_cast_time_ms();

    let cooldown_end_ms = current_time_ms + aa_cast_time;
    add_cooldown_to_state(&mut state, AttackType::AA, cooldown_end_ms);

    let mut events = EventQueue::new();
    let mut commands = VecDeque::new();
    commands.push_back(AttackType::AA);

    insert_next_attack_event(&mut events, &mut commands, &state, &game_params, aa_cast_time);

    assert_eq!(events.to_vec(), vec![start_event(cooldown_end_ms, AttackType::AA)]);
    assert_eq!(commands, Vec::<AttackType>::new());
}
