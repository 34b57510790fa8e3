use std::cmp::Ordering;
use std::collections::VecDeque;

use league_sim::abilities::{pull_abilities_data, KhazixR, KhazixSpellTimings, ScriptedEffect};
use league_sim::attack::{e_spell_rank, q_spell_rank, r_spell_rank, w_spell_rank, AttackType};
use league_sim::builds::candidate_builds;
use league_sim::champions;
use league_sim::common::{
    compile_passive_effects, Aura, AuraApplication, Champion, CritHandlingChoice, DamageType,
    PassiveEffect,
};
use league_sim::config::Config;
use league_sim::event_steps::{advance_time, on_cast_end, on_cast_start, on_time_passed};
use league_sim::events::insert_attack_cast_end_event;
use league_sim::events::{Event, EventCategory, EventQueue};
use league_sim::guards::{
    can_end_cast, can_handle_post_damage, can_handle_pre_damage, can_move, can_queue_next_attack,
    can_refresh_at, can_start_auras_at, can_start_cast,
};
use league_sim::item_effects::{dark_harvest_trigger, DamageInfo, DamageProc, DamageSource};
use league_sim::items::{
    above_gold_cap, has_duplicate_hash_groups, has_item_group_duplicates, item_data_from_source,
    item_ids, keeps_client_entry, keeps_client_item, keeps_shop_item, pull_items_data, total_cost_of,
    without_free_price, Item, ItemData, ItemDataCdragon, ItemSource, Prices, Shop,
};
use league_sim::keyed::KeyedTable;
use league_sim::runes::{pull_runes, Rune};
use league_sim::simulation::{
    add_initial_auras, can_weave_auto_attack, has_item, start_run, GameParams, State,
};
use league_sim::text::parse_u64;

fn config_with(pairs: &[(&str, &str)]) -> Config {
    let mut config = Config::new();
    for (k, v) in pairs {
        config.insert(k.to_string(), v.to_string());
    }
    config
}

fn timings() -> KhazixSpellTimings {
    KhazixSpellTimings {
        q_cast_time_ms: 250,
        w_cast_time_ms: 250,
        q_cooldowns_s: vec![4, 4, 4, 4, 4],
        w_cooldowns_s: vec![9, 9, 9, 9, 9],
        e_cooldowns_s: vec![20, 18, 16, 14, 12],
        r_cooldowns_s: vec![100, 85, 70],
    }
}

fn params(config: Config, items: Vec<ItemData>, passive_effects: Vec<PassiveEffect>) -> GameParams {
    let mut config = config;
    if config.get("CHAMPION_KHAZIX_ISOLATED_TARGET").is_none() {
        config.insert("CHAMPION_KHAZIX_ISOLATED_TARGET".to_string(), "FALSE".to_string());
    }
    let abilities = pull_abilities_data(&config, &timings());
    GameParams {
        champion: Champion::Khazix,
        level: 18,
        items,
        initial_config: config,
        abilities,
        runes: Vec::new(),
        runes_data: pull_runes(),
        passive_effects,
        crit_handling: CritHandlingChoice::Min,
        initial_attacker_auras: Vec::new(),
        initial_target_auras: Vec::new(),
        start_time_ms: 0,
        capture_event_history: false,
        weave_auto_attacks: false,
    }
}

fn item(item: Item, id: u64, cost: u64, groups: &[&str], passives: Vec<PassiveEffect>) -> ItemData {
    ItemData {
        item,
        id,
        total_cost: cost,
        item_groups: groups.iter().map(|g| g.to_string()).collect(),
        passives,
    }
}

fn some_event(time_ms: u64) -> Event {
    Event {
        attack_type: None,
        category: EventCategory::AuraAttackerEnd,
        time_ms,
        passive_effect: None,
        aura: None,
    }
}

fn damage(source: DamageSource, ability: Option<AttackType>, damage_type: DamageType) -> DamageInfo {
    DamageInfo {
        damage_type,
        time_ms: 0,
        source,
        source_ability: ability,
        source_rune: None,
        source_item: None,
    }
}

fn aura_events(events: &EventQueue) -> Vec<(u64, EventCategory, Option<Aura>)> {
    events.to_vec().iter().map(|e| (e.time_ms, e.category, e.aura)).collect()
}

// ---------------------------------------------------------------- names and ranks

#[test]
fn attack_type_names_round_trip() {
    for at in [AttackType::AA, AttackType::Q, AttackType::W, AttackType::E, AttackType::R, AttackType::P] {
        assert_eq!(AttackType::from_str(at.name()), Some(at));
    }
    assert_eq!(AttackType::Q.name(), "Q");
    assert_eq!(AttackType::from_str("X"), None);
}

#[test]
fn item_names_round_trip() {
    for i in [Item::Eclipse, Item::Hubris, Item::VoltaicCyclosword, Item::BladeofTheRuinedKing] {
        assert_eq!(Item::from_string(i.to_string()), Some(i));
    }
    assert_eq!(Item::SpearofShojin.to_string(), "Spear of Shojin");
    assert_eq!(Item::from_string("Doran's Blade".to_string()), None);
}

#[test]
fn passive_effect_names_round_trip() {
    for e in [PassiveEffect::Carve, PassiveEffect::MistsEdge, PassiveEffect::LightshieldStrike, PassiveEffect::Energized] {
        assert_eq!(PassiveEffect::from_string(PassiveEffect::to_string(e)), Some(e));
    }
    assert_eq!(PassiveEffect::from_string("Haunt"), None);
    assert_eq!(PassiveEffect::to_string(PassiveEffect::DarkHarvest), "");
}

#[test]
fn execution_order_puts_firmament_first() {
    assert_eq!(PassiveEffect::execution_order(&PassiveEffect::Firmament, &PassiveEffect::MistsEdge), Ordering::Less);
    assert_eq!(PassiveEffect::execution_order(&PassiveEffect::Carve, &PassiveEffect::Eminence), Ordering::Equal);
    assert_eq!(PassiveEffect::execution_order(&PassiveEffect::Carve, &PassiveEffect::DarkHarvest), Ordering::Greater);
}

#[test]
fn spell_ranks_at_levels() {
    assert_eq!(q_spell_rank(1), 1);
    assert_eq!(q_spell_rank(4), 2);
    assert_eq!(q_spell_rank(18), 5);
    assert_eq!(w_spell_rank(1), 0);
    assert_eq!(w_spell_rank(12), 4);
    assert_eq!(e_spell_rank(2), 0);
    assert_eq!(e_spell_rank(17), 4);
    assert_eq!(e_spell_rank(18), 5);
    assert_eq!(r_spell_rank(5), 0);
    assert_eq!(r_spell_rank(6), 1);
    assert_eq!(r_spell_rank(11), 2);
    assert_eq!(r_spell_rank(18), 3);
    for l in 1..18u64 {
        assert!(q_spell_rank(l) <= q_spell_rank(l + 1));
        assert!(w_spell_rank(l) <= w_spell_rank(l + 1));
        assert!(e_spell_rank(l) <= e_spell_rank(l + 1));
        assert!(r_spell_rank(l) <= r_spell_rank(l + 1));
    }
}

#[test]
fn crit_handling_settings() {
    assert_eq!(CritHandlingChoice::from_setting("average"), Some(CritHandlingChoice::Avg));
    assert_eq!(CritHandlingChoice::from_setting("never"), Some(CritHandlingChoice::Min));
    assert_eq!(CritHandlingChoice::from_setting("always"), Some(CritHandlingChoice::Max));
    assert_eq!(CritHandlingChoice::from_setting("sometimes"), None);
}

#[test]
fn refreshed_state_schedules_nothing_in_the_past() {
    let gp = params(Config::new(), vec![], vec![]);
    let mut state = State::new(0);
    state.cooldowns.insert(AttackType::Q, 300);
    state.cooldowns.insert(AttackType::W, 900);
    state.time_ms = 500;
    state.refresh_cds_and_auras(&gp, &some_event(500), &mut EventQueue::new());
    for at in [AttackType::AA, AttackType::Q, AttackType::W, AttackType::E] {
        assert!(league_sim::simulation::next_earliest_time_possible_for(at, &state, &gp) >= 500);
    }
    assert_eq!(league_sim::simulation::next_earliest_time_possible_for(AttackType::W, &state, &gp), 900);
}

#[test]
fn champion_data_of_khazix() {
    let d = champions::get_base_champion_data(Champion::Khazix);
    assert_eq!(d.id, 121);
    assert_eq!(d.key, "Khazix");
    assert_eq!(d.attack_type, champions::AttackType::Melee);
    assert_eq!(champions::AttackType::from_str("RANGED"), champions::AttackType::Ranged);
    assert_eq!(champions::AdaptiveType::from_str("MAGIC_DAMAGE"), champions::AdaptiveType::Magic);
}

#[test]
fn rune_and_aura_effects() {
    assert_eq!(Rune::DarkHarvest.passive_effect(), Some(PassiveEffect::DarkHarvest));
    assert_eq!(Rune::AttackSpeed.passive_effect(), None);
    assert_eq!(Aura::SuddenImpactReady.passive_effects(), vec![PassiveEffect::SuddenImpact]);
    assert_eq!(Aura::Carve.passive_effects(), Vec::<PassiveEffect>::new());
    let r = pull_runes();
    assert_eq!(r.sudden_impact.buff_duration, 4000);
    assert_eq!(r.sudden_impact.cooldown, 10_000);
}

// ---------------------------------------------------------------- text and configuration

#[test]
fn parses_decimal_numbers() {
    assert_eq!(parse_u64("17"), Some(17));
    assert_eq!(parse_u64("+5"), Some(5));
    assert_eq!(parse_u64("18446744073709551615"), Some(u64::MAX));
    assert_eq!(parse_u64("18446744073709551616"), None);
    assert_eq!(parse_u64(""), None);
    assert_eq!(parse_u64("1a"), None);
    assert_eq!(parse_u64("-1"), None);
}

#[test]
fn configuration_reads_back_latest_write() {
    let mut config = Config::new();
    assert_eq!(config.get("A"), None);
    config.insert("A".to_string(), "1".to_string());
    config.insert("A".to_string(), "2".to_string());
    assert_eq!(config.get("A"), Some(&"2".to_string()));
    assert!(config.flag_or("B", true));
    assert!(!config.flag_or("B", false));
    config.insert("B".to_string(), "TRUE".to_string());
    assert!(config.flag_or("B", false));
}

#[test]
fn keyed_table_reads_back_writes() {
    let mut t: KeyedTable<AttackType, u64> = KeyedTable::new();
    assert!(!t.contains_key(AttackType::Q));
    t.insert(AttackType::Q, 7);
    t.insert(AttackType::R, 9);
    assert_eq!(t.get(AttackType::Q), Some(7));
    t.remove(AttackType::Q);
    assert_eq!(t.get(AttackType::Q), None);
    assert_eq!(t.get(AttackType::R), Some(9));
    t.retain_later_than(9);
    assert_eq!(t.get(AttackType::R), None);
}

// ---------------------------------------------------------------- event queue

#[test]
fn queue_pops_earliest_first() {
    let mut q = EventQueue::new();
    q.push(some_event(30));
    q.push(some_event(10));
    q.push(some_event(20));
    assert_eq!(q.len(), 3);
    assert_eq!(q.pop().unwrap().time_ms, 10);
    assert_eq!(q.pop().unwrap().time_ms, 20);
    assert_eq!(q.pop().unwrap().time_ms, 30);
    assert_eq!(q.pop(), None);
}

#[test]
fn queue_drops_aura_end_events() {
    let mut q = EventQueue::new();
    league_sim::events::insert_aura_attacker_end_event(&mut q, 5, Aura::Carve);
    league_sim::events::insert_aura_attacker_start_event(&mut q, 1, Aura::Carve);
    league_sim::events::insert_aura_attacker_end_event(&mut q, 7, Aura::Energized);
    q.remove_aura_events(EventCategory::AuraAttackerEnd, Aura::Carve);
    assert_eq!(
        aura_events(&q),
        vec![
            (1, EventCategory::AuraAttackerStart, Some(Aura::Carve)),
            (7, EventCategory::AuraAttackerEnd, Some(Aura::Energized)),
        ]
    );
}

// ---------------------------------------------------------------- items

#[test]
fn gold_cap_and_group_duplicates() {
    let a = item(Item::Eclipse, 1, 2800, &["Items/ItemGroups/Lifeline"], vec![]);
    let b = item(Item::Hubris, 2, 2900, &["Items/ItemGroups/Lifeline"], vec![]);
    let c = item(Item::Opportunity, 3, 2700, &[], vec![]);
    assert!(has_item_group_duplicates(&[&a, &b]));
    assert!(!has_item_group_duplicates(&[&a, &c]));
    assert!(!above_gold_cap(&[&a, &c], &5500));
    assert!(above_gold_cap(&[&a, &c], &5499));
}

fn source(id: u64, name: &str, total: i64, groups: &[&str], passives: &[&str]) -> ItemSource {
    ItemSource {
        id,
        name: name.to_string(),
        shop: Shop { prices: Some(Prices { total }), purchasable: true },
        cdragon: ItemDataCdragon {
            item_id: id as i64,
            m_item_groups: groups.iter().map(|g| g.to_string()).collect(),
        },
        passive_names: passives.iter().map(|p| p.to_string()).collect(),
    }
}

#[test]
fn item_data_from_its_description() {
    let src = source(
        6692,
        "Eclipse",
        2800,
        &["Items/ItemGroups/Default", "{abc}"],
        &["Ever Rising Moon", "Haunt"],
    );
    let d = item_data_from_source(&src);
    assert_eq!(d.item, Item::Eclipse);
    assert_eq!(d.id, 6692);
    assert_eq!(d.total_cost, 2800);
    assert_eq!(d.item_groups, vec!["{abc}".to_string()]);
    assert_eq!(d.passives, vec![PassiveEffect::EverRisingMoon]);
    let unknown = item_data_from_source(&source(1, "Doran's Blade", 450, &[], &[]));
    assert_eq!(unknown.item, Item::Unknown);
    assert_eq!(total_cost_of(&Shop { prices: None, purchasable: false }), 0);
}

#[test]
fn items_data_keyed_by_id() {
    let sources = vec![
        source(1, "Eclipse", 2800, &["{a}"], &[]),
        source(2, "Hubris", 2900, &["{b}"], &["Eminence"]),
    ];
    assert!(!has_duplicate_hash_groups(&sources));
    let map = pull_items_data(&sources);
    assert_eq!(map.len(), 2);
    assert_eq!(map[&2].item, Item::Hubris);
    assert_eq!(map[&2].passives, vec![PassiveEffect::Eminence]);
    let clashing = vec![source(1, "Eclipse", 0, &["{a}"], &[]), source(2, "Hubris", 0, &["{a}"], &[])];
    assert!(has_duplicate_hash_groups(&clashing));
}

#[test]
fn compiles_passive_effects_in_execution_order() {
    let items = vec![
        item(Item::SunderedSky, 1, 0, &[], vec![PassiveEffect::LightshieldStrike]),
        item(Item::BladeofTheRuinedKing, 2, 0, &[], vec![PassiveEffect::MistsEdge]),
        item(Item::BlackCleaver, 3, 0, &[], vec![PassiveEffect::Carve]),
    ];
    let mut gp = params(Config::new(), items, vec![]);
    gp.runes = vec![Rune::SuddenImpact, Rune::DarkHarvest];
    compile_passive_effects(&mut gp);
    assert_eq!(
        gp.passive_effects,
        vec![
            PassiveEffect::MistsEdge,
            PassiveEffect::DarkHarvest,
            PassiveEffect::LightshieldStrike,
            PassiveEffect::Carve,
            PassiveEffect::SuddenImpact,
        ]
    );
}

// ---------------------------------------------------------------- spell data

#[test]
fn khazix_spell_data() {
    let plain = pull_abilities_data(&config_with(&[("CHAMPION_KHAZIX_ISOLATED_TARGET", "FALSE")]), &timings());
    assert_eq!(plain.len(), 5);
    assert_eq!(plain[0].cooldown_ms.as_ref().unwrap()[&1], 4000);
    assert_eq!(plain[3].cooldown_ms.as_ref().unwrap()[&5], 12_000);
    assert_eq!(plain[4].cooldown_ms.as_ref().unwrap()[&3], 70_000);
    assert_eq!(plain[4].recast_charges, Some(1));
    let isolated = pull_abilities_data(
        &config_with(&[("CHAMPION_KHAZIX_ISOLATED_TARGET", "TRUE"), ("CHAMPION_KHAZIX_R_EVOLVED", "TRUE")]),
        &timings(),
    );
    assert_eq!(isolated[0].cooldown_ms.as_ref().unwrap()[&1], 2200);
    assert_eq!(isolated[1].variation_name, Some("Increased Damage".to_string()));
    assert_eq!(isolated[2].cooldown_ms.as_ref().unwrap()[&1], 9000);
    assert_eq!(isolated[4].recast_charges, Some(2));
}

#[test]
fn khazix_r_first_cast_and_recast() {
    let gp = params(config_with(&[("CHAMPION_KHAZIX_R_EVOLVED", "TRUE")]), vec![], vec![]);
    let r = KhazixR { base_duration: 1250, evolved_duration: 2000 };
    let mut state = State::new(1000);
    let mut events = EventQueue::new();
    r.on_effect(&mut state, &gp, &some_event(1000), &mut events);
    assert_eq!(state.recast_charges, vec![AttackType::R, AttackType::R]);
    assert_eq!(state.attacker_auras.get(Aura::Invisibility).unwrap().end_ms, Some(3000));
    assert!(state.attacker_auras.contains_key(Aura::UnseenThreat));

    state.cooldowns.insert(AttackType::R, 50_000);
    state.recast_ready.insert(AttackType::R, ());
    state.attacker_auras.insert(
        Aura::VoidAssaultRecastReady,
        AuraApplication { aura: Aura::VoidAssaultRecastReady, start_ms: 1000, end_ms: Some(13_000), stacks: None },
    );
    r.on_effect(&mut state, &gp, &some_event(1000), &mut events);
    assert_eq!(state.recast_charges, vec![AttackType::R]);
    assert!(!state.recast_ready.contains_key(AttackType::R));
    assert!(!state.attacker_auras.contains_key(Aura::VoidAssaultRecastReady));
}

// ---------------------------------------------------------------- simulation state

#[test]
fn refresh_ends_stealth_into_recast_cycle() {
    let gp = params(Config::new(), vec![], vec![]);
    let mut state = State::new(0);
    let mut events = EventQueue::new();
    state.recast_charges.push(AttackType::R);
    state.cooldowns.insert(AttackType::Q, 500);
    state.add_attacker_aura(Aura::Invisibility, Some(1000), None, &mut events);
    state.time_ms = 1000;
    state.refresh_cds_and_auras(&gp, &some_event(1000), &mut events);
    assert!(!state.cooldowns.contains_key(AttackType::Q));
    assert!(!state.attacker_auras.contains_key(Aura::Invisibility));
    assert_eq!(state.attacker_auras.get(Aura::VoidAssaultDelay).unwrap().end_ms, Some(3000));
    state.time_ms = 3000;
    state.refresh_cds_and_auras(&gp, &some_event(3000), &mut events);
    assert!(state.recast_ready.contains_key(AttackType::R));
    assert_eq!(state.attacker_auras.get(Aura::VoidAssaultRecastReady).unwrap().end_ms, Some(15_000));
}

#[test]
fn weaving_needs_the_auto_attack_to_end_in_time() {
    let gp = params(Config::new(), vec![], vec![]);
    let state = State::new(100);
    assert!(can_weave_auto_attack(&state, &gp, 400, 300));
    assert!(!can_weave_auto_attack(&state, &gp, 399, 300));
}

#[test]
fn initial_auras_from_items() {
    let items = vec![
        item(Item::Opportunity, 1, 0, &[], vec![]),
        item(Item::Hubris, 2, 0, &[], vec![]),
    ];
    let gp = params(config_with(&[("ITEM_HUBRIS_EMINENCE_STACKS", "12")]), items, vec![]);
    assert!(has_item(&gp.items, Item::Hubris));
    assert!(!has_item(&gp.items, Item::Eclipse));
    let mut state = State::new(0);
    let mut events = EventQueue::new();
    add_initial_auras(&gp, &mut state, &mut events);
    assert_eq!(state.attacker_auras.get(Aura::Preparation).unwrap().end_ms, Some(3000));
    let eminence = state.attacker_auras.get(Aura::HubrisEminence).unwrap();
    assert_eq!(eminence.stacks, Some(12));
    assert_eq!(eminence.end_ms, Some(90_000));
}

#[test]
fn run_starts_with_first_command() {
    let gp = params(Config::new(), vec![], vec![]);
    let mut commands = VecDeque::from(vec![AttackType::Q, AttackType::AA]);
    let (state, mut events) = start_run(&mut commands, &gp, 200);
    assert_eq!(state.time_ms, 0);
    assert_eq!(commands, vec![AttackType::AA]);
    let first = events.pop().unwrap();
    assert_eq!(first.attack_type, Some(AttackType::Q));
    assert_eq!(first.category, EventCategory::AttackCastStart);
}

#[test]
fn run_without_commands_queues_item_auras() {
    let items = vec![item(Item::Opportunity, 1, 0, &[], vec![])];
    let gp = params(Config::new(), items, vec![]);
    let mut commands: VecDeque<AttackType> = VecDeque::new();
    let (state, mut events) = start_run(&mut commands, &gp, 200);
    assert_eq!(state.time_ms, 0);
    assert!(commands.is_empty());
    let start = events.pop().unwrap();
    assert_eq!(start.category, EventCategory::AuraAttackerStart);
    assert_eq!(start.aura, Some(Aura::Preparation));
    assert_eq!(start.time_ms, 0);
    let end = events.pop().unwrap();
    assert_eq!(end.category, EventCategory::AuraAttackerEnd);
    assert_eq!(end.aura, Some(Aura::Preparation));
    assert_eq!(end.time_ms, 3000);
    assert!(events.pop().is_none());
}

#[test]
fn event_steps_advance_and_cast() {
    let gp = params(Config::new(), vec![], vec![PassiveEffect::Energized]);
    let mut state = State::new(0);
    let mut events = EventQueue::new();
    state.cooldowns.insert(AttackType::W, 100);

    let cast_start = Event {
        attack_type: Some(AttackType::Q),
        category: EventCategory::AttackCastStart,
        time_ms: 150,
        passive_effect: None,
        aura: None,
    };
    assert_eq!(advance_time(&cast_start, &mut events, &gp, &mut state), 150);
    assert_eq!(state.time_ms, 150);
    assert!(!state.cooldowns.contains_key(AttackType::W));
    assert_eq!(advance_time(&cast_start, &mut events, &gp, &mut state), 0);

    on_time_passed(&mut events, &gp, &mut state, 30);
    assert_eq!(state.attacker_auras.get(Aura::Energized).unwrap().stacks, Some(30));
    on_time_passed(&mut events, &gp, &mut state, 80);
    assert_eq!(state.attacker_auras.get(Aura::Energized).unwrap().stacks, Some(100));

    on_cast_start(&cast_start, &mut events, &gp, &mut state);
    insert_attack_cast_end_event(&cast_start, &mut events, state.time_ms + 250);
    assert!(state.is_casting);
    on_time_passed(&mut events, &gp, &mut state, 50);
    assert_eq!(state.attacker_auras.get(Aura::Energized).unwrap().stacks, Some(100));
    let mut end = None;
    while let Some(e) = events.pop() {
        if e.category == EventCategory::AttackCastEnd {
            end = Some(e);
        }
    }
    let end = end.unwrap();
    assert_eq!(end.time_ms, 400);
    assert_eq!(end.attack_type, Some(AttackType::Q));

    on_cast_end(&end, &mut events, &gp, &mut state);
    assert!(!state.is_casting);
}

#[test]
fn dash_makes_sudden_impact_ready() {
    let gp = params(Config::new(), vec![], vec![PassiveEffect::SuddenImpact]);
    let mut state = State::new(1000);
    let mut events = EventQueue::new();
    let e_end = Event {
        attack_type: Some(AttackType::E),
        category: EventCategory::AttackCastEnd,
        time_ms: 1000,
        passive_effect: None,
        aura: None,
    };
    on_cast_end(&e_end, &mut events, &gp, &mut state);
    assert_eq!(state.attacker_auras.get(Aura::SuddenImpactReady).unwrap().end_ms, Some(5000));
    let info = damage(DamageSource::Ability, Some(AttackType::E), DamageType::Physical);
    assert_eq!(Aura::SuddenImpactReady.on_post_damage(&info, &state), Some(DamageProc::SuddenImpact));
    gp.runes_data.sudden_impact.consume_buff(&mut state, &gp, &e_end, &mut events);
    assert!(!state.attacker_auras.contains_key(Aura::SuddenImpactReady));
    assert_eq!(state.effects_cooldowns.get(PassiveEffect::SuddenImpact), Some(11_000));
}

// ---------------------------------------------------------------- item effects

#[test]
fn voltaic_cyclosword_strikes_at_full_charge() {
    let gp = params(Config::new(), vec![], vec![PassiveEffect::Energized]);
    let mut state = State::new(0);
    let mut events = EventQueue::new();
    let aa = damage(DamageSource::Ability, Some(AttackType::AA), DamageType::Physical);
    let q = damage(DamageSource::Ability, Some(AttackType::Q), DamageType::Physical);
    assert_eq!(PassiveEffect::Energized.handle_on_pre_damage(&q, &mut state, &gp, &some_event(0), &mut events), None);
    assert!(!state.attacker_auras.contains_key(Aura::Energized));
    PassiveEffect::Energized.handle_on_pre_damage(&aa, &mut state, &gp, &some_event(0), &mut events);
    assert_eq!(state.attacker_auras.get(Aura::Energized).unwrap().stacks, Some(6));
    PassiveEffect::Energized.handle_on_movement(200, &mut state, &mut events);
    assert_eq!(state.attacker_auras.get(Aura::Energized).unwrap().stacks, Some(100));
    let r = PassiveEffect::Energized.handle_on_pre_damage(&aa, &mut state, &gp, &some_event(0), &mut events);
    assert_eq!(r, Some(DamageProc::Energized));
    assert!(!state.attacker_auras.contains_key(Aura::Energized));
}

#[test]
fn sundered_sky_marks_then_waits() {
    let gp = params(Config::new(), vec![], vec![]);
    let mut state = State::new(500);
    let mut events = EventQueue::new();
    let aa = damage(DamageSource::Ability, Some(AttackType::AA), DamageType::Physical);
    let ls = PassiveEffect::LightshieldStrike;
    assert_eq!(ls.handle_on_pre_damage(&aa, &mut state, &gp, &some_event(500), &mut events), None);
    assert!(state.target_auras.contains_key(Aura::LightshieldStrike));
    assert_eq!(state.effects_cooldowns.get(ls), Some(8500));
    state.target_auras.remove(Aura::LightshieldStrike);
    ls.handle_on_pre_damage(&aa, &mut state, &gp, &some_event(600), &mut events);
    assert!(!state.target_auras.contains_key(Aura::LightshieldStrike));
    ls.handle_on_post_damage(&aa, &mut state, &gp, &some_event(600), &mut events);
    assert!(!state.attacker_auras.contains_key(Aura::LightshieldStrike));
}

#[test]
fn blade_of_the_ruined_king_on_auto_attacks() {
    let gp = params(Config::new(), vec![], vec![]);
    let mut state = State::new(0);
    let mut events = EventQueue::new();
    let aa = damage(DamageSource::Ability, Some(AttackType::AA), DamageType::Physical);
    let w = damage(DamageSource::Ability, Some(AttackType::W), DamageType::Physical);
    let me = PassiveEffect::MistsEdge;
    assert_eq!(me.handle_on_pre_damage(&aa, &mut state, &gp, &some_event(0), &mut events), Some(DamageProc::MistsEdge));
    assert_eq!(me.handle_on_pre_damage(&w, &mut state, &gp, &some_event(0), &mut events), None);
    assert_eq!(
        PassiveEffect::DarkHarvest.handle_on_pre_damage(&w, &mut state, &gp, &some_event(0), &mut events),
        Some(DamageProc::DarkHarvest)
    );
}

#[test]
fn black_cleaver_stacks_up_to_five() {
    let gp = params(Config::new(), vec![], vec![]);
    let mut state = State::new(0);
    let mut events = EventQueue::new();
    let physical = damage(DamageSource::Ability, Some(AttackType::Q), DamageType::Physical);
    let magical = damage(DamageSource::Ability, Some(AttackType::Q), DamageType::Magical);
    PassiveEffect::Carve.handle_on_post_damage(&magical, &mut state, &gp, &some_event(0), &mut events);
    assert!(!state.target_auras.contains_key(Aura::Carve));
    for _ in 0..7 {
        PassiveEffect::Carve.handle_on_post_damage(&physical, &mut state, &gp, &some_event(0), &mut events);
    }
    let carve = state.target_auras.get(Aura::Carve).unwrap();
    assert_eq!(carve.stacks, Some(5));
    assert_eq!(carve.end_ms, Some(6000));
}

#[test]
fn spear_of_shojin_stacks_on_basic_spells() {
    let gp = params(Config::new(), vec![], vec![]);
    let mut state = State::new(0);
    let mut events = EventQueue::new();
    let aa = damage(DamageSource::Ability, Some(AttackType::AA), DamageType::Physical);
    let e = damage(DamageSource::Ability, Some(AttackType::E), DamageType::Physical);
    PassiveEffect::FocusedWill.handle_on_post_damage(&aa, &mut state, &gp, &some_event(0), &mut events);
    assert!(!state.attacker_auras.contains_key(Aura::FocusedWill));
    for _ in 0..6 {
        PassiveEffect::FocusedWill.handle_on_post_damage(&e, &mut state, &gp, &some_event(0), &mut events);
    }
    assert_eq!(state.attacker_auras.get(Aura::FocusedWill).unwrap().stacks, Some(4));
}

#[test]
fn eclipse_strikes_on_second_hit() {
    let gp = params(Config::new(), vec![], vec![]);
    let mut state = State::new(100);
    let mut events = EventQueue::new();
    let spell = damage(DamageSource::Ability, Some(AttackType::Q), DamageType::Physical);
    let passive = damage(DamageSource::ItemPassive, None, DamageType::Physical);
    let erm = PassiveEffect::EverRisingMoon;
    assert_eq!(erm.handle_on_post_damage(&passive, &mut state, &gp, &some_event(100), &mut events), None);
    assert!(!state.target_auras.contains_key(Aura::EverRisingMoon));
    assert_eq!(erm.handle_on_post_damage(&spell, &mut state, &gp, &some_event(100), &mut events), None);
    assert_eq!(state.target_auras.get(Aura::EverRisingMoon).unwrap().end_ms, Some(2100));
    assert_eq!(
        erm.handle_on_post_damage(&spell, &mut state, &gp, &some_event(100), &mut events),
        Some(DamageProc::EverRisingMoon)
    );
    assert!(!state.target_auras.contains_key(Aura::EverRisingMoon));
    assert_eq!(state.effects_cooldowns.get(erm), Some(6100));
    assert_eq!(erm.handle_on_post_damage(&spell, &mut state, &gp, &some_event(100), &mut events), None);
}

#[test]
fn the_collector_asks_for_execution_check() {
    let gp = params(Config::new(), vec![], vec![]);
    let mut state = State::new(0);
    let mut events = EventQueue::new();
    let spell = damage(DamageSource::Ability, Some(AttackType::Q), DamageType::Physical);
    let r = Item::TheCollector.handle_on_post_damage(&PassiveEffect::Death, &spell, &mut state, &gp, &some_event(0), &mut events);
    assert_eq!(r, Some(DamageProc::Death));
}

#[test]
fn unseen_threat_on_auto_attacks_only() {
    let mut state = State::new(0);
    let mut events = EventQueue::new();
    state.add_attacker_aura(Aura::UnseenThreat, None, None, &mut events);
    let aa = damage(DamageSource::Ability, Some(AttackType::AA), DamageType::Physical);
    let q = damage(DamageSource::Ability, Some(AttackType::Q), DamageType::Physical);
    assert_eq!(Aura::UnseenThreat.on_post_damage(&aa, &state), Some(DamageProc::UnseenThreat));
    assert_eq!(Aura::UnseenThreat.on_post_damage(&q, &state), None);
    assert_eq!(Aura::Carve.on_post_damage(&aa, &state), None);
}

#[test]
fn game_data_filters() {
    let ids = item_ids();
    assert_eq!(ids.len(), 29);
    assert_eq!(ids[0], 3158);
    assert_eq!(ids[28], 3153);
    assert!(keeps_shop_item(true, 6692, &ids));
    assert!(!keeps_shop_item(false, 6692, &ids));
    assert!(!keeps_shop_item(true, 1001, &ids));
    assert!(keeps_client_item("Items/6692", 6692, &ids));
    assert!(!keeps_client_item("Items/ItemGroups/Default", 6692, &ids));
    assert!(!keeps_client_item("Items/66a2", 6692, &ids));
    assert!(!keeps_client_item("Perks/6692", 6692, &ids));
    assert!(!keeps_client_item("Items/1001", 1001, &ids));
    assert!(keeps_client_entry(true, 6692, &ids));
    assert!(!keeps_client_entry(false, 6692, &ids));
    assert!(!keeps_client_entry(true, 1001, &ids));
    assert!(keeps_client_item("Items/", 6692, &ids));
    assert!(!keeps_client_item("Items/6692\n", 6692, &ids));
    assert!(keeps_client_item("Items/\u{0663}", 6692, &ids));
    let free = without_free_price(Shop { prices: Some(Prices { total: 0 }), purchasable: true });
    assert_eq!(free.prices, None);
    let paid = without_free_price(Shop { prices: Some(Prices { total: 3000 }), purchasable: true });
    assert_eq!(paid.prices, Some(Prices { total: 3000 }));
}

#[test]
fn auto_attack_ends_khazix_stealth() {
    let gp = params(Config::new(), vec![], vec![PassiveEffect::SuddenImpact]);
    let mut state = State::new(2000);
    let mut events = EventQueue::new();
    state.add_attacker_aura(Aura::Invisibility, Some(1250), None, &mut events);
    let aa_end = Event {
        attack_type: Some(AttackType::AA),
        category: EventCategory::AttackCastEnd,
        time_ms: 2000,
        passive_effect: None,
        aura: None,
    };
    on_cast_end(&aa_end, &mut events, &gp, &mut state);
    assert!(!state.attacker_auras.contains_key(Aura::Invisibility));
    assert_eq!(state.attacker_auras.get(Aura::SuddenImpactReady).unwrap().end_ms, Some(6000));
    let pending = aura_events(&events);
    assert!(pending.contains(&(2000, EventCategory::AuraAttackerEnd, Some(Aura::Invisibility))));
    assert!(!pending.contains(&(3250, EventCategory::AuraAttackerEnd, Some(Aura::Invisibility))));
}

#[test]
fn spell_cast_start_ends_khazix_stealth() {
    let gp = params(Config::new(), vec![], vec![]);
    let mut state = State::new(500);
    let mut events = EventQueue::new();
    state.add_attacker_aura(Aura::Invisibility, Some(1250), None, &mut events);
    let w_start = Event {
        attack_type: Some(AttackType::W),
        category: EventCategory::AttackCastStart,
        time_ms: 500,
        passive_effect: None,
        aura: None,
    };
    on_cast_start(&w_start, &mut events, &gp, &mut state);
    assert!(state.is_casting);
    assert!(!state.attacker_auras.contains_key(Aura::Invisibility));
    let aa_start = Event { attack_type: Some(AttackType::AA), ..w_start };
    let mut other = State::new(500);
    other.add_attacker_aura(Aura::Invisibility, Some(1250), None, &mut events);
    on_cast_start(&aa_start, &mut events, &gp, &mut other);
    assert!(other.attacker_auras.contains_key(Aura::Invisibility));
}

#[test]
fn dark_harvest_waits_out_its_cooldown() {
    let mut state = State::new(100);
    let mut events = EventQueue::new();
    assert!(dark_harvest_trigger(&mut state, &some_event(100), &mut events, 35_000));
    assert_eq!(state.effects_cooldowns.get(PassiveEffect::DarkHarvest), Some(35_100));
    let first = events.pop().unwrap();
    assert_eq!(first.category, EventCategory::PassiveTriggered);
    assert_eq!(first.passive_effect, Some(PassiveEffect::DarkHarvest));
    assert!(!dark_harvest_trigger(&mut state, &some_event(200), &mut events, 35_000));
    assert_eq!(events.len(), 0);
}

fn cast_event(attack_type: AttackType, category: EventCategory) -> Event {
    Event { attack_type: Some(attack_type), category, time_ms: 0, passive_effect: None, aura: None }
}

#[test]
fn step_guards() {
    let gp = params(Config::new(), vec![], vec![]);
    let mut no_data = params(Config::new(), vec![], vec![]);
    no_data.abilities = Vec::new();

    let mut stealthed = State::new(0);
    assert!(can_refresh_at(&stealthed, &no_data, 500));
    stealthed.attacker_auras.insert(
        Aura::Invisibility,
        AuraApplication { aura: Aura::Invisibility, start_ms: 0, end_ms: Some(1500), stacks: None },
    );
    assert!(can_refresh_at(&stealthed, &gp, 500));
    assert!(!can_refresh_at(&stealthed, &no_data, 500));
    assert!(!can_refresh_at(&stealthed, &gp, u64::MAX - 1000));

    let commands: VecDeque<AttackType> = VecDeque::new();
    assert!(can_queue_next_attack(&commands, &stealthed, &gp));
    let mut recast = State::new(0);
    recast.cooldowns.insert(AttackType::R, 20_000);
    recast.recast_charges.push(AttackType::R);
    let r_next = VecDeque::from(vec![AttackType::R]);
    assert!(can_queue_next_attack(&r_next, &recast, &gp));
    assert!(!can_queue_next_attack(&r_next, &recast, &no_data));

    assert!(can_start_auras_at(0, &gp));
    assert!(!can_start_auras_at(u64::MAX, &gp));

    let cast_end = cast_event(AttackType::Q, EventCategory::AttackCastEnd);
    assert!(can_end_cast(&cast_end, &State::new(0), &gp));
    assert!(!can_end_cast(&some_event(0), &State::new(0), &gp));
    assert!(!can_end_cast(&cast_end, &State::new(0), &no_data));
    assert!(can_end_cast(&cast_event(AttackType::AA, EventCategory::AttackCastEnd), &State::new(0), &no_data));

    let cast_start = cast_event(AttackType::Q, EventCategory::AttackCastStart);
    assert!(can_start_cast(&cast_start, &State::new(0), &gp));
    let mut on_cooldown = State::new(0);
    on_cooldown.cooldowns.insert(AttackType::Q, 4000);
    assert!(!can_start_cast(&cast_start, &on_cooldown, &gp));
    assert!(!can_start_cast(&cast_end, &State::new(0), &gp));

    let mut energized = State::new(0);
    energized.attacker_auras.insert(
        Aura::Energized,
        AuraApplication { aura: Aura::Energized, start_ms: 0, end_ms: None, stacks: Some(u64::MAX - 3) },
    );
    assert!(!can_handle_pre_damage(PassiveEffect::Energized, &energized, &some_event(0)));
    assert!(can_handle_pre_damage(PassiveEffect::MistsEdge, &energized, &some_event(0)));
    assert!(!can_move(&energized, 10));
    assert!(can_move(&State::new(0), 10));
    assert!(!can_handle_post_damage(PassiveEffect::EverRisingMoon, &State::new(0), &some_event(u64::MAX - 10)));
    assert!(can_handle_post_damage(PassiveEffect::Carve, &State::new(0), &some_event(0)));
}

#[test]
fn clock_follows_popped_events() {
    let gp = params(Config::new(), vec![], vec![]);
    let mut state = State::new(0);
    let mut events = EventQueue::new();
    events.push(some_event(300));
    events.push(some_event(100));
    events.push(some_event(200));
    let mut last = state.time_ms;
    while let Some(e) = events.pop() {
        assert!(can_refresh_at(&state, &gp, e.time_ms));
        advance_time(&e, &mut events, &gp, &mut state);
        assert_eq!(state.time_ms, e.time_ms);
        assert!(state.time_ms >= last);
        last = state.time_ms;
    }
    assert_eq!(last, 300);
}

fn catalogue() -> std::collections::HashMap<u64, ItemData> {
    let mut map = std::collections::HashMap::new();
    map.insert(1, item(Item::Eclipse, 1, 1000, &["G"], vec![]));
    map.insert(2, item(Item::Hubris, 2, 1000, &["G"], vec![]));
    map.insert(3, item(Item::Opportunity, 3, 3000, &[], vec![]));
    map.insert(4, item(Item::SeryldasGrudge, 4, 4500, &["H"], vec![]));
    map
}

#[test]
fn candidate_builds_follow_combination_order() {
    let map = catalogue();
    let ids = vec![1, 2, 3, 4];
    assert_eq!(
        candidate_builds(&ids, 2, &map, None),
        vec![vec![1, 3], vec![1, 4], vec![2, 3], vec![2, 4], vec![3, 4]]
    );
    assert_eq!(candidate_builds(&ids, 2, &map, Some(5000)), vec![vec![1, 3], vec![2, 3]]);
    assert_eq!(candidate_builds(&ids, 3, &map, None), vec![vec![1, 3, 4], vec![2, 3, 4]]);
    assert_eq!(candidate_builds(&ids, 0, &map, Some(0)), vec![Vec::<u64>::new()]);
    assert!(candidate_builds(&ids, 5, &map, None).is_empty());
    let with_unknown = vec![1, 99];
    assert!(candidate_builds(&with_unknown, 3, &map, None).is_empty());
}
