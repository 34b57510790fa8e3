use vstd::prelude::*;

use core::cmp::Ordering;

use crate::items::ItemData;
use crate::keyed::SlotKey;
use crate::runes::{rune_passive_effect, Rune};
use crate::simulation::GameParams;
use crate::text::str_eq;

verus! {

/// The champions the simulator supports.
#[derive(Clone, Copy, PartialEq, Eq, Structural, Debug)]
pub enum Champion {
    Khazix,
}

/// How critical strikes are counted: never, always, or by their average.
#[derive(Clone, Copy, PartialEq, Eq, Structural, Debug)]
pub enum CritHandlingChoice {
    Min,
    Max,
    Avg,
}

/// The kind of damage dealt.
#[derive(Clone, Copy, PartialEq, Eq, Structural, Debug)]
pub enum DamageType {
    Physical,
    Magical,
    True,
    Unknown,
}

impl CritHandlingChoice {
    /// Reads the choice from its setting: "never" counts no critical strike, "always" counts
    /// every one, "average" counts their average; any other setting is refused.
    pub fn from_setting(s: &str) -> (r: Option<CritHandlingChoice>)
        ensures
            r == (if s@ == "average"@ {
                Some(CritHandlingChoice::Avg)
            } else if s@ == "never"@ {
                Some(CritHandlingChoice::Min)
            } else if s@ == "always"@ {
                Some(CritHandlingChoice::Max)
            } else {
                None
            }),
    {
        if str_eq(s, "average") {
            Some(CritHandlingChoice::Avg)
        } else if str_eq(s, "never") {
            Some(CritHandlingChoice::Min)
        } else if str_eq(s, "always") {
            Some(CritHandlingChoice::Max)
        } else {
            None
        }
    }
}

/// The unit an aura applies to.
#[derive(Clone, Copy, PartialEq, Eq, Structural, Debug)]
pub enum Unit {
    Attacker,
    Target,
}

/// A passive effect granted by an item or a rune.
#[derive(Clone, Copy, PartialEq, Eq, Structural, Debug, Hash)]
pub enum PassiveEffect {
    // Items
    Carve,
    EverRisingMoon,
    Eminence,
    IonianInsight,
    Preparation,
    DragonForce,
    FocusedWill,
    LightshieldStrike,
    Death,
    Energized,
    Galvanize,
    Firmament,
    MistsEdge,
    // Runes
    DarkHarvest,
    SuddenImpact,
}

/// Whether a passive effect comes from an item (as opposed to a rune).
pub open spec fn is_item_effect(e: PassiveEffect) -> bool {
    e != PassiveEffect::DarkHarvest && e != PassiveEffect::SuddenImpact
}

/// The in-game name of a passive effect; runes have the empty name.
pub open spec fn effect_name(e: PassiveEffect) -> Seq<char> {
    match e {
        PassiveEffect::Carve => "Carve"@,
        PassiveEffect::EverRisingMoon => "Ever Rising Moon"@,
        PassiveEffect::Eminence => "Eminence"@,
        PassiveEffect::IonianInsight => "Ionian Insight"@,
        PassiveEffect::Preparation => "Preparation"@,
        PassiveEffect::DragonForce => "Dragonforce"@,
        PassiveEffect::FocusedWill => "Focused Will"@,
        PassiveEffect::LightshieldStrike => "Lightshield Strike"@,
        PassiveEffect::Death => "Death"@,
        PassiveEffect::Energized => "Energized"@,
        PassiveEffect::Galvanize => "Galvanize"@,
        PassiveEffect::Firmament => "Firmament"@,
        PassiveEffect::MistsEdge => "Mist's Edge"@,
        PassiveEffect::DarkHarvest => ""@,
        PassiveEffect::SuddenImpact => ""@,
    }
}

/// The passive effect that the simulator models for an item passive of this name, if any;
/// every other item passive name is not modelled.
pub open spec fn effect_from_name(s: Seq<char>) -> Option<PassiveEffect> {
    if s == "Carve"@ {
        Some(PassiveEffect::Carve)
    } else if s == "Ever Rising Moon"@ {
        Some(PassiveEffect::EverRisingMoon)
    } else if s == "Eminence"@ {
        Some(PassiveEffect::Eminence)
    } else if s == "Ionian Insight"@ {
        Some(PassiveEffect::IonianInsight)
    } else if s == "Preparation"@ {
        Some(PassiveEffect::Preparation)
    } else if s == "Dragonforce"@ {
        Some(PassiveEffect::DragonForce)
    } else if s == "Focused Will"@ {
        Some(PassiveEffect::FocusedWill)
    } else if s == "Lightshield Strike"@ {
        Some(PassiveEffect::LightshieldStrike)
    } else if s == "Death"@ {
        Some(PassiveEffect::Death)
    } else if s == "Energized"@ {
        Some(PassiveEffect::Energized)
    } else if s == "Galvanize"@ {
        Some(PassiveEffect::Galvanize)
    } else if s == "Firmament"@ {
        Some(PassiveEffect::Firmament)
    } else if s == "Mist's Edge"@ {
        Some(PassiveEffect::MistsEdge)
    } else {
        None
    }
}

/// The rank that decides in which order passive effects are handled (lower first).
pub open spec fn execution_rank(e: PassiveEffect) -> u32 {
    match e {
        PassiveEffect::Firmament => 1,
        PassiveEffect::MistsEdge => 2,
        PassiveEffect::DarkHarvest => 3,
        PassiveEffect::LightshieldStrike => 4,
        _ => 5,
    }
}

/// Whether a passive effect is handled after all the others that have a place of their
/// own (Firmament, Mist's Edge, Dark Harvest, Lightshield Strike).
pub open spec fn handled_last(e: PassiveEffect) -> bool {
    e != PassiveEffect::Firmament && e != PassiveEffect::MistsEdge && e != PassiveEffect::DarkHarvest
        && e != PassiveEffect::LightshieldStrike
}

/// Passive effects are handled in this order: Firmament, then Mist's Edge, then Dark Harvest,
/// then Lightshield Strike, then every other effect (The Collector's Death among them), all
/// of those alike, so that they keep the order in which they were compiled.
pub proof fn lemma_execution_order(a: PassiveEffect, b: PassiveEffect)
    ensures
        execution_rank(PassiveEffect::Firmament) < execution_rank(PassiveEffect::MistsEdge),
        execution_rank(PassiveEffect::MistsEdge) < execution_rank(PassiveEffect::DarkHarvest),
        execution_rank(PassiveEffect::DarkHarvest) < execution_rank(PassiveEffect::LightshieldStrike),
        handled_last(a) ==> execution_rank(PassiveEffect::LightshieldStrike) < execution_rank(a),
        handled_last(a) && handled_last(b) ==> execution_rank(a) == execution_rank(b),
        execution_rank(a) == execution_rank(b) ==> a == b || (handled_last(a) && handled_last(b)),
{
}

impl PassiveEffect {
    /// The passive effect modelled for an item passive name; `None` for every name the
    /// simulator does not model.
    pub fn from_string(name: &str) -> (r: Option<PassiveEffect>)
        ensures
            r == effect_from_name(name@),
    {
        if str_eq(name, "Carve") {
            Some(PassiveEffect::Carve)
        } else if str_eq(name, "Ever Rising Moon") {
            Some(PassiveEffect::EverRisingMoon)
        } else if str_eq(name, "Eminence") {
            Some(PassiveEffect::Eminence)
        } else if str_eq(name, "Ionian Insight") {
            Some(PassiveEffect::IonianInsight)
        } else if str_eq(name, "Preparation") {
            Some(PassiveEffect::Preparation)
        } else if str_eq(name, "Dragonforce") {
            Some(PassiveEffect::DragonForce)
        } else if str_eq(name, "Focused Will") {
            Some(PassiveEffect::FocusedWill)
        } else if str_eq(name, "Lightshield Strike") {
            Some(PassiveEffect::LightshieldStrike)
        } else if str_eq(name, "Death") {
            Some(PassiveEffect::Death)
        } else if str_eq(name, "Energized") {
            Some(PassiveEffect::Energized)
        } else if str_eq(name, "Galvanize") {
            Some(PassiveEffect::Galvanize)
        } else if str_eq(name, "Firmament") {
            Some(PassiveEffect::Firmament)
        } else if str_eq(name, "Mist's Edge") {
            Some(PassiveEffect::MistsEdge)
        } else {
            None
        }
    }

    /// The in-game name of a passive effect (empty for rune effects).
    pub fn to_string(effect: PassiveEffect) -> (r: &'static str)
        ensures
            r@ == effect_name(effect),
    {
        match effect {
            PassiveEffect::Carve => "Carve",
            PassiveEffect::EverRisingMoon => "Ever Rising Moon",
            PassiveEffect::Eminence => "Eminence",
            PassiveEffect::IonianInsight => "Ionian Insight",
            PassiveEffect::Preparation => "Preparation",
            PassiveEffect::DragonForce => "Dragonforce",
            PassiveEffect::FocusedWill => "Focused Will",
            PassiveEffect::LightshieldStrike => "Lightshield Strike",
            PassiveEffect::Death => "Death",
            PassiveEffect::Energized => "Energized",
            PassiveEffect::Galvanize => "Galvanize",
            PassiveEffect::Firmament => "Firmament",
            PassiveEffect::MistsEdge => "Mist's Edge",
            PassiveEffect::DarkHarvest => "",
            PassiveEffect::SuddenImpact => "",
        }
    }

    /// The handling rank of this effect: Firmament, then Mist's Edge, then Dark Harvest,
    /// then Lightshield Strike, then every other effect.
    pub fn execution_rank(&self) -> (r: u32)
        ensures
            r == execution_rank(*self),
    {
        match self {
            PassiveEffect::Firmament => 1,
            PassiveEffect::MistsEdge => 2,
            PassiveEffect::DarkHarvest => 3,
            PassiveEffect::LightshieldStrike => 4,
            _ => 5,
        }
    }

    /// Compares two effects by the order in which they must be handled.
    pub fn execution_order(a: &Self, b: &Self) -> (r: Ordering)
        ensures
            r == (if execution_rank(*a) < execution_rank(*b) {
                Ordering::Less
            } else if execution_rank(*a) == execution_rank(*b) {
                Ordering::Equal
            } else {
                Ordering::Greater
            }),
    {
        let order_a = a.execution_rank();
        let order_b = b.execution_rank();
        if order_a < order_b {
            Ordering::Less
        } else if order_a == order_b {
            Ordering::Equal
        } else {
            Ordering::Greater
        }
    }
}

/// Reading back the name of an item passive effect gives that effect.
pub proof fn lemma_effect_name_round_trip(e: PassiveEffect)
    requires
        is_item_effect(e),
    ensures
        effect_from_name(effect_name(e)) == Some(e),
{
    reveal_strlit("Carve");
    reveal_strlit("Ever Rising Moon");
    reveal_strlit("Eminence");
    reveal_strlit("Ionian Insight");
    reveal_strlit("Preparation");
    reveal_strlit("Dragonforce");
    reveal_strlit("Focused Will");
    reveal_strlit("Lightshield Strike");
    reveal_strlit("Death");
    reveal_strlit("Energized");
    reveal_strlit("Galvanize");
    reveal_strlit("Firmament");
    reveal_strlit("Mist's Edge");
    assert("Carve"@.len() == 5 && "Carve"@[0] == 'C');
    assert("Ever Rising Moon"@.len() == 16 && "Ever Rising Moon"@[0] == 'E');
    assert("Eminence"@.len() == 8 && "Eminence"@[0] == 'E');
    assert("Ionian Insight"@.len() == 14 && "Ionian Insight"@[0] == 'I');
    assert("Preparation"@.len() == 11 && "Preparation"@[0] == 'P');
    assert("Dragonforce"@.len() == 11 && "Dragonforce"@[0] == 'D');
    assert("Focused Will"@.len() == 12 && "Focused Will"@[0] == 'F');
    assert("Lightshield Strike"@.len() == 18 && "Lightshield Strike"@[0] == 'L');
    assert("Death"@.len() == 5 && "Death"@[0] == 'D');
    assert("Energized"@.len() == 9 && "Energized"@[0] == 'E');
    assert("Galvanize"@.len() == 9 && "Galvanize"@[0] == 'G');
    assert("Firmament"@.len() == 9 && "Firmament"@[0] == 'F');
    assert("Mist's Edge"@.len() == 11 && "Mist's Edge"@[0] == 'M');
}

impl SlotKey for PassiveEffect {
    open spec fn index_of(self) -> nat {
        match self {
            PassiveEffect::Carve => 0,
            PassiveEffect::EverRisingMoon => 1,
            PassiveEffect::Eminence => 2,
            PassiveEffect::IonianInsight => 3,
            PassiveEffect::Preparation => 4,
            PassiveEffect::DragonForce => 5,
            PassiveEffect::FocusedWill => 6,
            PassiveEffect::LightshieldStrike => 7,
            PassiveEffect::Death => 8,
            PassiveEffect::Energized => 9,
            PassiveEffect::Galvanize => 10,
            PassiveEffect::Firmament => 11,
            PassiveEffect::MistsEdge => 12,
            PassiveEffect::DarkHarvest => 13,
            PassiveEffect::SuddenImpact => 14,
        }
    }

    open spec fn slot_count() -> nat {
        15
    }

    open spec fn key_of_slot(i: nat) -> PassiveEffect {
        if i == 0 {
            PassiveEffect::Carve
        } else if i == 1 {
            PassiveEffect::EverRisingMoon
        } else if i == 2 {
            PassiveEffect::Eminence
        } else if i == 3 {
            PassiveEffect::IonianInsight
        } else if i == 4 {
            PassiveEffect::Preparation
        } else if i == 5 {
            PassiveEffect::DragonForce
        } else if i == 6 {
            PassiveEffect::FocusedWill
        } else if i == 7 {
            PassiveEffect::LightshieldStrike
        } else if i == 8 {
            PassiveEffect::Death
        } else if i == 9 {
            PassiveEffect::Energized
        } else if i == 10 {
            PassiveEffect::Galvanize
        } else if i == 11 {
            PassiveEffect::Firmament
        } else if i == 12 {
            PassiveEffect::MistsEdge
        } else if i == 13 {
            PassiveEffect::DarkHarvest
        } else {
            PassiveEffect::SuddenImpact
        }
    }

    fn slot(self) -> (r: usize) {
        match self {
            PassiveEffect::Carve => 0,
            PassiveEffect::EverRisingMoon => 1,
            PassiveEffect::Eminence => 2,
            PassiveEffect::IonianInsight => 3,
            PassiveEffect::Preparation => 4,
            PassiveEffect::DragonForce => 5,
            PassiveEffect::FocusedWill => 6,
            PassiveEffect::LightshieldStrike => 7,
            PassiveEffect::Death => 8,
            PassiveEffect::Energized => 9,
            PassiveEffect::Galvanize => 10,
            PassiveEffect::Firmament => 11,
            PassiveEffect::MistsEdge => 12,
            PassiveEffect::DarkHarvest => 13,
            PassiveEffect::SuddenImpact => 14,
        }
    }

    fn slots() -> (n: usize) {
        15
    }

    fn from_slot(i: usize) -> (k: PassiveEffect) {
        if i == 0 {
            PassiveEffect::Carve
        } else if i == 1 {
            PassiveEffect::EverRisingMoon
        } else if i == 2 {
            PassiveEffect::Eminence
        } else if i == 3 {
            PassiveEffect::IonianInsight
        } else if i == 4 {
            PassiveEffect::Preparation
        } else if i == 5 {
            PassiveEffect::DragonForce
        } else if i == 6 {
            PassiveEffect::FocusedWill
        } else if i == 7 {
            PassiveEffect::LightshieldStrike
        } else if i == 8 {
            PassiveEffect::Death
        } else if i == 9 {
            PassiveEffect::Energized
        } else if i == 10 {
            PassiveEffect::Galvanize
        } else if i == 11 {
            PassiveEffect::Firmament
        } else if i == 12 {
            PassiveEffect::MistsEdge
        } else if i == 13 {
            PassiveEffect::DarkHarvest
        } else {
            PassiveEffect::SuddenImpact
        }
    }

    proof fn lemma_slots(k: PassiveEffect) {
    }
}

/// A buff or debuff that can be active on the attacker or on the target.
#[derive(Clone, Copy, PartialEq, Eq, Structural, Debug, Hash)]
pub enum Aura {
    SuddenImpactReady,
    Invisibility,
    UnseenThreat,
    VoidAssaultDelay,
    VoidAssaultRecastReady,
    Carve,
    EverRisingMoon,
    HubrisEminence,
    Preparation,
    FocusedWill,
    LightshieldStrike,
    Energized,
}

/// The passive effects whose handlers act while an aura is up: Sudden Impact's damage is
/// dealt while its readiness aura is up; no other aura carries an effect.
pub open spec fn aura_passive_effects(a: Aura) -> Seq<PassiveEffect> {
    match a {
        Aura::SuddenImpactReady => seq![PassiveEffect::SuddenImpact],
        _ => Seq::empty(),
    }
}

impl Aura {
    /// The passive effects whose handlers act while this aura is up.
    pub fn passive_effects(&self) -> (r: Vec<PassiveEffect>)
        ensures
            r@ == aura_passive_effects(*self),
    {
        match self {
            Aura::SuddenImpactReady => {
                let mut v = Vec::new();
                v.push(PassiveEffect::SuddenImpact);
                v
            },
            _ => Vec::new(),
        }
    }
}

impl SlotKey for Aura {
    open spec fn index_of(self) -> nat {
        match self {
            Aura::SuddenImpactReady => 0,
            Aura::Invisibility => 1,
            Aura::UnseenThreat => 2,
            Aura::VoidAssaultDelay => 3,
            Aura::VoidAssaultRecastReady => 4,
            Aura::Carve => 5,
            Aura::EverRisingMoon => 6,
            Aura::HubrisEminence => 7,
            Aura::Preparation => 8,
            Aura::FocusedWill => 9,
            Aura::LightshieldStrike => 10,
            Aura::Energized => 11,
        }
    }

    open spec fn slot_count() -> nat {
        12
    }

    open spec fn key_of_slot(i: nat) -> Aura {
        if i == 0 {
            Aura::SuddenImpactReady
        } else if i == 1 {
            Aura::Invisibility
        } else if i == 2 {
            Aura::UnseenThreat
        } else if i == 3 {
            Aura::VoidAssaultDelay
        } else if i == 4 {
            Aura::VoidAssaultRecastReady
        } else if i == 5 {
            Aura::Carve
        } else if i == 6 {
            Aura::EverRisingMoon
        } else if i == 7 {
            Aura::HubrisEminence
        } else if i == 8 {
            Aura::Preparation
        } else if i == 9 {
            Aura::FocusedWill
        } else if i == 10 {
            Aura::LightshieldStrike
        } else {
            Aura::Energized
        }
    }

    fn slot(self) -> (r: usize) {
        match self {
            Aura::SuddenImpactReady => 0,
            Aura::Invisibility => 1,
            Aura::UnseenThreat => 2,
            Aura::VoidAssaultDelay => 3,
            Aura::VoidAssaultRecastReady => 4,
            Aura::Carve => 5,
            Aura::EverRisingMoon => 6,
            Aura::HubrisEminence => 7,
            Aura::Preparation => 8,
            Aura::FocusedWill => 9,
            Aura::LightshieldStrike => 10,
            Aura::Energized => 11,
        }
    }

    fn slots() -> (n: usize) {
        12
    }

    fn from_slot(i: usize) -> (k: Aura) {
        if i == 0 {
            Aura::SuddenImpactReady
        } else if i == 1 {
            Aura::Invisibility
        } else if i == 2 {
            Aura::UnseenThreat
        } else if i == 3 {
            Aura::VoidAssaultDelay
        } else if i == 4 {
            Aura::VoidAssaultRecastReady
        } else if i == 5 {
            Aura::Carve
        } else if i == 6 {
            Aura::EverRisingMoon
        } else if i == 7 {
            Aura::HubrisEminence
        } else if i == 8 {
            Aura::Preparation
        } else if i == 9 {
            Aura::FocusedWill
        } else if i == 10 {
            Aura::LightshieldStrike
        } else {
            Aura::Energized
        }
    }

    proof fn lemma_slots(k: Aura) {
    }
}

/// An aura as applied: when it started, when it ends (never, when `None`) and its stacks.
#[derive(Clone, Copy, PartialEq, Eq, Structural, Debug)]
pub struct AuraApplication {
    pub aura: Aura,
    pub start_ms: u64,
    pub end_ms: Option<u64>,
    pub stacks: Option<u64>,
}

} // verus!

verus! {

/// The passive effects of the items, item after item.
pub open spec fn item_effects(items: Seq<ItemData>) -> Seq<PassiveEffect>
    decreases items.len(),
{
    if items.len() == 0 {
        Seq::empty()
    } else {
        item_effects(items.drop_last()) + items.last().passives@
    }
}

/// The passive effects of the runes that bring one, rune after rune.
pub open spec fn rune_effects(runes: Seq<Rune>) -> Seq<PassiveEffect>
    decreases runes.len(),
{
    if runes.len() == 0 {
        Seq::empty()
    } else {
        rune_effects(runes.drop_last()) + match rune_passive_effect(runes.last()) {
            Some(e) => seq![e],
            None => Seq::empty(),
        }
    }
}

/// The effects of the given handling rank, in their order.
pub open spec fn with_rank(s: Seq<PassiveEffect>, r: u32) -> Seq<PassiveEffect> {
    s.filter(|e: PassiveEffect| execution_rank(e) == r)
}

/// The effects stably sorted by handling rank: rank by rank, each rank in its order.
pub open spec fn sorted_by_execution_order(s: Seq<PassiveEffect>) -> Seq<PassiveEffect> {
    with_rank(s, 1) + with_rank(s, 2) + with_rank(s, 3) + with_rank(s, 4) + with_rank(s, 5)
}

/// Appends to `out` the effects of `s` of the given rank, in their order.
fn append_with_rank(out: &mut Vec<PassiveEffect>, s: &Vec<PassiveEffect>, r: u32)
    ensures
        final(out)@ == old(out)@ + with_rank(s@, r),
{
    let ghost o = old(out)@;
    let mut i: usize = 0;
    while i < s.len()
        invariant
            i <= s@.len(),
            out@ == o + with_rank(s@.take(i as int), r),
        decreases s@.len() - i,
    {
        let e = s[i];
        proof {
            assert(s@.take(i + 1).drop_last() =~= s@.take(i as int));
            assert(s@.take(i + 1).last() == e);
            reveal(Seq::filter);
        }
        if e.execution_rank() == r {
            out.push(e);
        }
        proof {
            assert(out@ =~= o + with_rank(s@.take(i + 1), r));
        }
        i = i + 1;
    }
    proof {
        assert(s@.take(s@.len() as int) =~= s@);
    }
}

/// Collects the passive effects of the items and of the runes, sorts them by the order in
/// which they must be handled (keeping the order of effects of equal rank) and appends them
/// to the game parameters' effects.
pub fn compile_passive_effects(game_params: &mut GameParams)
    ensures
        final(game_params).passive_effects@ == old(game_params).passive_effects@
            + sorted_by_execution_order(
            item_effects(old(game_params).items@) + rune_effects(old(game_params).runes@),
        ),
        final(game_params).items@ == old(game_params).items@,
        final(game_params).runes@ == old(game_params).runes@,
        final(game_params).champion == old(game_params).champion,
        final(game_params).level == old(game_params).level,
        final(game_params).initial_config@ == old(game_params).initial_config@,
        final(game_params).abilities@ == old(game_params).abilities@,
        final(game_params).runes_data == old(game_params).runes_data,
        final(game_params).crit_handling == old(game_params).crit_handling,
        final(game_params).initial_attacker_auras@ == old(game_params).initial_attacker_auras@,
        final(game_params).initial_target_auras@ == old(game_params).initial_target_auras@,
        final(game_params).start_time_ms == old(game_params).start_time_ms,
        final(game_params).capture_event_history == old(game_params).capture_event_history,
        final(game_params).weave_auto_attacks == old(game_params).weave_auto_attacks,
{
    let mut collected: Vec<PassiveEffect> = Vec::new();
    let mut i: usize = 0;
    while i < game_params.items.len()
        invariant
            i <= game_params.items@.len(),
            collected@ == item_effects(game_params.items@.take(i as int)),
        decreases game_params.items@.len() - i,
    {
        let item = &game_params.items[i];
        let ghost before = collected@;
        let mut j: usize = 0;
        while j < item.passives.len()
            invariant
                j <= item.passives@.len(),
                collected@ == before + item.passives@.take(j as int),
            decreases item.passives@.len() - j,
        {
            collected.push(item.passives[j]);
            proof {
                assert(collected@ =~= before + item.passives@.take(j + 1));
            }
            j = j + 1;
        }
        proof {
            assert(item.passives@.take(item.passives@.len() as int) =~= item.passives@);
            assert(game_params.items@.take(i + 1).drop_last() =~= game_params.items@.take(i as int));
        }
        i = i + 1;
    }
    proof {
        assert(game_params.items@.take(game_params.items@.len() as int) =~= game_params.items@);
    }
    let ghost from_items = collected@;
    let mut k: usize = 0;
    while k < game_params.runes.len()
        invariant
            k <= game_params.runes@.len(),
            collected@ == from_items + rune_effects(game_params.runes@.take(k as int)),
        decreases game_params.runes@.len() - k,
    {
        proof {
            assert(game_params.runes@.take(k + 1).drop_last() =~= game_params.runes@.take(k as int));
        }
        match game_params.runes[k].passive_effect() {
            Some(e) => {
                collected.push(e);
            },
            None => {},
        }
        proof {
            assert(collected@ =~= from_items + rune_effects(game_params.runes@.take(k + 1)));
        }
        k = k + 1;
    }
    proof {
        assert(game_params.runes@.take(game_params.runes@.len() as int) =~= game_params.runes@);
    }
    append_with_rank(&mut game_params.passive_effects, &collected, 1);
    append_with_rank(&mut game_params.passive_effects, &collected, 2);
    append_with_rank(&mut game_params.passive_effects, &collected, 3);
    append_with_rank(&mut game_params.passive_effects, &collected, 4);
    append_with_rank(&mut game_params.passive_effects, &collected, 5);
    proof {
        assert(game_params.passive_effects@ =~= old(game_params).passive_effects@
            + sorted_by_execution_order(collected@));
    }
}

/// Every effect of a sequence keeps the rank it is kept for.
proof fn lemma_with_rank_members(s: Seq<PassiveEffect>, r: u32)
    ensures
        forall|i: int| 0 <= i < with_rank(s, r).len() ==> execution_rank(#[trigger] with_rank(s, r)[i]) == r,
{
    broadcast use vstd::seq_lib::group_filter_ensures;
}

/// Compiled effects come out in handling order: an effect of lower rank is never handled
/// after one of higher rank.
pub proof fn lemma_sorted_by_execution_order(s: Seq<PassiveEffect>)
    ensures
        forall|i: int, j: int|
            0 <= i <= j < sorted_by_execution_order(s).len() ==> execution_rank(
                sorted_by_execution_order(s)[i],
            ) <= execution_rank(sorted_by_execution_order(s)[j]),
{
    lemma_with_rank_members(s, 1);
    lemma_with_rank_members(s, 2);
    lemma_with_rank_members(s, 3);
    lemma_with_rank_members(s, 4);
    lemma_with_rank_members(s, 5);
    let a = with_rank(s, 1);
    let b = with_rank(s, 2);
    let c = with_rank(s, 3);
    let d = with_rank(s, 4);
    let e = with_rank(s, 5);
    let t = sorted_by_execution_order(s);
    assert forall|i: int| 0 <= i < t.len() implies execution_rank(#[trigger] t[i]) == (if i
        < a.len() {
        1u32
    } else if i < a.len() + b.len() {
        2u32
    } else if i < a.len() + b.len() + c.len() {
        3u32
    } else if i < a.len() + b.len() + c.len() + d.len() {
        4u32
    } else {
        5u32
    }) by {
        if i < a.len() {
            assert(t[i] == a[i]);
        } else if i < a.len() + b.len() {
            assert(t[i] == b[i - a.len()]);
        } else if i < a.len() + b.len() + c.len() {
            assert(t[i] == c[i - a.len() - b.len()]);
        } else if i < a.len() + b.len() + c.len() + d.len() {
            assert(t[i] == d[i - a.len() - b.len() - c.len()]);
        } else {
            assert(t[i] == e[i - a.len() - b.len() - c.len() - d.len()]);
        }
    }
}

/// The effects of a rank once an effect is added at the end.
proof fn lemma_with_rank_push(t: Seq<PassiveEffect>, x: PassiveEffect, r: u32)
    ensures
        with_rank(t.push(x), r) == (if execution_rank(x) == r {
            with_rank(t, r).push(x)
        } else {
            with_rank(t, r)
        }),
{
    t.lemma_filter_push(x, |e: PassiveEffect| execution_rank(e) == r);
}

/// Compiling the passive effects neither loses nor adds any: the sorted effects are the
/// collected ones, each as many times.
pub proof fn lemma_sorted_is_permutation(s: Seq<PassiveEffect>)
    ensures
        sorted_by_execution_order(s).to_multiset() =~= s.to_multiset(),
    decreases s.len(),
{
    broadcast use vstd::seq_lib::group_to_multiset_ensures, vstd::seq_lib::lemma_multiset_commutative;
    broadcast use vstd::multiset::group_multiset_axioms;

    if s.len() == 0 {
        assert(with_rank(s, 1) =~= Seq::<PassiveEffect>::empty());
        assert(with_rank(s, 2) =~= Seq::<PassiveEffect>::empty());
        assert(with_rank(s, 3) =~= Seq::<PassiveEffect>::empty());
        assert(with_rank(s, 4) =~= Seq::<PassiveEffect>::empty());
        assert(with_rank(s, 5) =~= Seq::<PassiveEffect>::empty());
        assert(sorted_by_execution_order(s) =~= Seq::<PassiveEffect>::empty());
    } else {
        let t = s.drop_last();
        let x = s.last();
        assert(s =~= t.push(x));
        lemma_sorted_is_permutation(t);
        lemma_with_rank_push(t, x, 1);
        lemma_with_rank_push(t, x, 2);
        lemma_with_rank_push(t, x, 3);
        lemma_with_rank_push(t, x, 4);
        lemma_with_rank_push(t, x, 5);
        let a = with_rank(t, 1);
        let b = with_rank(t, 2);
        let c = with_rank(t, 3);
        let d = with_rank(t, 4);
        let e = with_rank(t, 5);
        assert(sorted_by_execution_order(t).to_multiset() =~= a.to_multiset().add(
            b.to_multiset(),
        ).add(c.to_multiset()).add(d.to_multiset()).add(e.to_multiset()));
        assert(sorted_by_execution_order(s).to_multiset() =~= with_rank(s, 1).to_multiset().add(
            with_rank(s, 2).to_multiset(),
        ).add(with_rank(s, 3).to_multiset()).add(with_rank(s, 4).to_multiset()).add(
            with_rank(s, 5).to_multiset(),
        ));
    }
}

} // verus!
