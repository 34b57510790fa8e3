use vstd::prelude::*;

use std::collections::HashMap;

use regex::Regex;

use crate::common::{effect_from_name, PassiveEffect};
use crate::text::str_eq;

verus! {

/// An item the simulator knows; `Unknown` stands for every other item.
#[derive(Clone, Copy, PartialEq, Eq, Structural, Debug)]
pub enum Item {
    Unknown,
    IonianBootsofLucidity,
    BerserkersGreaves,
    YoumuusGhostblade,
    Opportunity,
    EdgeofNight,
    SeryldasGrudge,
    ProfaneHydra,
    Eclipse,
    MawofMalmortius,
    UmbralGlaive,
    Hubris,
    DeathsDance,
    LordDominiksRegards,
    MortalReminder,
    ChempunkChainsword,
    BlackCleaver,
    TheCollector,
    Bloodthirster,
    VoltaicCyclosword,
    SerpentsFang,
    GuardianAngel,
    SpearofShojin,
    AxiomArc,
    SunderedSky,
    RavenousHydra,
    RanduinsOmen,
    FrozenHeart,
    Stridebreaker,
    BladeofTheRuinedKing,
}

/// The in-game name of an item; `Unknown` has the empty name.
pub open spec fn item_name(i: Item) -> Seq<char> {
    match i {
        Item::Unknown => ""@,
        Item::IonianBootsofLucidity => "Ionian Boots of Lucidity"@,
        Item::BerserkersGreaves => "Berserker's Greaves"@,
        Item::YoumuusGhostblade => "Youmuu's Ghostblade"@,
        Item::Opportunity => "Opportunity"@,
        Item::EdgeofNight => "Edge of Night"@,
        Item::SeryldasGrudge => "Serylda's Grudge"@,
        Item::ProfaneHydra => "Profane Hydra"@,
        Item::Eclipse => "Eclipse"@,
        Item::MawofMalmortius => "Maw of Malmortius"@,
        Item::UmbralGlaive => "Umbral Glaive"@,
        Item::Hubris => "Hubris"@,
        Item::DeathsDance => "Death's Dance"@,
        Item::LordDominiksRegards => "Lord Dominik's Regards"@,
        Item::MortalReminder => "Mortal Reminder"@,
        Item::ChempunkChainsword => "Chempunk Chainsword"@,
        Item::BlackCleaver => "Black Cleaver"@,
        Item::TheCollector => "The Collector"@,
        Item::Bloodthirster => "Bloodthirster"@,
        Item::VoltaicCyclosword => "Voltaic Cyclosword"@,
        Item::SerpentsFang => "Serpent's Fang"@,
        Item::GuardianAngel => "Guardian Angel"@,
        Item::SpearofShojin => "Spear of Shojin"@,
        Item::AxiomArc => "Axiom Arc"@,
        Item::SunderedSky => "Sundered Sky"@,
        Item::RavenousHydra => "Ravenous Hydra"@,
        Item::RanduinsOmen => "Randuin's Omen"@,
        Item::FrozenHeart => "Frozen Heart"@,
        Item::Stridebreaker => "Stridebreaker"@,
        Item::BladeofTheRuinedKing => "Blade of the Ruined King"@,
    }
}

/// The item with the given in-game name, if the simulator knows it.
pub open spec fn item_from_name(s: Seq<char>) -> Option<Item> {
    if s == "Ionian Boots of Lucidity"@ {
        Some(Item::IonianBootsofLucidity)
    } else if s == "Berserker's Greaves"@ {
        Some(Item::BerserkersGreaves)
    } else if s == "Youmuu's Ghostblade"@ {
        Some(Item::YoumuusGhostblade)
    } else if s == "Opportunity"@ {
        Some(Item::Opportunity)
    } else if s == "Edge of Night"@ {
        Some(Item::EdgeofNight)
    } else if s == "Serylda's Grudge"@ {
        Some(Item::SeryldasGrudge)
    } else if s == "Profane Hydra"@ {
        Some(Item::ProfaneHydra)
    } else if s == "Eclipse"@ {
        Some(Item::Eclipse)
    } else if s == "Maw of Malmortius"@ {
        Some(Item::MawofMalmortius)
    } else if s == "Umbral Glaive"@ {
        Some(Item::UmbralGlaive)
    } else if s == "Hubris"@ {
        Some(Item::Hubris)
    } else if s == "Death's Dance"@ {
        Some(Item::DeathsDance)
    } else if s == "Lord Dominik's Regards"@ {
        Some(Item::LordDominiksRegards)
    } else if s == "Mortal Reminder"@ {
        Some(Item::MortalReminder)
    } else if s == "Chempunk Chainsword"@ {
        Some(Item::ChempunkChainsword)
    } else if s == "Black Cleaver"@ {
        Some(Item::BlackCleaver)
    } else if s == "The Collector"@ {
        Some(Item::TheCollector)
    } else if s == "Bloodthirster"@ {
        Some(Item::Bloodthirster)
    } else if s == "Voltaic Cyclosword"@ {
        Some(Item::VoltaicCyclosword)
    } else if s == "Serpent's Fang"@ {
        Some(Item::SerpentsFang)
    } else if s == "Guardian Angel"@ {
        Some(Item::GuardianAngel)
    } else if s == "Spear of Shojin"@ {
        Some(Item::SpearofShojin)
    } else if s == "Axiom Arc"@ {
        Some(Item::AxiomArc)
    } else if s == "Sundered Sky"@ {
        Some(Item::SunderedSky)
    } else if s == "Ravenous Hydra"@ {
        Some(Item::RavenousHydra)
    } else if s == "Randuin's Omen"@ {
        Some(Item::RanduinsOmen)
    } else if s == "Frozen Heart"@ {
        Some(Item::FrozenHeart)
    } else if s == "Stridebreaker"@ {
        Some(Item::Stridebreaker)
    } else if s == "Blade of the Ruined King"@ {
        Some(Item::BladeofTheRuinedKing)
    } else {
        None
    }
}

impl Item {
    /// The item with the given in-game name, if the simulator knows it.
    pub fn from_string(string: String) -> (r: Option<Self>)
        ensures
            r == item_from_name(string@),
    {
        let s = string.as_str();
        if str_eq(s, "Ionian Boots of Lucidity") {
            Some(Item::IonianBootsofLucidity)
        } else if str_eq(s, "Berserker's Greaves") {
            Some(Item::BerserkersGreaves)
        } else if str_eq(s, "Youmuu's Ghostblade") {
            Some(Item::YoumuusGhostblade)
        } else if str_eq(s, "Opportunity") {
            Some(Item::Opportunity)
        } else if str_eq(s, "Edge of Night") {
            Some(Item::EdgeofNight)
        } else if str_eq(s, "Serylda's Grudge") {
            Some(Item::SeryldasGrudge)
        } else if str_eq(s, "Profane Hydra") {
            Some(Item::ProfaneHydra)
        } else if str_eq(s, "Eclipse") {
            Some(Item::Eclipse)
        } else if str_eq(s, "Maw of Malmortius") {
            Some(Item::MawofMalmortius)
        } else if str_eq(s, "Umbral Glaive") {
            Some(Item::UmbralGlaive)
        } else if str_eq(s, "Hubris") {
            Some(Item::Hubris)
        } else if str_eq(s, "Death's Dance") {
            Some(Item::DeathsDance)
        } else if str_eq(s, "Lord Dominik's Regards") {
            Some(Item::LordDominiksRegards)
        } else if str_eq(s, "Mortal Reminder") {
            Some(Item::MortalReminder)
        } else if str_eq(s, "Chempunk Chainsword") {
            Some(Item::ChempunkChainsword)
        } else if str_eq(s, "Black Cleaver") {
            Some(Item::BlackCleaver)
        } else if str_eq(s, "The Collector") {
            Some(Item::TheCollector)
        } else if str_eq(s, "Bloodthirster") {
            Some(Item::Bloodthirster)
        } else if str_eq(s, "Voltaic Cyclosword") {
            Some(Item::VoltaicCyclosword)
        } else if str_eq(s, "Serpent's Fang") {
            Some(Item::SerpentsFang)
        } else if str_eq(s, "Guardian Angel") {
            Some(Item::GuardianAngel)
        } else if str_eq(s, "Spear of Shojin") {
            Some(Item::SpearofShojin)
        } else if str_eq(s, "Axiom Arc") {
            Some(Item::AxiomArc)
        } else if str_eq(s, "Sundered Sky") {
            Some(Item::SunderedSky)
        } else if str_eq(s, "Ravenous Hydra") {
            Some(Item::RavenousHydra)
        } else if str_eq(s, "Randuin's Omen") {
            Some(Item::RanduinsOmen)
        } else if str_eq(s, "Frozen Heart") {
            Some(Item::FrozenHeart)
        } else if str_eq(s, "Stridebreaker") {
            Some(Item::Stridebreaker)
        } else if str_eq(s, "Blade of the Ruined King") {
            Some(Item::BladeofTheRuinedKing)
        } else {
            None
        }
    }

    /// The in-game name of the item (empty for `Unknown`).
    pub fn to_string(self) -> (r: String)
        ensures
            r@ == item_name(self),
    {
        let s: &str = match self {
            Item::Unknown => "",
            Item::IonianBootsofLucidity => "Ionian Boots of Lucidity",
            Item::BerserkersGreaves => "Berserker's Greaves",
            Item::YoumuusGhostblade => "Youmuu's Ghostblade",
            Item::Opportunity => "Opportunity",
            Item::EdgeofNight => "Edge of Night",
            Item::SeryldasGrudge => "Serylda's Grudge",
            Item::ProfaneHydra => "Profane Hydra",
            Item::Eclipse => "Eclipse",
            Item::MawofMalmortius => "Maw of Malmortius",
            Item::UmbralGlaive => "Umbral Glaive",
            Item::Hubris => "Hubris",
            Item::DeathsDance => "Death's Dance",
            Item::LordDominiksRegards => "Lord Dominik's Regards",
            Item::MortalReminder => "Mortal Reminder",
            Item::ChempunkChainsword => "Chempunk Chainsword",
            Item::BlackCleaver => "Black Cleaver",
            Item::TheCollector => "The Collector",
            Item::Bloodthirster => "Bloodthirster",
            Item::VoltaicCyclosword => "Voltaic Cyclosword",
            Item::SerpentsFang => "Serpent's Fang",
            Item::GuardianAngel => "Guardian Angel",
            Item::SpearofShojin => "Spear of Shojin",
            Item::AxiomArc => "Axiom Arc",
            Item::SunderedSky => "Sundered Sky",
            Item::RavenousHydra => "Ravenous Hydra",
            Item::RanduinsOmen => "Randuin's Omen",
            Item::FrozenHeart => "Frozen Heart",
            Item::Stridebreaker => "Stridebreaker",
            Item::BladeofTheRuinedKing => "Blade of the Ruined King",
        };
        s.to_owned()
    }
}

/// Reading back the name of a known item gives that item.
pub proof fn lemma_item_name_round_trip(i: Item)
    requires
        i != Item::Unknown,
    ensures
        item_from_name(item_name(i)) == Some(i),
{
    reveal_strlit("Ionian Boots of Lucidity");
    reveal_strlit("Berserker's Greaves");
    reveal_strlit("Youmuu's Ghostblade");
    reveal_strlit("Opportunity");
    reveal_strlit("Edge of Night");
    reveal_strlit("Serylda's Grudge");
    reveal_strlit("Profane Hydra");
    reveal_strlit("Eclipse");
    reveal_strlit("Maw of Malmortius");
    reveal_strlit("Umbral Glaive");
    reveal_strlit("Hubris");
    reveal_strlit("Death's Dance");
    reveal_strlit("Lord Dominik's Regards");
    reveal_strlit("Mortal Reminder");
    reveal_strlit("Chempunk Chainsword");
    reveal_strlit("Black Cleaver");
    reveal_strlit("The Collector");
    reveal_strlit("Bloodthirster");
    reveal_strlit("Voltaic Cyclosword");
    reveal_strlit("Serpent's Fang");
    reveal_strlit("Guardian Angel");
    reveal_strlit("Spear of Shojin");
    reveal_strlit("Axiom Arc");
    reveal_strlit("Sundered Sky");
    reveal_strlit("Ravenous Hydra");
    reveal_strlit("Randuin's Omen");
    reveal_strlit("Frozen Heart");
    reveal_strlit("Stridebreaker");
    reveal_strlit("Blade of the Ruined King");
    assert("Ionian Boots of Lucidity"@.len() == 24 && "Ionian Boots of Lucidity"@[0] == 'I' && "Ionian Boots of Lucidity"@[1] == 'o' && "Ionian Boots of Lucidity"@[2] == 'n');
    assert("Berserker's Greaves"@.len() == 19 && "Berserker's Greaves"@[0] == 'B' && "Berserker's Greaves"@[1] == 'e' && "Berserker's Greaves"@[2] == 'r');
    assert("Youmuu's Ghostblade"@.len() == 19 && "Youmuu's Ghostblade"@[0] == 'Y' && "Youmuu's Ghostblade"@[1] == 'o' && "Youmuu's Ghostblade"@[2] == 'u');
    assert("Opportunity"@.len() == 11 && "Opportunity"@[0] == 'O' && "Opportunity"@[1] == 'p' && "Opportunity"@[2] == 'p');
    assert("Edge of Night"@.len() == 13 && "Edge of Night"@[0] == 'E' && "Edge of Night"@[1] == 'd' && "Edge of Night"@[2] == 'g');
    assert("Serylda's Grudge"@.len() == 16 && "Serylda's Grudge"@[0] == 'S' && "Serylda's Grudge"@[1] == 'e' && "Serylda's Grudge"@[2] == 'r');
    assert("Profane Hydra"@.len() == 13 && "Profane Hydra"@[0] == 'P' && "Profane Hydra"@[1] == 'r' && "Profane Hydra"@[2] == 'o');
    assert("Eclipse"@.len() == 7 && "Eclipse"@[0] == 'E' && "Eclipse"@[1] == 'c' && "Eclipse"@[2] == 'l');
    assert("Maw of Malmortius"@.len() == 17 && "Maw of Malmortius"@[0] == 'M' && "Maw of Malmortius"@[1] == 'a' && "Maw of Malmortius"@[2] == 'w');
    assert("Umbral Glaive"@.len() == 13 && "Umbral Glaive"@[0] == 'U' && "Umbral Glaive"@[1] == 'm' && "Umbral Glaive"@[2] == 'b');
    assert("Hubris"@.len() == 6 && "Hubris"@[0] == 'H' && "Hubris"@[1] == 'u' && "Hubris"@[2] == 'b');
    assert("Death's Dance"@.len() == 13 && "Death's Dance"@[0] == 'D' && "Death's Dance"@[1] == 'e' && "Death's Dance"@[2] == 'a');
    assert("Lord Dominik's Regards"@.len() == 22 && "Lord Dominik's Regards"@[0] == 'L' && "Lord Dominik's Regards"@[1] == 'o' && "Lord Dominik's Regards"@[2] == 'r');
    assert("Mortal Reminder"@.len() == 15 && "Mortal Reminder"@[0] == 'M' && "Mortal Reminder"@[1] == 'o' && "Mortal Reminder"@[2] == 'r');
    assert("Chempunk Chainsword"@.len() == 19 && "Chempunk Chainsword"@[0] == 'C' && "Chempunk Chainsword"@[1] == 'h' && "Chempunk Chainsword"@[2] == 'e');
    assert("Black Cleaver"@.len() == 13 && "Black Cleaver"@[0] == 'B' && "Black Cleaver"@[1] == 'l' && "Black Cleaver"@[2] == 'a');
    assert("The Collector"@.len() == 13 && "The Collector"@[0] == 'T' && "The Collector"@[1] == 'h' && "The Collector"@[2] == 'e');
    assert("Bloodthirster"@.len() == 13 && "Bloodthirster"@[0] == 'B' && "Bloodthirster"@[1] == 'l' && "Bloodthirster"@[2] == 'o');
    assert("Voltaic Cyclosword"@.len() == 18 && "Voltaic Cyclosword"@[0] == 'V' && "Voltaic Cyclosword"@[1] == 'o' && "Voltaic Cyclosword"@[2] == 'l');
    assert("Serpent's Fang"@.len() == 14 && "Serpent's Fang"@[0] == 'S' && "Serpent's Fang"@[1] == 'e' && "Serpent's Fang"@[2] == 'r');
    assert("Guardian Angel"@.len() == 14 && "Guardian Angel"@[0] == 'G' && "Guardian Angel"@[1] == 'u' && "Guardian Angel"@[2] == 'a');
    assert("Spear of Shojin"@.len() == 15 && "Spear of Shojin"@[0] == 'S' && "Spear of Shojin"@[1] == 'p' && "Spear of Shojin"@[2] == 'e');
    assert("Axiom Arc"@.len() == 9 && "Axiom Arc"@[0] == 'A' && "Axiom Arc"@[1] == 'x' && "Axiom Arc"@[2] == 'i');
    assert("Sundered Sky"@.len() == 12 && "Sundered Sky"@[0] == 'S' && "Sundered Sky"@[1] == 'u' && "Sundered Sky"@[2] == 'n');
    assert("Ravenous Hydra"@.len() == 14 && "Ravenous Hydra"@[0] == 'R' && "Ravenous Hydra"@[1] == 'a' && "Ravenous Hydra"@[2] == 'v');
    assert("Randuin's Omen"@.len() == 14 && "Randuin's Omen"@[0] == 'R' && "Randuin's Omen"@[1] == 'a' && "Randuin's Omen"@[2] == 'n');
    assert("Frozen Heart"@.len() == 12 && "Frozen Heart"@[0] == 'F' && "Frozen Heart"@[1] == 'r' && "Frozen Heart"@[2] == 'o');
    assert("Stridebreaker"@.len() == 13 && "Stridebreaker"@[0] == 'S' && "Stridebreaker"@[1] == 't' && "Stridebreaker"@[2] == 'r');
    assert("Blade of the Ruined King"@.len() == 24 && "Blade of the Ruined King"@[0] == 'B' && "Blade of the Ruined King"@[1] == 'l' && "Blade of the Ruined King"@[2] == 'a');
}
/// What the simulator reads of an item: which item it is, its id and cost, the groups it
/// belongs to (two items of one group cannot be bought together) and its passive effects.
pub struct ItemData {
    pub item: Item,
    pub id: u64,
    pub total_cost: u64,
    pub item_groups: Vec<String>,
    pub passives: Vec<PassiveEffect>,
}

/// The item groups of the items, one after the other.
pub open spec fn all_item_groups(items: Seq<&ItemData>) -> Seq<Seq<char>>
    decreases items.len(),
{
    if items.len() == 0 {
        Seq::empty()
    } else {
        all_item_groups(items.drop_last()) + items.last().item_groups@.map_values(
            |g: String| g@,
        )
    }
}

/// Whether some value occurs twice in the sequence.
pub open spec fn has_duplicate(s: Seq<Seq<char>>) -> bool {
    exists|i: int, j: int| 0 <= i < j < s.len() && s[i] == s[j]
}

/// The summed cost of the items.
pub open spec fn build_cost(items: Seq<&ItemData>) -> int
    decreases items.len(),
{
    if items.len() == 0 {
        0
    } else {
        build_cost(items.drop_last()) + items.last().total_cost
    }
}

/// Whether two of the selected items belong to the same item group.
pub fn has_item_group_duplicates(selected_items: &[&ItemData]) -> (r: bool)
    ensures
        r == has_duplicate(all_item_groups(selected_items@)),
{
    let mut groups: Vec<String> = Vec::new();
    let mut i: usize = 0;
    while i < selected_items.len()
        invariant
            i <= selected_items@.len(),
            groups@.map_values(|g: String| g@) == all_item_groups(selected_items@.take(i as int)),
        decreases selected_items@.len() - i,
    {
        let item = selected_items[i];
        let ghost before = groups@.map_values(|g: String| g@);
        let mut j: usize = 0;
        while j < item.item_groups.len()
            invariant
                j <= item.item_groups@.len(),
                groups@.map_values(|g: String| g@) == before + item.item_groups@.take(
                    j as int,
                ).map_values(|g: String| g@),
            decreases item.item_groups@.len() - j,
        {
            let ghost g_old = groups@;
            let g = item.item_groups[j].clone();
            assert(g@ == item.item_groups@[j as int]@);
            groups.push(g);
            proof {
                assert(groups@ == g_old.push(g));
                assert(groups@.map_values(|g: String| g@) =~= g_old.map_values(|g: String| g@).push(g@));
                assert(item.item_groups@.take(j + 1).map_values(|g: String| g@) =~= item.item_groups@.take(
                    j as int,
                ).map_values(|g: String| g@).push(g@));
                assert(groups@.map_values(|g: String| g@) =~= before + item.item_groups@.take(
                    j + 1,
                ).map_values(|g: String| g@));
            }
            j = j + 1;
        }
        proof {
            assert(item.item_groups@.take(item.item_groups@.len() as int) =~= item.item_groups@);
            assert(selected_items@.take(i + 1).drop_last() =~= selected_items@.take(i as int));
        }
        i = i + 1;
    }
    proof {
        assert(selected_items@.take(selected_items@.len() as int) =~= selected_items@);
    }
    let ghost all = groups@.map_values(|g: String| g@);
    let mut a: usize = 0;
    while a < groups.len()
        invariant
            all == groups@.map_values(|g: String| g@),
            all == all_item_groups(selected_items@),
            a <= groups@.len(),
            forall|x: int, y: int| 0 <= x < a && x < y < groups@.len() ==> all[x] != all[y],
        decreases groups@.len() - a,
    {
        let mut b: usize = a + 1;
        while b < groups.len()
            invariant
                all == groups@.map_values(|g: String| g@),
                all == all_item_groups(selected_items@),
                a < groups@.len(),
                a + 1 <= b <= groups@.len(),
                forall|x: int, y: int| 0 <= x < a && x < y < groups@.len() ==> all[x] != all[y],
                forall|y: int| a < y < b ==> all[a as int] != all[y],
            decreases groups@.len() - b,
        {
            if groups[a] == groups[b] {
                assert(all[a as int] == all[b as int]);
                return true;
            }
            b = b + 1;
        }
        a = a + 1;
    }
    false
}

/// Whether the selected items cost more than the gold cap.
pub fn above_gold_cap(selected_items: &[&ItemData], gold_cap: &u64) -> (r: bool)
    ensures
        r == (build_cost(selected_items@) > *gold_cap),
{
    let mut total: u128 = 0;
    let mut i: usize = 0;
    while i < selected_items.len()
        invariant
            i <= selected_items@.len(),
            total == build_cost(selected_items@.take(i as int)),
            total <= i * 0xFFFF_FFFF_FFFF_FFFFu128,
        decreases selected_items@.len() - i,
    {
        proof {
            assert(selected_items@.take(i + 1).drop_last() =~= selected_items@.take(i as int));
        }
        total = total + selected_items[i].total_cost as u128;
        i = i + 1;
    }
    proof {
        assert(selected_items@.take(selected_items@.len() as int) =~= selected_items@);
    }
    total > *gold_cap as u128
}

/// The prices of an item in the shop data.
#[derive(Clone, Copy, PartialEq, Eq, Structural, Debug)]
pub struct Prices {
    pub total: i64,
}

/// The shop data of an item.
#[derive(Clone, Copy, PartialEq, Eq, Structural, Debug)]
pub struct Shop {
    pub prices: Option<Prices>,
    pub purchasable: bool,
}

/// The data of an item in the game client's files: its id and the item groups it
/// belongs to.
pub struct ItemDataCdragon {
    pub item_id: i64,
    pub m_item_groups: Vec<String>,
}

/// An active ability of an item in the shop data.
pub struct Active {
    pub unique: bool,
    pub name: Option<String>,
    pub effects: String,
    pub range: Option<u64>,
    pub cooldown: Option<String>,
}

/// The total cost of an item in its shop data (0 when no price is listed); the listed
/// total is read as an unsigned number.
pub open spec fn shop_total_cost(shop: Shop) -> u64 {
    match shop.prices {
        Some(p) => p.total as u64,
        None => 0,
    }
}

/// The total cost of an item in its shop data (0 when no price is listed).
pub fn total_cost_of(shop: &Shop) -> (r: u64)
    ensures
        r == shop_total_cost(*shop),
{
    match shop.prices {
        Some(p) => p.total as u64,
        None => 0,
    }
}

/// An item as the game data describes it, before the simulator reads it: its id, in-game
/// name, shop data, client data and the names of its passives.
pub struct ItemSource {
    pub id: u64,
    pub name: String,
    pub shop: Shop,
    pub cdragon: ItemDataCdragon,
    pub passive_names: Vec<String>,
}

/// The ids of the items the simulator considers.
pub fn item_ids() -> (r: Vec<u64>)
    ensures
        r@ == seq![
            3158u64, 3006, 3142, 6701, 3814, 6694, 6698, 6692, 3156, 3179, 6697, 6333, 3036,
            3033, 6609, 3071, 6676, 3072, 6699, 6695, 3026, 3161, 6696, 6610, 3074, 3143,
            3110, 6631, 3153,
        ],
{
    vec![
        3158, // Ionian Boots of Lucidity
        3006, // Berserker's Greaves
        3142, // Youmuu's Ghostblade
        6701, // Opportunity
        3814, // Edge of Night
        6694, // Serylda's Grudge
        6698, // Profane Hydra
        6692, // Eclipse
        3156, // Maw of Malmortius
        3179, // Umbral Glaive
        6697, // Hubris
        6333, // Death's Dance
        3036, // Lord Dominik's Regards
        3033, // Mortal Reminder
        6609, // Chempunk Chainsword
        3071, // Black Cleaver
        6676, // The Collector
        3072, // Bloodthirster
        6699, // Voltaic Cyclosword
        6695, // Serpent's Fang
        3026, // Guardian Angel
        3161, // Spear of Shojin
        6696, // Axiom Arc
        6610, // Sundered Sky
        3074, // Ravenous Hydra
        3143, // Randuin's Omen
        3110, // Frozen Heart
        6631, // Stridebreaker
        3153, // Blade of the Ruined King
    ]
}

/// Whether an item of the shop data is kept: it can be bought and it is one of the
/// considered items.
pub fn keeps_shop_item(purchasable: bool, id: u64, item_ids: &Vec<u64>) -> (r: bool)
    ensures
        r == (purchasable && item_ids@.contains(id)),
{
    if !purchasable {
        return false;
    }
    let mut i: usize = 0;
    while i < item_ids.len()
        invariant
            purchasable,
            i <= item_ids@.len(),
            forall|j: int| 0 <= j < i ==> item_ids@[j] != id,
        decreases item_ids@.len() - i,
    {
        if item_ids[i] == id {
            assert(item_ids@[i as int] == id);
            return true;
        }
        i = i + 1;
    }
    false
}

/// The shop data with a listed total of 0 read as no price at all.
pub fn without_free_price(shop: Shop) -> (r: Shop)
    requires
        shop.prices is Some,
    ensures
        r.purchasable == shop.purchasable,
        r.prices == (if shop.prices->Some_0.total == 0 {
            None
        } else {
            shop.prices
        }),
{
    match shop.prices {
        Some(p) => {
            if p.total == 0 {
                Shop { prices: None, purchasable: shop.purchasable }
            } else {
                shop
            }
        },
        None => shop,
    }
}

/// The prefix of the keys of item entries in the game client's data.
pub open spec fn item_key_prefix() -> Seq<char> {
    "Items/"@
}

/// Whether a character is an ASCII character other than a decimal digit.
pub open spec fn is_ascii_non_digit(c: char) -> bool {
    (c as u32) < 128 && !('0' <= c && c <= '9')
}

/// Whether a character is a decimal digit in the sense of the regex crate's `\d`: any
/// character of Unicode's decimal-digit category.
pub uninterp spec fn is_unicode_decimal_digit(c: char) -> bool;

/// Whether a key names an item: "Items/" followed by decimal digits only.
pub open spec fn names_item(key: Seq<char>) -> bool {
    &&& key.len() >= 6
    &&& key.take(6) == item_key_prefix()
    &&& forall|i: int| 6 <= i < key.len() ==> is_unicode_decimal_digit(#[trigger] key[i])
}

/// `Regex::new` and `Regex::is_match` of the regex crate, with the pattern `^Items\/\d*$`.
/// The pattern is anchored at both ends of the key, so a key matches exactly when it is
/// "Items/" followed by characters that `\d` accepts, and `\d` accepts the ASCII digits and
/// no other ASCII character. Which non-ASCII characters it accepts is the crate's Unicode
/// table, named here and not written out.
#[verifier::external_body]
fn matches_item_key(key: &str) -> (r: bool)
    ensures
        r == (key@.len() >= 6 && key@.take(6) == item_key_prefix() && forall|i: int|
            6 <= i < key@.len() ==> is_unicode_decimal_digit(#[trigger] key@[i])),
        r ==> forall|i: int| 6 <= i < key@.len() ==> !is_ascii_non_digit(#[trigger] key@[i]),
        (key@.len() >= 6 && key@.take(6) == item_key_prefix() && forall|i: int|
            6 <= i < key@.len() ==> '0' <= #[trigger] key@[i] <= '9') ==> r,
{
    Regex::new(r"^Items\/\d*$").unwrap().is_match(key)
}

/// Whether an entry of the game client's data is kept, given whether its key names an item:
/// the key must name an item and the item must be one of the considered items.
pub fn keeps_client_entry(key_matches: bool, item_id: u64, item_ids: &Vec<u64>) -> (r: bool)
    ensures
        r == (key_matches && item_ids@.contains(item_id)),
{
    key_matches && keeps_shop_item(true, item_id, item_ids)
}

/// Whether an entry of the game client's data is kept: its key names an item ("Items/"
/// and the item's number), and the item is one of the considered items.
pub fn keeps_client_item(key: &str, item_id: u64, item_ids: &Vec<u64>) -> (r: bool)
    ensures
        r == (names_item(key@) && item_ids@.contains(item_id)),
        r ==> key@.len() >= 6 && key@.take(6) == item_key_prefix() && item_ids@.contains(item_id)
            && forall|i: int| 6 <= i < key@.len() ==> !is_ascii_non_digit(#[trigger] key@[i]),
        (key@.len() >= 6 && key@.take(6) == item_key_prefix() && (forall|i: int|
            6 <= i < key@.len() ==> '0' <= #[trigger] key@[i] <= '9') && item_ids@.contains(item_id))
            ==> r,
{
    let key_matches = matches_item_key(key);
    keeps_client_entry(key_matches, item_id, item_ids)
}

/// The views of a list of strings.
pub open spec fn string_views(v: Seq<String>) -> Seq<Seq<char>> {
    v.map_values(|g: String| g@)
}

/// The item group every item belongs to, which says nothing about conflicts.
pub open spec fn is_default_group(g: Seq<char>) -> bool {
    g == "Items/ItemGroups/Default"@
}

/// An item group known only by its hash (the data writes it between braces).
pub open spec fn is_hash_group(g: Seq<char>) -> bool {
    g.len() > 0 && g[0] == '{'
}

/// The item groups that the simulator keeps: all but the default group.
pub open spec fn kept_groups(gs: Seq<Seq<char>>) -> Seq<Seq<char>> {
    gs.filter(|g: Seq<char>| !is_default_group(g))
}

/// The passive effects named, in order, skipping names the simulator does not model.
pub open spec fn passives_of(names: Seq<Seq<char>>) -> Seq<PassiveEffect>
    decreases names.len(),
{
    if names.len() == 0 {
        Seq::empty()
    } else {
        let prev = passives_of(names.drop_last());
        match effect_from_name(names.last()) {
            Some(e) => prev.push(e),
            None => prev,
        }
    }
}

/// The item an in-game name stands for (`Unknown` for a name the simulator does not know).
pub open spec fn item_or_unknown(name: Seq<char>) -> Item {
    match item_from_name(name) {
        Some(i) => i,
        None => Item::Unknown,
    }
}

/// Whether an item's data is what its description says.
pub open spec fn describes(d: ItemData, src: ItemSource) -> bool {
    &&& d.id == src.id
    &&& d.item == item_or_unknown(src.name@)
    &&& d.total_cost == shop_total_cost(src.shop)
    &&& string_views(d.item_groups@) == kept_groups(string_views(src.cdragon.m_item_groups@))
    &&& d.passives@ == passives_of(string_views(src.passive_names@))
}

/// The hash-only item groups of all the descriptions, one after the other.
pub open spec fn source_hash_groups(srcs: Seq<ItemSource>) -> Seq<Seq<char>>
    decreases srcs.len(),
{
    if srcs.len() == 0 {
        Seq::empty()
    } else {
        source_hash_groups(srcs.drop_last()) + string_views(srcs.last().cdragon.m_item_groups@).filter(
            |g: Seq<char>| is_hash_group(g),
        )
    }
}

/// Whether the description at `i` is the last one with its id.
pub open spec fn last_with_id(srcs: Seq<ItemSource>, i: int) -> bool {
    forall|j: int| i < j < srcs.len() ==> srcs[j].id != srcs[i].id
}

/// Whether a list of strings holds some string twice.
fn contains_duplicate(v: &Vec<String>) -> (r: bool)
    ensures
        r == has_duplicate(string_views(v@)),
{
    let ghost all = string_views(v@);
    let mut a: usize = 0;
    while a < v.len()
        invariant
            all == string_views(v@),
            a <= v@.len(),
            forall|x: int, y: int| 0 <= x < a && x < y < v@.len() ==> all[x] != all[y],
        decreases v@.len() - a,
    {
        let mut b: usize = a + 1;
        while b < v.len()
            invariant
                all == string_views(v@),
                a < v@.len(),
                a + 1 <= b <= v@.len(),
                forall|x: int, y: int| 0 <= x < a && x < y < v@.len() ==> all[x] != all[y],
                forall|y: int| a < y < b ==> all[a as int] != all[y],
            decreases v@.len() - b,
        {
            if v[a] == v[b] {
                assert(all[a as int] == all[b as int]);
                return true;
            }
            b = b + 1;
        }
        a = a + 1;
    }
    false
}

/// Whether a string starts with an opening brace.
fn starts_with_brace(g: &String) -> (r: bool)
    ensures
        r == is_hash_group(g@),
{
    let s = g.as_str();
    s.unicode_len() > 0 && s.get_char(0) == '{'
}

/// Whether some hash-only item group occurs twice among the descriptions, which would mean
/// that two different groups could not be told apart.
pub fn has_duplicate_hash_groups(sources: &Vec<ItemSource>) -> (r: bool)
    ensures
        r == has_duplicate(source_hash_groups(sources@)),
{
    let mut groups: Vec<String> = Vec::new();
    let mut i: usize = 0;
    while i < sources.len()
        invariant
            i <= sources@.len(),
            string_views(groups@) == source_hash_groups(sources@.take(i as int)),
        decreases sources@.len() - i,
    {
        let src = &sources[i];
        let ghost before = string_views(groups@);
        let ghost gs = string_views(src.cdragon.m_item_groups@);
        let mut j: usize = 0;
        while j < src.cdragon.m_item_groups.len()
            invariant
                j <= src.cdragon.m_item_groups@.len(),
                gs == string_views(src.cdragon.m_item_groups@),
                string_views(groups@) == before + gs.take(j as int).filter(
                    |g: Seq<char>| is_hash_group(g),
                ),
            decreases src.cdragon.m_item_groups@.len() - j,
        {
            let ghost g_old = groups@;
            proof {
                assert(gs.take(j + 1).drop_last() =~= gs.take(j as int));
                reveal(Seq::filter);
            }
            if starts_with_brace(&src.cdragon.m_item_groups[j]) {
                let g = src.cdragon.m_item_groups[j].clone();
                groups.push(g);
                proof {
                    assert(string_views(groups@) =~= string_views(g_old).push(g@));
                }
            }
            j = j + 1;
        }
        proof {
            assert(gs.take(gs.len() as int) =~= gs);
            assert(sources@.take(i + 1).drop_last() =~= sources@.take(i as int));
        }
        i = i + 1;
    }
    proof {
        assert(sources@.take(sources@.len() as int) =~= sources@);
    }
    contains_duplicate(&groups)
}

/// Reads an item's data from its description: the default item group is dropped, and of
/// its passives only those the simulator models are kept.
pub fn item_data_from_source(src: &ItemSource) -> (d: ItemData)
    ensures
        describes(d, *src),
{
    let ghost gs = string_views(src.cdragon.m_item_groups@);
    let mut item_groups: Vec<String> = Vec::new();
    let mut j: usize = 0;
    while j < src.cdragon.m_item_groups.len()
        invariant
            j <= src.cdragon.m_item_groups@.len(),
            gs == string_views(src.cdragon.m_item_groups@),
            string_views(item_groups@) == kept_groups(gs.take(j as int)),
        decreases src.cdragon.m_item_groups@.len() - j,
    {
        let ghost g_old = item_groups@;
        proof {
            assert(gs.take(j + 1).drop_last() =~= gs.take(j as int));
            reveal(Seq::filter);
        }
        let new_value = src.cdragon.m_item_groups[j].as_str();
        if !str_eq(new_value, "Items/ItemGroups/Default") {
            let g = src.cdragon.m_item_groups[j].clone();
            item_groups.push(g);
            proof {
                assert(string_views(item_groups@) =~= string_views(g_old).push(g@));
            }
        }
        j = j + 1;
    }
    proof {
        assert(gs.take(gs.len() as int) =~= gs);
    }
    let ghost ns = string_views(src.passive_names@);
    let mut passives: Vec<PassiveEffect> = Vec::new();
    let mut k: usize = 0;
    while k < src.passive_names.len()
        invariant
            k <= src.passive_names@.len(),
            ns == string_views(src.passive_names@),
            passives@ == passives_of(ns.take(k as int)),
        decreases src.passive_names@.len() - k,
    {
        proof {
            assert(ns.take(k + 1).drop_last() =~= ns.take(k as int));
        }
        match PassiveEffect::from_string(src.passive_names[k].as_str()) {
            Some(passive_effect) => passives.push(passive_effect),
            None => {},
        }
        k = k + 1;
    }
    proof {
        assert(ns.take(ns.len() as int) =~= ns);
    }
    let item = match Item::from_string(src.name.clone()) {
        Some(i) => i,
        None => Item::Unknown,
    };
    ItemData { item, id: src.id, total_cost: total_cost_of(&src.shop), item_groups, passives }
}

/// Reads the data of every described item, keyed by id (a later description of an id
/// replaces an earlier one). The descriptions must not share a hash-only item group.
pub fn pull_items_data(sources: &Vec<ItemSource>) -> (r: HashMap<u64, ItemData>)
    requires
        !has_duplicate(source_hash_groups(sources@)),
    ensures
        forall|id: u64|
            r@.contains_key(id) <==> exists|i: int| 0 <= i < sources@.len() && #[trigger] sources@[i].id == id,
        forall|i: int|
            0 <= i < sources@.len() && #[trigger] last_with_id(sources@, i) ==> describes(
                r@[sources@[i].id],
                sources@[i],
            ),
{
    broadcast use vstd::std_specs::hash::group_hash_axioms;

    let mut map: HashMap<u64, ItemData> = HashMap::new();
    let mut i: usize = 0;
    while i < sources.len()
        invariant
            i <= sources@.len(),
            forall|id: u64|
                map@.contains_key(id) <==> exists|k: int| 0 <= k < i && #[trigger] sources@[k].id == id,
            forall|k: int|
                0 <= k < i && (forall|j: int| k < j < i ==> sources@[j].id != sources@[k].id)
                    ==> describes(#[trigger] map@[sources@[k].id], sources@[k]),
        decreases sources@.len() - i,
    {
        let item = item_data_from_source(&sources[i]);
        let ghost id = sources@[i as int].id;
        map.insert(item.id, item);
        proof {
            assert forall|idx: u64|
                map@.contains_key(idx) <==> exists|k: int| 0 <= k < i + 1 && #[trigger] sources@[k].id == idx by {
                if map@.contains_key(idx) && idx != id {
                    let k = choose|k: int| 0 <= k < i && #[trigger] sources@[k].id == idx;
                }
                if idx == id {
                    assert(sources@[i as int].id == idx);
                }
            }
        }
        i = i + 1;
    }
    proof {
        assert forall|k: int|
            0 <= k < sources@.len() && #[trigger] last_with_id(sources@, k) implies describes(
                map@[sources@[k].id],
                sources@[k],
            ) by {
            assert(forall|j: int| k < j < sources@.len() ==> sources@[j].id != sources@[k].id);
        }
    }
    map
}

} // verus!
