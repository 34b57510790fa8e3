use vstd::prelude::*;

use crate::common::Champion;
use crate::text::str_eq;

verus! {

/// Whether a champion attacks in melee or at range.
#[derive(Clone, Copy, PartialEq, Eq, Structural, Debug)]
pub enum AttackType {
    Melee,
    Ranged,
}

/// Which damage type a champion's adaptive stats convert to.
#[derive(Clone, Copy, PartialEq, Eq, Structural, Debug)]
pub enum AdaptiveType {
    Physical,
    Magic,
}

/// Whether `s` names an attack type of the game data.
pub open spec fn is_attack_type_name(s: Seq<char>) -> bool {
    s == "MELEE"@ || s == "RANGED"@
}

/// Whether `s` names an adaptive type of the game data.
pub open spec fn is_adaptive_type_name(s: Seq<char>) -> bool {
    s == "PHYSICAL_DAMAGE"@ || s == "MAGIC_DAMAGE"@
}

impl AttackType {
    /// Reads the attack type of the game data ("MELEE" or "RANGED").
    pub fn from_str(s: &str) -> (r: Self)
        requires
            is_attack_type_name(s@),
        ensures
            r == (if s@ == "MELEE"@ {
                AttackType::Melee
            } else {
                AttackType::Ranged
            }),
    {
        if str_eq(s, "MELEE") {
            AttackType::Melee
        } else {
            AttackType::Ranged
        }
    }
}

impl AdaptiveType {
    /// Reads the adaptive type of the game data ("PHYSICAL_DAMAGE" or "MAGIC_DAMAGE").
    pub fn from_str(s: &str) -> (r: Self)
        requires
            is_adaptive_type_name(s@),
        ensures
            r == (if s@ == "PHYSICAL_DAMAGE"@ {
                AdaptiveType::Physical
            } else {
                AdaptiveType::Magic
            }),
    {
        if str_eq(s, "PHYSICAL_DAMAGE") {
            AdaptiveType::Physical
        } else {
            AdaptiveType::Magic
        }
    }
}

/// What the simulator reads of a champion besides its numeric statistics.
pub struct ChampionData {
    pub name: Champion,
    pub id: u64,
    pub key: String,
    pub attack_type: AttackType,
    pub adaptive_type: AdaptiveType,
}

/// The game data of a champion.
pub fn get_base_champion_data(champion: Champion) -> (d: ChampionData)
    ensures
        d.name == champion,
        champion == Champion::Khazix ==> d.id == 121 && d.key@ == "Khazix"@ && d.attack_type
            == AttackType::Melee && d.adaptive_type == AdaptiveType::Physical,
{
    match champion {
        Champion::Khazix => {
            proof {
                reveal_strlit("MELEE");
                reveal_strlit("PHYSICAL_DAMAGE");
            }
            ChampionData {
                name: Champion::Khazix,
                id: 121u64,
                key: "Khazix".to_owned(),
                attack_type: AttackType::from_str("MELEE"),
                adaptive_type: AdaptiveType::from_str("PHYSICAL_DAMAGE"),
            }
        },
    }
}

} // verus!
