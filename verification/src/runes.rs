use vstd::prelude::*;

use crate::common::PassiveEffect;

verus! {

/// A rune the champion can take.
#[derive(Clone, Copy, PartialEq, Eq, Structural, Debug, Hash)]
pub enum Rune {
    DarkHarvest,
    SuddenImpact,
    EyeballCollection,
    AbsoluteFocus,
    GatheringStorm,
    AdaptiveForce1,
    AdaptiveForce2,
    AttackSpeed,
    AbilityHaste,
}

/// The passive effect a rune brings, if it brings one.
pub open spec fn rune_passive_effect(r: Rune) -> Option<PassiveEffect> {
    match r {
        Rune::DarkHarvest => Some(PassiveEffect::DarkHarvest),
        Rune::SuddenImpact => Some(PassiveEffect::SuddenImpact),
        _ => None,
    }
}

impl Rune {
    /// The passive effect this rune brings: Dark Harvest and Sudden Impact have one, the
    /// stat runes have none.
    pub fn passive_effect(&self) -> (r: Option<PassiveEffect>)
        ensures
            r == rune_passive_effect(*self),
    {
        match self {
            Rune::DarkHarvest => Some(PassiveEffect::DarkHarvest),
            Rune::SuddenImpact => Some(PassiveEffect::SuddenImpact),
            Rune::EyeballCollection => None,
            Rune::AbsoluteFocus => None,
            Rune::GatheringStorm => None,
            Rune::AdaptiveForce1 => None,
            Rune::AdaptiveForce2 => None,
            Rune::AttackSpeed => None,
            Rune::AbilityHaste => None,
        }
    }
}

} // verus!

verus! {

/// The timings of the Sudden Impact rune: after a dash or the end of a stealth, the next
/// damage within `buff_duration` triggers it, after which it waits `cooldown`.
#[derive(Clone, Copy, PartialEq, Eq, Structural, Debug)]
pub struct SuddenImpact {
    pub buff_duration: u64,
    pub cooldown: u64,
}

/// The rune timings the simulation reads.
#[derive(Clone, Copy, PartialEq, Eq, Structural, Debug)]
pub struct RunesData {
    pub sudden_impact: SuddenImpact,
}

/// The rune timings of the current patch.
pub fn pull_runes() -> (r: RunesData)
    ensures
        r.sudden_impact.buff_duration == 4000,
        r.sudden_impact.cooldown == 10_000,
{
    let sudden_impact = SuddenImpact { buff_duration: 4000, cooldown: 10_000 };
    RunesData { sudden_impact }
}

} // verus!
