use vstd::prelude::*;

use crate::keyed::SlotKey;
use crate::text::str_eq;

verus! {

/// A command the champion can issue: an auto attack, one of its four spells, or its passive.
#[derive(Clone, Copy, PartialEq, Eq, Structural, Debug, Hash)]
pub enum AttackType {
    AA,
    Q,
    W,
    E,
    R,
    P,
}

/// The kind of movement or state change a spell causes.
#[derive(Clone, Copy, PartialEq, Eq, Structural, Debug)]
pub enum SpellCategory {
    Dash,
    Stealth,
}

/// The printed name of an attack type (its variant name).
pub open spec fn attack_name(a: AttackType) -> Seq<char> {
    match a {
        AttackType::AA => "AA"@,
        AttackType::Q => "Q"@,
        AttackType::W => "W"@,
        AttackType::E => "E"@,
        AttackType::R => "R"@,
        AttackType::P => "P"@,
    }
}

/// The attack type whose printed name is `s`, if any.
pub open spec fn attack_from_name(s: Seq<char>) -> Option<AttackType> {
    if s == "AA"@ {
        Some(AttackType::AA)
    } else if s == "Q"@ {
        Some(AttackType::Q)
    } else if s == "W"@ {
        Some(AttackType::W)
    } else if s == "E"@ {
        Some(AttackType::E)
    } else if s == "R"@ {
        Some(AttackType::R)
    } else if s == "P"@ {
        Some(AttackType::P)
    } else {
        None
    }
}

impl AttackType {
    /// The printed name of the attack type, as used for ability keys.
    pub fn name(self) -> (r: &'static str)
        ensures
            r@ == attack_name(self),
    {
        match self {
            AttackType::AA => "AA",
            AttackType::Q => "Q",
            AttackType::W => "W",
            AttackType::E => "E",
            AttackType::R => "R",
            AttackType::P => "P",
        }
    }

    /// Reads an attack type from its printed name.
    pub fn from_str(s: &str) -> (r: Option<AttackType>)
        ensures
            r == attack_from_name(s@),
    {
        if str_eq(s, "AA") {
            Some(AttackType::AA)
        } else if str_eq(s, "Q") {
            Some(AttackType::Q)
        } else if str_eq(s, "W") {
            Some(AttackType::W)
        } else if str_eq(s, "E") {
            Some(AttackType::E)
        } else if str_eq(s, "R") {
            Some(AttackType::R)
        } else if str_eq(s, "P") {
            Some(AttackType::P)
        } else {
            None
        }
    }
}

/// Reading back the printed name of an attack type gives that attack type.
pub proof fn lemma_attack_name_round_trip(a: AttackType)
    ensures
        attack_from_name(attack_name(a)) == Some(a),
{
    reveal_strlit("AA");
    reveal_strlit("Q");
    reveal_strlit("W");
    reveal_strlit("E");
    reveal_strlit("R");
    reveal_strlit("P");
    assert("AA"@.len() == 2 && "AA"@[0] == 'A');
    assert("Q"@.len() == 1 && "Q"@[0] == 'Q');
    assert("W"@.len() == 1 && "W"@[0] == 'W');
    assert("E"@.len() == 1 && "E"@[0] == 'E');
    assert("R"@.len() == 1 && "R"@[0] == 'R');
    assert("P"@.len() == 1 && "P"@[0] == 'P');
}

impl SlotKey for AttackType {
    open spec fn index_of(self) -> nat {
        match self {
            AttackType::AA => 0,
            AttackType::Q => 1,
            AttackType::W => 2,
            AttackType::E => 3,
            AttackType::R => 4,
            AttackType::P => 5,
        }
    }

    open spec fn slot_count() -> nat {
        6
    }

    open spec fn key_of_slot(i: nat) -> AttackType {
        if i == 0 {
            AttackType::AA
        } else if i == 1 {
            AttackType::Q
        } else if i == 2 {
            AttackType::W
        } else if i == 3 {
            AttackType::E
        } else if i == 4 {
            AttackType::R
        } else {
            AttackType::P
        }
    }

    fn slot(self) -> (r: usize) {
        match self {
            AttackType::AA => 0,
            AttackType::Q => 1,
            AttackType::W => 2,
            AttackType::E => 3,
            AttackType::R => 4,
            AttackType::P => 5,
        }
    }

    fn slots() -> (n: usize) {
        6
    }

    fn from_slot(i: usize) -> (k: AttackType) {
        if i == 0 {
            AttackType::AA
        } else if i == 1 {
            AttackType::Q
        } else if i == 2 {
            AttackType::W
        } else if i == 3 {
            AttackType::E
        } else if i == 4 {
            AttackType::R
        } else {
            AttackType::P
        }
    }

    proof fn lemma_slots(k: AttackType) {
    }
}

/// The rank of Q at a champion level (one rank per point spent, maxed first).
pub open spec fn spec_q_rank(level: u64) -> u64 {
    if level <= 3 {
        1
    } else if level == 4 {
        2
    } else if level <= 6 {
        3
    } else if level <= 8 {
        4
    } else {
        5
    }
}

/// The rank of W at a champion level.
pub open spec fn spec_w_rank(level: u64) -> u64 {
    if level == 1 {
        0
    } else if level <= 7 {
        1
    } else if level <= 9 {
        2
    } else if level <= 11 {
        3
    } else if level == 12 {
        4
    } else {
        5
    }
}

/// The rank of E at a champion level.
pub open spec fn spec_e_rank(level: u64) -> u64 {
    if level <= 2 {
        0
    } else if level <= 13 {
        1
    } else if level == 14 {
        2
    } else if level <= 16 {
        3
    } else if level == 17 {
        4
    } else {
        5
    }
}

/// The rank of Q used at a champion level between 1 and 18.
pub fn q_spell_rank(level: u64) -> (rank: u64)
    requires
        1 <= level <= 18,
    ensures
        rank == spec_q_rank(level),
{
    if level <= 3 {
        1
    } else if level == 4 {
        2
    } else if level <= 6 {
        3
    } else if level <= 8 {
        4
    } else {
        5
    }
}

/// The rank of W used at a champion level between 1 and 18.
pub fn w_spell_rank(level: u64) -> (rank: u64)
    requires
        1 <= level <= 18,
    ensures
        rank == spec_w_rank(level),
{
    if level == 1 {
        0
    } else if level <= 7 {
        1
    } else if level <= 9 {
        2
    } else if level <= 11 {
        3
    } else if level == 12 {
        4
    } else {
        5
    }
}

/// The rank of E used at a champion level between 1 and 18.
pub fn e_spell_rank(level: u64) -> (rank: u64)
    requires
        1 <= level <= 18,
    ensures
        rank == spec_e_rank(level),
{
    if level <= 2 {
        0
    } else if level <= 13 {
        1
    } else if level == 14 {
        2
    } else if level <= 16 {
        3
    } else if level == 17 {
        4
    } else {
        5
    }
}

/// The rank of R used at a champion level between 1 and 18 (unlocked at 6, improved at 11
/// and 16).
pub open spec fn spec_r_rank(level: u64) -> u64 {
    if level < 6 {
        0
    } else if level < 11 {
        1
    } else if level < 16 {
        2
    } else {
        3
    }
}

/// The ranks of Kha'Zix's spells by champion level: Q is maxed first (rank 1 at levels 1-3,
/// 2 at 4, 3 at 5-6, 4 at 7-8, 5 from 9), then W (0 at level 1, 1 at 2-7, 2 at 8-9, 3 at
/// 10-11, 4 at 12, 5 from 13), then E (0 at 1-2, 1 at 3-13, 2 at 14, 3 at 15-16, 4 at 17, 5
/// at 18); R is ranked up at 6, 11 and 16. Every level grants exactly one skill point: the
/// ranks add up to the level, and no rank ever goes down as the level rises.
pub proof fn lemma_spell_ranks_by_level()
    ensures
        forall|l: u64| 1 <= l <= 3 ==> #[trigger] spec_q_rank(l) == 1,
        spec_q_rank(4) == 2,
        forall|l: u64| 5 <= l <= 6 ==> #[trigger] spec_q_rank(l) == 3,
        forall|l: u64| 7 <= l <= 8 ==> #[trigger] spec_q_rank(l) == 4,
        forall|l: u64| 9 <= l <= 18 ==> #[trigger] spec_q_rank(l) == 5,
        spec_w_rank(1) == 0,
        forall|l: u64| 2 <= l <= 7 ==> #[trigger] spec_w_rank(l) == 1,
        forall|l: u64| 8 <= l <= 9 ==> #[trigger] spec_w_rank(l) == 2,
        forall|l: u64| 10 <= l <= 11 ==> #[trigger] spec_w_rank(l) == 3,
        spec_w_rank(12) == 4,
        forall|l: u64| 13 <= l <= 18 ==> #[trigger] spec_w_rank(l) == 5,
        forall|l: u64| 1 <= l <= 2 ==> #[trigger] spec_e_rank(l) == 0,
        forall|l: u64| 3 <= l <= 13 ==> #[trigger] spec_e_rank(l) == 1,
        spec_e_rank(14) == 2,
        forall|l: u64| 15 <= l <= 16 ==> #[trigger] spec_e_rank(l) == 3,
        spec_e_rank(17) == 4,
        spec_e_rank(18) == 5,
        forall|l: u64| 1 <= l <= 5 ==> #[trigger] spec_r_rank(l) == 0,
        forall|l: u64| 6 <= l <= 10 ==> #[trigger] spec_r_rank(l) == 1,
        forall|l: u64| 11 <= l <= 15 ==> #[trigger] spec_r_rank(l) == 2,
        forall|l: u64| 16 <= l <= 18 ==> #[trigger] spec_r_rank(l) == 3,
        forall|l: u64|
            1 <= l <= 18 ==> #[trigger] spec_q_rank(l) + spec_w_rank(l) + spec_e_rank(l)
                + spec_r_rank(l) == l,
        forall|a: u64, b: u64|
            1 <= a <= b <= 18 ==> {
                &&& #[trigger] spec_q_rank(a) <= #[trigger] spec_q_rank(b)
                &&& spec_w_rank(a) <= spec_w_rank(b)
                &&& spec_e_rank(a) <= spec_e_rank(b)
                &&& spec_r_rank(a) <= spec_r_rank(b)
            },
{
}

/// The rank of R used at a champion level between 1 and 18.
pub fn r_spell_rank(level: u64) -> (rank: u64)
    requires
        1 <= level <= 18,
    ensures
        rank == spec_r_rank(level),
{
    if level < 6 {
        0
    } else if level < 11 {
        1
    } else if level < 16 {
        2
    } else {
        3
    }
}

/// Spell ranks never go down as the champion levels up, and never exceed 5.
pub proof fn lemma_spell_ranks_monotone(l1: u64, l2: u64)
    requires
        1 <= l1 <= l2 <= 18,
    ensures
        spec_q_rank(l1) <= spec_q_rank(l2) <= 5,
        spec_w_rank(l1) <= spec_w_rank(l2) <= 5,
        spec_e_rank(l1) <= spec_e_rank(l2) <= 5,
        spec_r_rank(l1) <= spec_r_rank(l2) <= 3,
{
}

} // verus!
