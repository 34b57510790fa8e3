use vstd::prelude::*;

use crate::text::str_eq;

verus! {

/// The value of the first entry with key `k`, if any.
pub open spec fn lookup(s: Seq<(String, String)>, k: Seq<char>) -> Option<Seq<char>>
    decreases s.len(),
{
    if s.len() == 0 {
        None
    } else if s[0].0@ == k {
        Some(s[0].1@)
    } else {
        lookup(s.drop_first(), k)
    }
}

/// User settings of a simulation, as key/value strings.
pub struct Config {
    entries: Vec<(String, String)>,
}

impl View for Config {
    type V = Map<Seq<char>, Seq<char>>;

    closed spec fn view(&self) -> Map<Seq<char>, Seq<char>> {
        Map::new(
            |k: Seq<char>| lookup(self.entries@, k) is Some,
            |k: Seq<char>| lookup(self.entries@, k)->Some_0,
        )
    }
}

/// The setting of a key, if it is set.
pub open spec fn setting(c: Map<Seq<char>, Seq<char>>, k: Seq<char>) -> Option<Seq<char>> {
    if c.contains_key(k) {
        Some(c[k])
    } else {
        None
    }
}

impl Config {
    /// A configuration with no setting.
    pub fn new() -> (c: Config)
        ensures
            c@ == Map::<Seq<char>, Seq<char>>::empty(),
    {
        let c = Config { entries: Vec::new() };
        assert(c@ =~= Map::<Seq<char>, Seq<char>>::empty());
        c
    }

    /// Sets a key to a value, replacing any value it had.
    pub fn insert(&mut self, key: String, value: String)
        ensures
            final(self)@ == old(self)@.insert(key@, value@),
    {
        let ghost k = key@;
        let ghost v = value@;
        self.entries.insert(0, (key, value));
        proof {
            assert(self.entries@.drop_first() =~= old(self).entries@);
            assert(self@ =~= old(self)@.insert(k, v));
        }
    }

    /// The value of a key, if it is set.
    pub fn get(&self, key: &str) -> (r: Option<&String>)
        ensures
            r is Some <==> self@.contains_key(key@),
            r is Some ==> r->Some_0@ == self@[key@],
    {
        let ghost s = self.entries@;
        let mut i: usize = 0;
        proof {
            assert(s.skip(0) =~= s);
        }
        while i < self.entries.len()
            invariant
                s == self.entries@,
                i <= s.len(),
                lookup(s, key@) == lookup(s.skip(i as int), key@),
            decreases s.len() - i,
        {
            if str_eq(self.entries[i].0.as_str(), key) {
                return Some(&self.entries[i].1);
            }
            proof {
                assert(s.skip(i as int).drop_first() =~= s.skip(i + 1));
            }
            i = i + 1;
        }
        None
    }
}

/// Whether a key is set to "TRUE", when it is set, or `default_true` when it is not.
pub open spec fn flag_or(c: Map<Seq<char>, Seq<char>>, k: Seq<char>, default_true: bool) -> bool {
    if c.contains_key(k) {
        c[k] == "TRUE"@
    } else {
        default_true
    }
}

impl Config {
    /// Whether a key is set to "TRUE"; when it is not set, `default_true` decides.
    pub fn flag_or(&self, key: &str, default_true: bool) -> (r: bool)
        ensures
            r == flag_or(self@, key@, default_true),
    {
        match self.get(key) {
            Some(v) => str_eq(v.as_str(), "TRUE"),
            None => default_true,
        }
    }
}

} // verus!
