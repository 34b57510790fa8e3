use std::collections::HashMap;

use itertools::Itertools;
use vstd::prelude::*;

use crate::items::{
    above_gold_cap, all_item_groups, build_cost, has_duplicate, has_item_group_duplicates,
    ItemData,
};

verus! {

/// The `k`-element selections of `s`, each in the order of `s`, listed in lexicographic
/// order of their positions: first those that take `s[0]`, then those that do not.
pub open spec fn combinations_of(s: Seq<u64>, k: nat) -> Seq<Seq<u64>>
    decreases s.len(),
{
    if k == 0 {
        seq![Seq::empty()]
    } else if s.len() == 0 {
        Seq::empty()
    } else {
        combinations_of(s.drop_first(), (k - 1) as nat).map_values(|c: Seq<u64>| seq![s[0]] + c)
            + combinations_of(s.drop_first(), k)
    }
}

/// `Itertools::combinations` of the itertools crate, collected. The crate yields the
/// `k`-element selections of the ids in lexicographic order of their positions (one empty
/// selection when `k` is zero, none when `k` exceeds the number of ids), which is what
/// `combinations_of` writes out.
#[verifier::external_body]
fn item_combinations(ids: &Vec<u64>, k: usize) -> (r: Vec<Vec<u64>>)
    ensures
        r@.map_values(|c: Vec<u64>| c@) == combinations_of(ids@, k as nat),
{
    ids.iter().copied().combinations(k).collect()
}

/// Every id of a selection is one of the ids selected from.
proof fn lemma_combination_elements(s: Seq<u64>, k: nat)
    ensures
        forall|i: int, j: int|
            0 <= i < combinations_of(s, k).len() && 0 <= j < combinations_of(s, k)[i].len()
                ==> s.contains(#[trigger] combinations_of(s, k)[i][j]),
    decreases s.len(),
{
    if k == 0 {
    } else if s.len() == 0 {
    } else {
        let rest = s.drop_first();
        let with_first = combinations_of(rest, (k - 1) as nat);
        let without_first = combinations_of(rest, k);
        let taken = with_first.map_values(|c: Seq<u64>| seq![s[0]] + c);
        lemma_combination_elements(rest, (k - 1) as nat);
        lemma_combination_elements(rest, k);
        assert(combinations_of(s, k) == taken + without_first);
        assert forall|i: int, j: int|
            0 <= i < combinations_of(s, k).len() && 0 <= j < combinations_of(s, k)[i].len()
                implies s.contains(#[trigger] combinations_of(s, k)[i][j]) by {
            let all = combinations_of(s, k);
            if i < taken.len() {
                assert(all[i] == seq![s[0]] + with_first[i]);
                if j == 0 {
                    assert(all[i][j] == s[0]);
                } else {
                    assert(all[i][j] == with_first[i][j - 1]);
                    assert(rest.contains(with_first[i][j - 1]));
                    let p = choose|p: int| 0 <= p < rest.len() && rest[p] == with_first[i][j - 1];
                    assert(s[p + 1] == rest[p]);
                }
            } else {
                let m = i - taken.len();
                assert(all[i] == without_first[m]);
                assert(rest.contains(without_first[m][j]));
                let p = choose|p: int| 0 <= p < rest.len() && rest[p] == without_first[m][j];
                assert(s[p + 1] == rest[p]);
            }
        }
    }
}

/// There is no selection of more ids than there are.
proof fn lemma_too_many_to_select(s: Seq<u64>, k: nat)
    requires
        k > s.len(),
    ensures
        combinations_of(s, k).len() == 0,
    decreases s.len(),
{
    if s.len() > 0 {
        lemma_too_many_to_select(s.drop_first(), (k - 1) as nat);
        lemma_too_many_to_select(s.drop_first(), k);
    }
}

/// The item groups of a build's items, in order, its items looked up by id.
pub open spec fn build_groups(ids: Seq<u64>, items_map: Map<u64, ItemData>) -> Seq<Seq<char>>
    decreases ids.len(),
{
    if ids.len() == 0 {
        Seq::empty()
    } else {
        build_groups(ids.drop_last(), items_map) + items_map[ids.last()].item_groups@.map_values(
            |g: String| g@,
        )
    }
}

/// The summed cost of a build's items, looked up by id.
pub open spec fn build_total(ids: Seq<u64>, items_map: Map<u64, ItemData>) -> int
    decreases ids.len(),
{
    if ids.len() == 0 {
        0
    } else {
        build_total(ids.drop_last(), items_map) + items_map[ids.last()].total_cost
    }
}

/// Whether a build may be simulated: no item group occurs twice among its items, and when
/// there is a gold cap, its items do not cost more than it.
pub open spec fn build_allowed(ids: Seq<u64>, items_map: Map<u64, ItemData>, max_gold: Option<
    u64,
>) -> bool {
    &&& !has_duplicate(build_groups(ids, items_map))
    &&& max_gold matches Some(cap) ==> build_total(ids, items_map) <= cap
}

/// The items of a build, looked up by id in the catalogue.
fn look_up_items<'a>(ids: &Vec<u64>, items_map: &'a HashMap<u64, ItemData>) -> (r: Vec<
    &'a ItemData,
>)
    requires
        forall|j: int| 0 <= j < ids@.len() ==> items_map@.contains_key(#[trigger] ids@[j]),
    ensures
        all_item_groups(r@) == build_groups(ids@, items_map@),
        build_cost(r@) == build_total(ids@, items_map@),
{
    broadcast use vstd::std_specs::hash::group_hash_axioms;

    let mut items: Vec<&ItemData> = Vec::new();
    let mut j: usize = 0;
    while j < ids.len()
        invariant
            j <= ids@.len(),
            forall|m: int| 0 <= m < ids@.len() ==> items_map@.contains_key(#[trigger] ids@[m]),
            all_item_groups(items@) == build_groups(ids@.take(j as int), items_map@),
            build_cost(items@) == build_total(ids@.take(j as int), items_map@),
        decreases ids@.len() - j,
    {
        let id = ids[j];
        assert(items_map@.contains_key(ids@[j as int]));
        let ghost before = items@;
        match items_map.get(&id) {
            Some(item) => {
                items.push(item);
                assert(*item == items_map@[id]);
            },
            None => {
                assert(false);
            },
        }
        proof {
            assert(items@.drop_last() =~= before);
            assert(ids@.take(j + 1).drop_last() =~= ids@.take(j as int));
            assert(ids@.take(j + 1).last() == id);
        }
        j = j + 1;
    }
    assert(ids@.take(ids@.len() as int) =~= ids@);
    items
}

/// A copy of a list of ids.
fn copy_ids(ids: &Vec<u64>) -> (r: Vec<u64>)
    ensures
        r@ == ids@,
{
    let mut out: Vec<u64> = Vec::new();
    let mut j: usize = 0;
    while j < ids.len()
        invariant
            j <= ids@.len(),
            out@ == ids@.take(j as int),
        decreases ids@.len() - j,
    {
        out.push(ids[j]);
        assert(ids@.take(j + 1) =~= ids@.take(j as int).push(ids@[j as int]));
        j = j + 1;
    }
    assert(ids@.take(ids@.len() as int) =~= ids@);
    out
}

/// The builds of `num_items` items among `item_ids` that may be simulated, in the order in
/// which the combinations come: a build is left out when one of its item groups occurs
/// twice, or when it costs more than the gold cap.
pub fn candidate_builds(
    item_ids: &Vec<u64>,
    num_items: usize,
    items_map: &HashMap<u64, ItemData>,
    max_gold: Option<u64>,
) -> (r: Vec<Vec<u64>>)
    requires
        1 <= num_items <= item_ids@.len() ==> forall|i: int|
            0 <= i < item_ids@.len() ==> items_map@.contains_key(#[trigger] item_ids@[i]),
    ensures
        r@.map_values(|c: Vec<u64>| c@) == combinations_of(item_ids@, num_items as nat).filter(
            |c: Seq<u64>| build_allowed(c, items_map@, max_gold),
        ),
{
    let combos = item_combinations(item_ids, num_items);
    let ghost all = combinations_of(item_ids@, num_items as nat);
    let ghost pred = |c: Seq<u64>| build_allowed(c, items_map@, max_gold);
    proof {
        lemma_combination_elements(item_ids@, num_items as nat);
        if num_items > item_ids@.len() {
            lemma_too_many_to_select(item_ids@, num_items as nat);
        }
    }
    let mut kept: Vec<Vec<u64>> = Vec::new();
    let mut i: usize = 0;
    while i < combos.len()
        invariant
            i <= combos@.len(),
            combos@.map_values(|c: Vec<u64>| c@) == all,
            all == combinations_of(item_ids@, num_items as nat),
            pred == (|c: Seq<u64>| build_allowed(c, items_map@, max_gold)),
            1 <= num_items <= item_ids@.len() ==> forall|k: int|
                0 <= k < item_ids@.len() ==> items_map@.contains_key(#[trigger] item_ids@[k]),
            num_items == 0 ==> all == seq![Seq::<u64>::empty()],
            num_items > item_ids@.len() ==> all.len() == 0,
            forall|a: int, b: int|
                0 <= a < all.len() && 0 <= b < all[a].len() ==> item_ids@.contains(
                    #[trigger] all[a][b],
                ),
            kept@.map_values(|c: Vec<u64>| c@) == all.take(i as int).filter(pred),
        decreases combos@.len() - i,
    {
        let combo = &combos[i];
        assert(all[i as int] == combo@);
        assert forall|j: int| 0 <= j < combo@.len() implies items_map@.contains_key(
            #[trigger] combo@[j],
        ) by {
            assert(item_ids@.contains(all[i as int][j]));
            let p = choose|p: int| 0 <= p < item_ids@.len() && item_ids@[p] == all[i as int][j];
            assert(items_map@.contains_key(item_ids@[p]));
        }
        let items = look_up_items(combo, items_map);
        let allowed = !has_item_group_duplicates(items.as_slice()) && match max_gold {
            Some(cap) => !above_gold_cap(items.as_slice(), &cap),
            None => true,
        };
        assert(allowed == pred(combo@));
        proof {
            assert(all.take(i + 1).drop_last() =~= all.take(i as int));
            assert(all.take(i + 1).last() == combo@);
            reveal(Seq::filter);
            assert(all.take(i + 1).filter(pred) == (if pred(combo@) {
                all.take(i as int).filter(pred).push(combo@)
            } else {
                all.take(i as int).filter(pred)
            }));
        }
        if allowed {
            let copy = copy_ids(combo);
            let ghost before = kept@.map_values(|c: Vec<u64>| c@);
            kept.push(copy);
            assert(kept@.map_values(|c: Vec<u64>| c@) =~= before.push(combo@));
        }
        i = i + 1;
    }
    assert(all.take(combos@.len() as int) =~= all);
    kept
}

} // verus!
