//! Sequences without repetition.

use vstd::prelude::*;

verus! {

/// Whether nothing occurs twice in `items`.
pub open spec fn distinct<A>(items: Seq<A>) -> bool {
    forall|i: int, j: int| 0 <= i < j < items.len() ==> items[i] != items[j]
}

/// The members of `items` in the order in which each occurs first.
pub open spec fn first_appearances<A>(items: Seq<A>) -> Seq<A>
    decreases items.len(),
{
    if items.len() == 0 {
        Seq::empty()
    } else {
        let earlier = first_appearances(items.drop_last());
        if earlier.contains(items.last()) {
            earlier
        } else {
            earlier.push(items.last())
        }
    }
}

/// The first appearances of a sequence hold what the sequence holds, each
/// member once.
pub proof fn lemma_first_appearances<A>(items: Seq<A>)
    ensures
        distinct(first_appearances(items)),
        first_appearances(items).to_set() == items.to_set(),
    decreases items.len(),
{
    if items.len() == 0 {
        assert(first_appearances(items).to_set() =~= items.to_set());
    } else {
        let earlier = first_appearances(items.drop_last());
        lemma_first_appearances(items.drop_last());
        items.drop_last().lemma_push_to_set_commute(items.last());
        assert(items.drop_last().push(items.last()) =~= items);
        if earlier.contains(items.last()) {
            assert(earlier.to_set().insert(items.last()) =~= earlier.to_set());
        } else {
            earlier.lemma_push_to_set_commute(items.last());
            let all = earlier.push(items.last());
            assert forall|i: int, j: int| 0 <= i < j < all.len() implies all[i] != all[j] by {
                if j == all.len() - 1 {
                    assert(earlier.contains(earlier[i]));
                }
            }
        }
    }
}

/// Whether `ids` holds `id`.
pub fn holds_id(ids: &[u64], id: u64) -> (found: bool)
    ensures
        found == ids@.contains(id),
{
    let mut i: usize = 0;
    while i < ids.len()
        invariant
            i <= ids.len(),
            forall|k: int| 0 <= k < i ==> ids@[k] != id,
        decreases ids.len() - i,
    {
        if ids[i] == id {
            return true;
        }
        i += 1;
    }
    false
}

/// Adds `id` at the end unless `ids` holds it already, and says whether it
/// was added.
pub fn push_new(ids: &mut Vec<u64>, id: u64) -> (fresh: bool)
    ensures
        fresh == !old(ids)@.contains(id),
        final(ids)@ == if fresh {
            old(ids)@.push(id)
        } else {
            old(ids)@
        },
{
    if holds_id(ids.as_slice(), id) {
        false
    } else {
        ids.push(id);
        true
    }
}

/// The ids in the order in which each occurs first.
pub fn unique_ids(ids: &[u64]) -> (unique: Vec<u64>)
    ensures
        unique@ == first_appearances(ids@),
{
    let mut unique: Vec<u64> = Vec::new();
    let mut i: usize = 0;
    assert(ids@.take(0) =~= Seq::<u64>::empty());
    while i < ids.len()
        invariant
            i <= ids.len(),
            unique@ == first_appearances(ids@.take(i as int)),
        decreases ids.len() - i,
    {
        assert(ids@.take(i + 1).drop_last() =~= ids@.take(i as int));
        push_new(&mut unique, ids[i]);
        i += 1;
    }
    assert(ids@.take(i as int) =~= ids@);
    unique
}

} // verus!
