//! Tags, and the policy that protects tagged entries from deletion.

use vstd::prelude::*;
use crate::uniq::holds_id;

verus! {

/// A tag as a library manager lists it. Only the label is stable; the
/// manager assigns the id.
#[derive(Debug, Default, PartialEq, Eq)]
pub struct Tag {
    pub label: String,
    pub id: u64,
}

/// Whether `label` is one of the configured names.
pub open spec fn is_kept_label(label: Seq<char>, tags_to_keep: Seq<String>) -> bool {
    exists|k: int| 0 <= k < tags_to_keep.len() && (#[trigger] tags_to_keep[k])@ == label
}

/// The ids of the listed tags whose label is configured to be kept, in the
/// order of the listing.
pub open spec fn forbidden_ids(tags: Seq<Tag>, tags_to_keep: Seq<String>) -> Seq<u64> {
    tags.filter(|t: Tag| is_kept_label(t.label@, tags_to_keep)).map_values(|t: Tag| t.id)
}

/// Whether a configured name has no tag in the listing, so that nothing
/// enforces it.
pub open spec fn is_unresolved(name: Seq<char>, tags: Seq<Tag>) -> bool {
    forall|i: int| 0 <= i < tags.len() ==> (#[trigger] tags[i]).label@ != name
}

/// Whether an entry with these tags carries a forbidden one.
pub open spec fn carries_forbidden(tags: Option<Vec<u64>>, forbidden_tags: Seq<u64>) -> bool {
    match tags {
        Some(tags) => exists|i: int|
            0 <= i < tags@.len() && forbidden_tags.contains(#[trigger] tags@[i]),
        None => false,
    }
}

/// Whether `names` holds a string equal to `label`.
pub fn contains_label(names: &Vec<String>, label: &String) -> (found: bool)
    ensures
        found == is_kept_label(label@, names@),
{
    let mut i: usize = 0;
    while i < names.len()
        invariant
            i <= names.len(),
            forall|k: int| 0 <= k < i ==> (#[trigger] names@[k])@ != label@,
        decreases names.len() - i,
    {
        if names[i] == *label {
            return true;
        }
        i += 1;
    }
    false
}

/// Resolves the configured tag names to the ids under which the manager
/// lists them.
pub fn forbidden_tags(tags: &Vec<Tag>, tags_to_keep: &Vec<String>) -> (ids: Vec<u64>)
    ensures
        ids@ == forbidden_ids(tags@, tags_to_keep@),
{
    let ghost keep = |t: Tag| is_kept_label(t.label@, tags_to_keep@);
    let ghost id_of = |t: Tag| t.id;
    let mut ids: Vec<u64> = Vec::new();
    let mut i: usize = 0;
    assert(tags@.take(0) =~= Seq::<Tag>::empty());
    while i < tags.len()
        invariant
            i <= tags.len(),
            keep == |t: Tag| is_kept_label(t.label@, tags_to_keep@),
            id_of == |t: Tag| t.id,
            ids@ == tags@.take(i as int).filter(keep).map_values(id_of),
        decreases tags.len() - i,
    {
        proof {
            assert(tags@.take(i + 1) =~= tags@.take(i as int).push(tags@[i as int]));
            tags@.take(i as int).lemma_filter_push(tags@[i as int], keep);
        }
        if contains_label(tags_to_keep, &tags[i].label) {
            ids.push(tags[i].id);
            assert(ids@ =~= tags@.take(i + 1).filter(keep).map_values(id_of));
        }
        i += 1;
    }
    assert(tags@.take(i as int) =~= tags@);
    ids
}

/// Whether the listing holds a tag with this label. A configured name
/// without one is not enforced, which the caller reports.
pub fn is_resolved(tags: &Vec<Tag>, name: &String) -> (found: bool)
    ensures
        found == !is_unresolved(name@, tags@),
{
    let mut i: usize = 0;
    while i < tags.len()
        invariant
            i <= tags.len(),
            forall|k: int| 0 <= k < i ==> (#[trigger] tags@[k]).label@ != name@,
        decreases tags.len() - i,
    {
        if tags[i].label == *name {
            return true;
        }
        i += 1;
    }
    false
}

/// Whether an entry with these tags carries one of the forbidden tags.
pub fn has_forbidden_tags(tags: &Option<Vec<u64>>, forbidden_tags: &[u64]) -> (found: bool)
    ensures
        found == carries_forbidden(*tags, forbidden_tags@),
{
    match tags {
        Some(own) => {
            let mut i: usize = 0;
            while i < own.len()
                invariant
                    i <= own.len(),
                    *tags == Some(*own),
                    forall|k: int| 0 <= k < i ==> !forbidden_tags@.contains(#[trigger] own@[k]),
                decreases own.len() - i,
            {
                if holds_id(forbidden_tags, own[i]) {
                    assert(forbidden_tags@.contains(own@[i as int]));
                    assert(tags matches Some(t) && t@ == own@);
                    return true;
                }
                i += 1;
            }
            false
        },
        None => false,
    }
}

} // verus!
