//! A set of strings that remembers the order in which its members came.

use vstd::prelude::*;
use crate::uniq::{distinct, first_appearances, lemma_first_appearances};

verus! {

/// A set of strings. Two strings are the same member when they hold the same
/// characters; members are kept in the order of their first insertion.
#[derive(Debug)]
pub struct StringSet {
    items: Vec<String>,
}

impl StringSet {
    #[verifier::type_invariant]
    spec fn well_formed(self) -> bool {
        distinct(self.items@.map_values(|s: String| s@))
    }

    /// The members in the order of their first insertion.
    pub closed spec fn order(&self) -> Seq<Seq<char>> {
        self.items@.map_values(|s: String| s@)
    }

    /// The members as a set.
    pub open spec fn view(&self) -> Set<Seq<char>> {
        self.order().to_set()
    }

    pub fn new() -> (set: StringSet)
        ensures
            set.order() == Seq::<Seq<char>>::empty(),
    {
        let set = StringSet { items: Vec::new() };
        assert(set.items@.map_values(|s: String| s@) =~= Seq::<Seq<char>>::empty());
        set
    }

    pub fn len(&self) -> (n: usize)
        ensures
            n == self.order().len(),
    {
        self.items.len()
    }

    pub fn is_empty(&self) -> (b: bool)
        ensures
            b == (self.order().len() == 0),
    {
        self.items.len() == 0
    }

    pub fn contains(&self, s: &String) -> (found: bool)
        ensures
            found == self.order().contains(s@),
    {
        let mut i: usize = 0;
        while i < self.items.len()
            invariant
                i <= self.items.len(),
                forall|k: int| 0 <= k < i ==> (#[trigger] self.items@[k])@ != s@,
            decreases self.items.len() - i,
        {
            if self.items[i] == *s {
                assert(self.order()[i as int] == s@);
                return true;
            }
            i += 1;
        }
        assert forall|k: int| 0 <= k < self.order().len() implies self.order()[k] != s@ by {
            assert(self.items@[k]@ != s@);
        }
        false
    }

    /// Adds `s` unless an equal string is a member already, and says whether
    /// it was added.
    pub fn insert(&mut self, s: String) -> (fresh: bool)
        ensures
            fresh == !old(self).order().contains(s@),
            final(self).order() == if fresh {
                old(self).order().push(s@)
            } else {
                old(self).order()
            },
            final(self)@ == old(self)@.insert(s@),
    {
        proof {
            use_type_invariant(&*self);
            self.order().lemma_push_to_set_commute(s@);
        }
        if self.contains(&s) {
            assert(self@.insert(s@) =~= self@);
            false
        } else {
            let ghost before = self.items@.map_values(|s: String| s@);
            let mut taken = StringSet::new();
            std::mem::swap(self, &mut taken);
            let mut items: Vec<String> = taken.items;
            items.push(s);
            proof {
                let after = items@.map_values(|s: String| s@);
                assert(after =~= before.push(s@));
                assert forall|i: int, j: int| 0 <= i < j < after.len() implies after[i] != after[j] by {
                    if j == after.len() - 1 {
                        assert(before.contains(before[i]));
                    }
                }
            }
            *self = StringSet { items };
            proof {
                let after = self.items@.map_values(|s: String| s@);
                assert(after =~= before.push(s@));
                assert forall|i: int, j: int| 0 <= i < j < after.len() implies after[i] != after[j] by {
                    if j == after.len() - 1 {
                        assert(before.contains(before[i]));
                    }
                }
            }
            true
        }
    }

    /// The members in the order of their first insertion, none twice.
    pub fn as_slice(&self) -> (items: &[String])
        ensures
            items@.map_values(|s: String| s@) == self.order(),
            distinct(self.order()),
    {
        proof {
            use_type_invariant(self);
        }
        self.items.as_slice()
    }

    /// The set of the strings of `items`; a string that occurs again is
    /// dropped.
    pub fn from_slice(items: &[String]) -> (set: StringSet)
        ensures
            set.order() == first_appearances(items@.map_values(|s: String| s@)),
            set@ == items@.map_values(|s: String| s@).to_set(),
    {
        let ghost all = items@.map_values(|s: String| s@);
        let mut set = StringSet::new();
        let mut i: usize = 0;
        while i < items.len()
            invariant
                i <= items.len(),
                all == items@.map_values(|s: String| s@),
                set.order() == first_appearances(all.take(i as int)),
            decreases items.len() - i,
        {
            let ghost done = all.take(i as int);
            let s: String = items[i].clone();
            assert(s@ == all[i as int]);
            set.insert(s);
            assert(all.take(i + 1).drop_last() =~= done);
            i += 1;
        }
        proof {
            assert(all.take(i as int) =~= all);
            lemma_first_appearances(all);
        }
        set
    }
}

} // verus!
