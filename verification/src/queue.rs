//! Handing the members of a vector out in their order, by value.

use vstd::prelude::*;

verus! {

/// The members of a vector that are still to come, first to last.
pub struct Queue<T> {
    pub back: Vec<T>,
}

impl<T> View for Queue<T> {
    type V = Seq<T>;

    /// What is still to come, in the order in which it comes.
    open spec fn view(&self) -> Seq<T> {
        self.back@.reverse()
    }
}

impl<T> Queue<T> {
    /// A queue that hands out the members of `items` from the first on.
    pub fn new(items: Vec<T>) -> (queue: Queue<T>)
        ensures
            queue@ == items@,
    {
        let ghost all = items@;
        let mut items = items;
        let mut back: Vec<T> = Vec::new();
        while items.len() > 0
            invariant
                items@.len() <= all.len(),
                items@ == all.take(items@.len() as int),
                back@ == all.skip(items@.len() as int).reverse(),
            decreases items.len(),
        {
            let ghost n = items@.len() as int;
            let x = items.pop().unwrap();
            assert(x == all[n - 1]);
            back.push(x);
            assert(items@ =~= all.take(n - 1));
            assert(back@ =~= all.skip(n - 1).reverse());
        }
        assert(all.skip(0) =~= all);
        assert(all.reverse().reverse() =~= all);
        Queue { back }
    }

    /// Whether nothing is left.
    pub fn is_empty(&self) -> (empty: bool)
        ensures
            empty == (self@.len() == 0),
    {
        self.back.len() == 0
    }

    /// How many members are left.
    pub fn len(&self) -> (n: usize)
        ensures
            n == self@.len(),
    {
        self.back.len()
    }

    /// Hands out the next member.
    pub fn next(&mut self) -> (item: Option<T>)
        ensures
            match item {
                Some(x) => old(self)@.len() > 0 && x == old(self)@[0] && final(self)@ == old(
                    self,
                )@.drop_first(),
                None => old(self)@.len() == 0 && final(self)@ == old(self)@,
            },
    {
        let ghost before = self.back@;
        let item = self.back.pop();
        proof {
            if before.len() > 0 {
                assert(self.back@.reverse() =~= before.reverse().drop_first());
            }
        }
        item
    }
}

} // verus!
