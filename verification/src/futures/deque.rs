use std::collections::VecDeque;
use vstd::prelude::*;

verus! {

/// A double-ended queue that holds at most `N` items.
pub struct Deque<T, const N: usize> {
    items: VecDeque<T>,
}

impl<T, const N: usize> Deque<T, N> {
    /// The items, front first.
    pub closed spec fn items(&self) -> Seq<T> {
        self.items@
    }

    /// Never more than `N` items.
    pub open spec fn wf(&self) -> bool {
        self.items().len() <= N
    }

    pub fn new() -> (d: Self)
        ensures
            d.items() == Seq::<T>::empty(),
            d.wf(),
    {
        Deque { items: VecDeque::new() }
    }

    pub fn len(&self) -> (n: usize)
        ensures
            n == self.items().len(),
    {
        self.items.len()
    }

    pub fn is_full(&self) -> (full: bool)
        ensures
            full == (self.items().len() >= N),
    {
        self.items.len() >= N
    }

    /// Adds `item` at the back; a full queue hands it back.
    pub fn push_back(&mut self, item: T) -> (r: Result<(), T>)
        ensures
            old(self).items().len() < N ==> r is Ok && final(self).items() == old(self).items().push(
                item,
            ),
            old(self).items().len() >= N ==> r == Err::<(), T>(item) && final(self).items()
                == old(self).items(),
    {
        if self.items.len() >= N {
            return Err(item);
        }
        self.items.push_back(item);
        Ok(())
    }

    /// Adds `item` at the front; a full queue hands it back.
    pub fn push_front(&mut self, item: T) -> (r: Result<(), T>)
        ensures
            old(self).items().len() < N ==> r is Ok && final(self).items() == seq![item]
                + old(self).items(),
            old(self).items().len() >= N ==> r == Err::<(), T>(item) && final(self).items()
                == old(self).items(),
    {
        if self.items.len() >= N {
            return Err(item);
        }
        self.items.push_front(item);
        Ok(())
    }

    pub fn pop_front(&mut self) -> (r: Option<T>)
        ensures
            old(self).items().len() == 0 ==> r is None && final(self).items() == old(self).items(),
            old(self).items().len() > 0 ==> r == Some(old(self).items()[0]) && final(self).items()
                == old(self).items().drop_first(),
    {
        let r = self.items.pop_front();
        proof {
            if old(self).items().len() > 0 {
                assert(self.items@ =~= old(self).items().drop_first());
            }
        }
        r
    }

    /// The front item, if any.
    pub fn front(&self) -> (r: Option<&T>)
        ensures
            self.items().len() == 0 ==> r is None,
            self.items().len() > 0 ==> r == Some(&self.items()[0]),
    {
        if self.items.len() == 0 {
            None
        } else {
            Some(&self.items[0])
        }
    }

    pub fn clear(&mut self)
        ensures
            final(self).items() == Seq::<T>::empty(),
    {
        self.items.clear();
    }
}

} // verus!
