use crate::common::task::TaskId;
use crate::futures::deque::Deque;
use crate::futures::WaitPoll;
use vstd::prelude::*;

verus! {

/// A semaphore without an upper bound: a count of free units and the wakers of the
/// tasks waiting for one.
pub struct SemaphoreUnbounded<const TN: usize> {
    unlocked_count: usize,
    wakers: Deque<TaskId, TN>,
}

impl<const TN: usize> SemaphoreUnbounded<TN> {
    pub closed spec fn count(&self) -> usize {
        self.unlocked_count
    }

    pub closed spec fn wakers(&self) -> Seq<TaskId> {
        self.wakers.items()
    }

    pub open spec fn wf(&self) -> bool {
        self.wakers().len() <= TN
    }

    pub fn new(initial_count: usize) -> (s: Self)
        ensures
            s.count() == initial_count,
            s.wakers() == Seq::<TaskId>::empty(),
            s.wf(),
    {
        SemaphoreUnbounded { unlocked_count: initial_count, wakers: Deque::new() }
    }

    /// Whether a take may be polled: a unit is free, or the queue has room for the
    /// waker (a full queue stops the program).
    pub fn can_poll_take(&self) -> (b: bool)
        ensures
            b == (self.count() > 0 || self.wakers().len() < TN),
    {
        self.unlocked_count > 0 || !self.wakers.is_full()
    }

    /// Frees one unit (the count wraps around as the atomic counter does) and returns
    /// the first waiting task, which leaves the queue, to be woken.
    pub fn give(&mut self) -> (wake: Option<TaskId>)
        ensures
            final(self).count() == old(self).count().wrapping_add(1),
            old(self).wakers().len() == 0 ==> wake is None && final(self).wakers() == old(self).wakers(),
            old(self).wakers().len() > 0 ==> wake == Some(old(self).wakers()[0]) && final(self).wakers() == old(self).wakers().drop_first(),
    {
        self.unlocked_count = self.unlocked_count.wrapping_add(1);
        self.wakers.pop_front()
    }

    /// One poll of a task that wants a unit: it takes one when any is free, else its
    /// waker joins the queue.
    pub fn poll_take(&mut self, waker: TaskId) -> (p: WaitPoll)
        requires
            old(self).count() == 0 ==> old(self).wakers().len() < TN,
        ensures
            old(self).count() > 0 ==> p == WaitPoll::Ready(None) && final(self).count() == old(self).count() - 1 && final(self).wakers() == old(self).wakers(),
            old(self).count() == 0 ==> p is Pending && final(self).count() == 0 && final(self).wakers() == old(self).wakers().push(waker),
    {
        if self.unlocked_count > 0 {
            self.unlocked_count = self.unlocked_count - 1;
            WaitPoll::Ready(None)
        } else {
            let _ = self.wakers.push_back(waker);
            WaitPoll::Pending
        }
    }
}

/// A semaphore with at most `N` free units: tasks wait to take a unit when none is
/// free, and wait to give one back when all `N` are free.
pub struct Semaphore<const N: usize, const TN: usize> {
    unlocked_count: usize,
    max_locks: usize,
    take_wakers: Deque<TaskId, TN>,
    give_wakers: Deque<TaskId, TN>,
}

impl<const N: usize, const TN: usize> Semaphore<N, TN> {
    pub closed spec fn count(&self) -> usize {
        self.unlocked_count
    }

    pub closed spec fn max_locks(&self) -> usize {
        self.max_locks
    }

    /// The tasks waiting to take a unit.
    pub closed spec fn take_wakers(&self) -> Seq<TaskId> {
        self.take_wakers.items()
    }

    /// The tasks waiting to give a unit back.
    pub closed spec fn give_wakers(&self) -> Seq<TaskId> {
        self.give_wakers.items()
    }

    /// The count never exceeds the bound, and the queues respect their capacity.
    pub open spec fn wf(&self) -> bool {
        &&& self.max_locks() == N
        &&& self.count() <= self.max_locks()
        &&& self.take_wakers().len() <= TN
        &&& self.give_wakers().len() <= TN
    }

    pub fn new(initial_count: usize) -> (s: Self)
        ensures
            s.count() == initial_count,
            s.max_locks() == N,
            s.take_wakers() == Seq::<TaskId>::empty(),
            s.give_wakers() == Seq::<TaskId>::empty(),
            initial_count <= N ==> s.wf(),
    {
        Semaphore {
            unlocked_count: initial_count,
            max_locks: N,
            take_wakers: Deque::new(),
            give_wakers: Deque::new(),
        }
    }

    /// Whether a take may be polled: a unit is free, or the take queue has room.
    pub fn can_poll_take(&self) -> (b: bool)
        ensures
            b == (self.count() > 0 || self.take_wakers().len() < TN),
    {
        self.unlocked_count > 0 || !self.take_wakers.is_full()
    }

    /// Whether a give may be polled: not all units are free, or the give queue has room.
    pub fn can_poll_give(&self) -> (b: bool)
        ensures
            b == (self.count() < self.max_locks() || self.give_wakers().len() < TN),
    {
        self.unlocked_count < self.max_locks || !self.give_wakers.is_full()
    }

    /// Frees one unit unless all are free; when one is freed, the first task waiting
    /// to take leaves its queue and is returned, to be woken.
    pub fn give(&mut self) -> (wake: Option<TaskId>)
        ensures
            old(self).count() < old(self).max_locks() ==> {
                &&& final(self).count() == old(self).count() + 1
                &&& old(self).take_wakers().len() == 0 ==> wake is None && final(self).take_wakers() == old(self).take_wakers()
                &&& old(self).take_wakers().len() > 0 ==> wake == Some(old(self).take_wakers()[0])
                    && final(self).take_wakers() == old(self).take_wakers().drop_first()
            },
            old(self).count() >= old(self).max_locks() ==> {
                &&& wake is None
                &&& final(self).count() == old(self).count()
                &&& final(self).take_wakers() == old(self).take_wakers()
            },
            final(self).max_locks() == old(self).max_locks(),
            final(self).give_wakers() == old(self).give_wakers(),
            old(self).wf() ==> final(self).wf(),
    {
        if self.unlocked_count < self.max_locks {
            self.unlocked_count = self.unlocked_count + 1;
            self.take_wakers.pop_front()
        } else {
            None
        }
    }

    /// What one poll of a task (waker `waker`) that wants to take a unit does, from
    /// `before` to `after` (see `poll_take`).
    pub open spec fn take_step(before: Self, after: Self, waker: TaskId, p: WaitPoll) -> bool {
        &&& before.count() > 0 ==> {
            &&& after.count() == before.count() - 1
            &&& after.take_wakers() == before.take_wakers()
            &&& before.count() == before.max_locks() && before.give_wakers().len() > 0 ==> p
                == WaitPoll::Ready(Some(before.give_wakers()[0])) && after.give_wakers()
                == before.give_wakers().drop_first()
            &&& !(before.count() == before.max_locks() && before.give_wakers().len() > 0) ==> p
                == WaitPoll::Ready(None) && after.give_wakers() == before.give_wakers()
        }
        &&& before.count() == 0 ==> {
            &&& p is Pending
            &&& after.count() == 0
            &&& after.take_wakers() == before.take_wakers().push(waker)
            &&& after.give_wakers() == before.give_wakers()
        }
        &&& after.max_locks() == before.max_locks()
    }

    /// What one poll of a task (waker `waker`) that wants to give a unit back does,
    /// from `before` to `after` (see `poll_give`).
    pub open spec fn give_step(before: Self, after: Self, waker: TaskId, p: WaitPoll) -> bool {
        &&& before.count() < before.max_locks() ==> {
            &&& after.count() == before.count() + 1
            &&& after.give_wakers() == before.give_wakers()
            &&& before.count() == 0 && before.take_wakers().len() > 0 ==> p == WaitPoll::Ready(
                Some(before.take_wakers()[0]),
            ) && after.take_wakers() == before.take_wakers().drop_first()
            &&& !(before.count() == 0 && before.take_wakers().len() > 0) ==> p == WaitPoll::Ready(
                None,
            ) && after.take_wakers() == before.take_wakers()
        }
        &&& before.count() >= before.max_locks() ==> {
            &&& p is Pending
            &&& after.count() == before.count()
            &&& after.give_wakers() == before.give_wakers().push(waker)
            &&& after.take_wakers() == before.take_wakers()
        }
        &&& after.max_locks() == before.max_locks()
    }

    /// One poll of a task that wants to take a unit. When one is free it takes it,
    /// and if all were free, the first task waiting to give one back is woken;
    /// otherwise its waker joins the take queue.
    pub fn poll_take(&mut self, waker: TaskId) -> (p: WaitPoll)
        requires
            old(self).count() == 0 ==> old(self).take_wakers().len() < TN,
        ensures
            Self::take_step(*old(self), *final(self), waker, p),
            old(self).wf() ==> final(self).wf(),
    {
        if self.unlocked_count > 0 {
            let mut wake = None;
            if self.unlocked_count == self.max_locks {
                wake = self.give_wakers.pop_front();
            }
            self.unlocked_count = self.unlocked_count - 1;
            WaitPoll::Ready(wake)
        } else {
            let _ = self.take_wakers.push_back(waker);
            WaitPoll::Pending
        }
    }

    /// One poll of a task that wants to give a unit back. When not all units are free
    /// it frees one, and if none was free, the first task waiting to take one is woken;
    /// otherwise its waker joins the give queue.
    pub fn poll_give(&mut self, waker: TaskId) -> (p: WaitPoll)
        requires
            old(self).count() >= old(self).max_locks() ==> old(self).give_wakers().len() < TN,
        ensures
            Self::give_step(*old(self), *final(self), waker, p),
            old(self).wf() ==> final(self).wf(),
    {
        if self.unlocked_count < self.max_locks {
            let mut wake = None;
            if self.unlocked_count == 0 {
                wake = self.take_wakers.pop_front();
            }
            self.unlocked_count = self.unlocked_count + 1;
            WaitPoll::Ready(wake)
        } else {
            let _ = self.give_wakers.push_back(waker);
            WaitPoll::Pending
        }
    }
}

/// A take that wakes a waiting giver hands out the giver first in line and removes it
/// from the give queue, the other givers keeping their order (so no giver is woken
/// twice, and the next take wakes the next giver); a take that wakes nobody leaves the
/// give queue as it was. A granted take uses up one free unit; a refused one waits at
/// the back of the take queue.
pub proof fn lemma_take_wakes_each_giver_once<const N: usize, const TN: usize>(
    before: Semaphore<N, TN>,
    after: Semaphore<N, TN>,
    waker: TaskId,
    p: WaitPoll,
)
    requires
        Semaphore::take_step(before, after, waker, p),
    ensures
        p matches WaitPoll::Ready(Some(g)) ==> {
            &&& before.give_wakers().len() > 0
            &&& g == before.give_wakers()[0]
            &&& after.give_wakers().len() + 1 == before.give_wakers().len()
            &&& forall|i: int|
                0 <= i < after.give_wakers().len() ==> after.give_wakers()[i]
                    == before.give_wakers()[i + 1]
        },
        p == WaitPoll::Ready(None) ==> after.give_wakers() == before.give_wakers(),
        p is Ready <==> before.count() > 0,
        p is Ready ==> after.count() + 1 == before.count(),
        p is Pending ==> after.count() == before.count() && after.take_wakers().len() > 0
            && after.take_wakers().last() == waker,
{
}

/// A give that wakes a waiting taker hands out the taker first in line and removes it
/// from the take queue, the other takers keeping their order (so no taker is woken
/// twice); a give that wakes nobody leaves the take queue as it was. A granted give
/// frees one unit; a refused one waits at the back of the give queue.
pub proof fn lemma_give_wakes_each_taker_once<const N: usize, const TN: usize>(
    before: Semaphore<N, TN>,
    after: Semaphore<N, TN>,
    waker: TaskId,
    p: WaitPoll,
)
    requires
        Semaphore::give_step(before, after, waker, p),
    ensures
        p matches WaitPoll::Ready(Some(t)) ==> {
            &&& before.take_wakers().len() > 0
            &&& t == before.take_wakers()[0]
            &&& after.take_wakers().len() + 1 == before.take_wakers().len()
            &&& forall|i: int|
                0 <= i < after.take_wakers().len() ==> after.take_wakers()[i]
                    == before.take_wakers()[i + 1]
        },
        p == WaitPoll::Ready(None) ==> after.take_wakers() == before.take_wakers(),
        p is Ready <==> before.count() < before.max_locks(),
        p is Ready ==> after.count() == before.count() + 1,
        p is Pending ==> after.count() == before.count() && after.give_wakers().len() > 0
            && after.give_wakers().last() == waker,
{
}

} // verus!
