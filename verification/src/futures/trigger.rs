use crate::common::task::TaskId;
use crate::futures::deque::Deque;
use vstd::prelude::*;

verus! {

/// A one-shot event: tasks wait for it; triggering it releases exactly the tasks that
/// wait at that moment.
pub struct Trigger<const TN: usize> {
    wait_wakers: Deque<TaskId, TN>,
    is_triggered: usize,
}

impl<const TN: usize> Trigger<TN> {
    pub closed spec fn wakers(&self) -> Seq<TaskId> {
        self.wait_wakers.items()
    }

    /// How many waiting tasks the last trigger still has to let through.
    pub closed spec fn pending_releases(&self) -> usize {
        self.is_triggered
    }

    pub open spec fn wf(&self) -> bool {
        self.wakers().len() <= TN
    }

    pub fn new() -> (t: Self)
        ensures
            t.wakers() == Seq::<TaskId>::empty(),
            t.pending_releases() == 0,
            t.wf(),
    {
        Trigger { wait_wakers: Deque::new(), is_triggered: 0 }
    }

    /// Fires the event, unless a previous firing has not let all its tasks through yet:
    /// every waiting task is then to be woken (returned in line order), the line is
    /// emptied, and that many tasks may pass.
    pub fn trigger(&mut self) -> (wake: Vec<TaskId>)
        ensures
            old(self).pending_releases() == 0 ==> {
                &&& wake@ == old(self).wakers()
                &&& final(self).wakers() == Seq::<TaskId>::empty()
                &&& final(self).pending_releases() == old(self).wakers().len()
            },
            old(self).pending_releases() != 0 ==> {
                &&& wake@ == Seq::<TaskId>::empty()
                &&& final(self).wakers() == old(self).wakers()
                &&& final(self).pending_releases() == old(self).pending_releases()
            },
            old(self).wf() ==> final(self).wf(),
    {
        let mut wake: Vec<TaskId> = Vec::new();
        if self.is_triggered == 0 {
            self.is_triggered = self.wait_wakers.len();
            let ghost waiting = self.wait_wakers.items();
            while self.wait_wakers.len() > 0
                invariant
                    waiting == wake@ + self.wait_wakers.items(),
                    waiting == old(self).wakers(),
                    self.is_triggered == waiting.len(),
                decreases self.wait_wakers.items().len(),
            {
                let w = self.wait_wakers.pop_front().unwrap();
                wake.push(w);
                assert(waiting =~= wake@ + self.wait_wakers.items());
            }
            assert(wake@ =~= waiting);
            self.wait_wakers.clear();
        }
        wake
    }

    /// Whether a wait may be polled: a firing lets tasks through, or the line has room.
    pub fn can_poll_wait(&self) -> (b: bool)
        ensures
            b == (self.pending_releases() != 0 || self.wakers().len() < TN),
    {
        self.is_triggered != 0 || !self.wait_wakers.is_full()
    }

    /// One poll of a waiting task: it passes when a firing still lets tasks through,
    /// else its waker joins the line.
    pub fn poll_wait(&mut self, waker: TaskId) -> (ready: bool)
        requires
            old(self).pending_releases() == 0 ==> old(self).wakers().len() < TN,
        ensures
            ready == (old(self).pending_releases() != 0),
            ready ==> final(self).pending_releases() == old(self).pending_releases() - 1
                && final(self).wakers() == old(self).wakers(),
            !ready ==> final(self).pending_releases() == 0 && final(self).wakers() == old(self).wakers().push(waker),
            old(self).wf() ==> final(self).wf(),
    {
        if self.is_triggered == 0 {
            let _ = self.wait_wakers.push_back(waker);
            false
        } else {
            self.is_triggered = self.is_triggered - 1;
            true
        }
    }
}

} // verus!
