use crate::common::result::HATError;
use crate::common::task::TaskId;
use crate::futures::deque::Deque;
use crate::futures::semaphore::Semaphore;
use crate::futures::WaitPoll;
use vstd::prelude::*;

verus! {

/// How many units a run of `n` gives frees on a semaphore with `count` of `max` free.
pub open spec fn freed_units(n: int, count: int, max: int) -> int {
    if count >= max {
        0
    } else if n <= max - count {
        n
    } else {
        max - count
    }
}

/// A bounded asynchronous channel: up to `N` queued items, with a semaphore whose
/// count follows the number of items, so senders wait while it is full and receivers
/// wait while it is empty.
pub struct Channel<T, const N: usize, const TN: usize> {
    queue: Deque<T, N>,
    sem: Semaphore<N, TN>,
}

impl<T, const N: usize, const TN: usize> Channel<T, N, TN> {
    /// The queued items, oldest first.
    pub closed spec fn items(&self) -> Seq<T> {
        self.queue.items()
    }

    /// The semaphore that paces senders and receivers.
    pub closed spec fn semaphore(&self) -> Semaphore<N, TN> {
        self.sem
    }

    pub open spec fn wf(&self) -> bool {
        &&& self.items().len() <= N
        &&& self.semaphore().wf()
    }

    /// Between operations, the semaphore counts exactly the queued items.
    pub open spec fn balanced(&self) -> bool {
        &&& self.wf()
        &&& self.semaphore().count() == self.items().len()
    }

    pub fn new() -> (c: Self)
        ensures
            c.items() == Seq::<T>::empty(),
            c.semaphore().count() == 0,
            c.semaphore().max_locks() == N,
            c.semaphore().take_wakers() == Seq::<TaskId>::empty(),
            c.semaphore().give_wakers() == Seq::<TaskId>::empty(),
            c.wf(),
    {
        Channel { queue: Deque::new(), sem: Semaphore::new(0) }
    }

    /// Drops every queued item, giving the semaphore one unit per item (a give with all
    /// units free does nothing), and returns the tasks those gives wake.
    pub fn clear(&mut self) -> (wake: Vec<TaskId>)
        ensures
            final(self).items() == Seq::<T>::empty(),
            ({
                let s = old(self).semaphore();
                let k = freed_units(
                    old(self).items().len() as int,
                    s.count() as int,
                    s.max_locks() as int,
                );
                let woken = if k <= s.take_wakers().len() {
                    k
                } else {
                    s.take_wakers().len() as int
                };
                &&& final(self).semaphore().count() == s.count() + k
                &&& final(self).semaphore().max_locks() == s.max_locks()
                &&& wake@ == s.take_wakers().take(woken)
                &&& final(self).semaphore().take_wakers() == s.take_wakers().skip(woken)
                &&& final(self).semaphore().give_wakers() == s.give_wakers()
            }),
            old(self).wf() ==> final(self).wf(),
    {
        let n = self.queue.len();
        let ghost s = self.sem;
        let mut wake: Vec<TaskId> = Vec::new();
        let mut i: usize = 0;
        while i < n
            invariant
                i <= n,
                n == old(self).items().len(),
                s == old(self).semaphore(),
                self.queue == old(self).queue,
                ({
                    let k = freed_units(i as int, s.count() as int, s.max_locks() as int);
                    let woken = if k <= s.take_wakers().len() {
                        k
                    } else {
                        s.take_wakers().len() as int
                    };
                    &&& self.sem.count() == s.count() + k
                    &&& self.sem.max_locks() == s.max_locks()
                    &&& wake@ == s.take_wakers().take(woken)
                    &&& self.sem.take_wakers() == s.take_wakers().skip(woken)
                    &&& self.sem.give_wakers() == s.give_wakers()
                }),
                s.wf() ==> self.sem.wf(),
            decreases n - i,
        {
            let ghost before = self.sem;
            let ghost wake_before = wake@;
            if let Some(w) = self.sem.give() {
                wake.push(w);
            }
            proof {
                let k = freed_units(i as int, s.count() as int, s.max_locks() as int);
                let woken = if k <= s.take_wakers().len() {
                    k
                } else {
                    s.take_wakers().len() as int
                };
                if before.count() < before.max_locks() && before.take_wakers().len() > 0 {
                    assert(s.take_wakers().take(woken + 1) =~= s.take_wakers().take(woken).push(
                        s.take_wakers()[woken],
                    ));
                    assert(s.take_wakers().skip(woken + 1) =~= s.take_wakers().skip(
                        woken,
                    ).drop_first());
                }
            }
            i = i + 1;
        }
        self.queue.clear();
        wake
    }

    pub fn len(&self) -> (n: usize)
        ensures
            n == self.items().len(),
    {
        self.queue.len()
    }

    /// Whether a send may be polled (see `Semaphore::can_poll_give`).
    pub fn can_poll_send(&self) -> (b: bool)
        ensures
            b == (self.semaphore().count() < self.semaphore().max_locks()
                || self.semaphore().give_wakers().len() < TN),
    {
        self.sem.can_poll_give()
    }

    /// Whether a receive may be polled (see `Semaphore::can_poll_take`).
    pub fn can_poll_recv(&self) -> (b: bool)
        ensures
            b == (self.semaphore().count() > 0 || self.semaphore().take_wakers().len() < TN),
    {
        self.sem.can_poll_take()
    }

    /// One poll of a sender waiting for room (the semaphore's give wait).
    pub fn poll_send(&mut self, waker: TaskId) -> (p: WaitPoll)
        requires
            old(self).semaphore().count() >= old(self).semaphore().max_locks() ==> old(self).semaphore().give_wakers().len() < TN,
        ensures
            final(self).items() == old(self).items(),
            Semaphore::give_step(old(self).semaphore(), final(self).semaphore(), waker, p),
            old(self).wf() ==> final(self).wf(),
    {
        self.sem.poll_give(waker)
    }

    /// Queues `data` once the sender has room; a full queue refuses it.
    pub fn push(&mut self, data: T) -> (r: Result<(), HATError>)
        ensures
            old(self).items().len() < N ==> r is Ok && final(self).items() == old(self).items().push(data),
            old(self).items().len() >= N ==> r == Err::<(), HATError>(HATError::SendError)
                && final(self).items() == old(self).items(),
            final(self).semaphore() == old(self).semaphore(),
    {
        match self.queue.push_back(data) {
            Ok(()) => Ok(()),
            Err(_) => Err(HATError::SendError),
        }
    }

    /// One poll of a receiver waiting for an item (the semaphore's take wait).
    pub fn poll_recv(&mut self, waker: TaskId) -> (p: WaitPoll)
        requires
            old(self).semaphore().count() == 0 ==> old(self).semaphore().take_wakers().len() < TN,
        ensures
            final(self).items() == old(self).items(),
            Semaphore::take_step(old(self).semaphore(), final(self).semaphore(), waker, p),
            old(self).wf() ==> final(self).wf(),
    {
        self.sem.poll_take(waker)
    }

    /// Takes the oldest item once the receiver may; an empty queue gives an error.
    pub fn pop(&mut self) -> (r: Result<T, HATError>)
        ensures
            old(self).items().len() > 0 ==> r == Ok::<T, HATError>(old(self).items()[0])
                && final(self).items() == old(self).items().drop_first(),
            old(self).items().len() == 0 ==> r == Err::<T, HATError>(HATError::RecvError)
                && final(self).items() == old(self).items(),
            final(self).semaphore() == old(self).semaphore(),
    {
        match self.queue.pop_front() {
            Some(data) => Ok(data),
            None => Err(HATError::RecvError),
        }
    }
}


/// In a balanced channel, a sender whose poll is granted finds room for its item, and a
/// receiver whose poll is granted finds an item.
pub proof fn lemma_granted_polls_succeed<T, const N: usize, const TN: usize>(
    c: Channel<T, N, TN>,
)
    requires
        c.balanced(),
    ensures
        c.semaphore().count() < c.semaphore().max_locks() ==> c.items().len() < N,
        c.semaphore().count() > 0 ==> c.items().len() > 0,
{
}

} // verus!
