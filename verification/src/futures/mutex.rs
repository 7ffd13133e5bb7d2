use crate::common::task::TaskId;
use crate::futures::deque::Deque;
use vstd::prelude::*;

verus! {

/// An asynchronous mutex for the task runtime: the protected data, whether it is
/// unlocked, and the waiting tasks' wakers (at most `TN`), first in line at the front.
pub struct Mutex<T, const TN: usize> {
    data: T,
    is_unlocked: bool,
    wakers: Deque<TaskId, TN>,
}

impl<T, const TN: usize> Mutex<T, TN> {
    pub closed spec fn value(&self) -> T {
        self.data
    }

    pub closed spec fn unlocked(&self) -> bool {
        self.is_unlocked
    }

    pub closed spec fn wakers(&self) -> Seq<TaskId> {
        self.wakers.items()
    }

    pub open spec fn wf(&self) -> bool {
        self.wakers().len() <= TN
    }

    /// Whether a poll of `waker` would get the lock: the mutex is unlocked and either
    /// nobody waits or `waker` is first in line.
    pub open spec fn lock_succeeds(&self, waker: TaskId) -> bool {
        self.unlocked() && (self.wakers().len() == 0 || self.wakers()[0] == waker)
    }

    /// Whether a refused poll of `waker` adds it to the back of the line: it is not
    /// first in line already.
    pub open spec fn joins_line(&self, waker: TaskId) -> bool {
        !self.lock_succeeds(waker) && !(self.wakers().len() > 0 && self.wakers()[0] == waker)
    }

    /// What one poll of `waker` does, from `before` to `after`: a granted poll locks the
    /// mutex and takes the task out of the front of the line (if it was there); a refused
    /// poll leaves the lock as it was and puts the task at the back of the line, unless
    /// it is first in line already.
    pub open spec fn poll_step(before: Self, after: Self, waker: TaskId, ready: bool) -> bool {
        &&& ready == before.lock_succeeds(waker)
        &&& ready ==> {
            &&& !after.unlocked()
            &&& after.wakers() == (if before.wakers().len() == 0 {
                before.wakers()
            } else {
                before.wakers().drop_first()
            })
        }
        &&& !ready ==> {
            &&& after.unlocked() == before.unlocked()
            &&& after.wakers() == (if before.joins_line(waker) {
                before.wakers().push(waker)
            } else {
                before.wakers()
            })
        }
        &&& after.value() == before.value()
    }

    pub fn new(data: T) -> (m: Self)
        ensures
            m.value() == data,
            m.unlocked(),
            m.wakers() == Seq::<TaskId>::empty(),
            m.wf(),
    {
        Mutex { data, is_unlocked: true, wakers: Deque::new() }
    }

    /// Whether `waker` may poll: it does not have to join the line, or the line has
    /// room for it.
    pub fn can_poll_lock(&self, waker: TaskId) -> (b: bool)
        ensures
            b == (!self.joins_line(waker) || self.wakers().len() < TN),
    {
        let first = match self.wakers.front() {
            Some(w) => *w == waker,
            None => false,
        };
        first || (self.is_unlocked && self.wakers.len() == 0) || !self.wakers.is_full()
    }

    /// One poll of a task that wants the lock (see `poll_step`): only an unlocked mutex
    /// is granted, to the first task in line, or to any task when nobody waits.
    pub fn poll_lock(&mut self, waker: TaskId) -> (ready: bool)
        requires
            old(self).joins_line(waker) ==> old(self).wakers().len() < TN,
        ensures
            Self::poll_step(*old(self), *final(self), waker, ready),
            old(self).wf() ==> final(self).wf(),
    {
        let first = match self.wakers.front() {
            Some(w) => *w == waker,
            None => false,
        };
        if self.is_unlocked && self.wakers.len() == 0 {
            self.is_unlocked = false;
            true
        } else if first {
            if self.is_unlocked {
                let _ = self.wakers.pop_front();
                self.is_unlocked = false;
                true
            } else {
                false
            }
        } else {
            let _ = self.wakers.push_back(waker);
            false
        }
    }

    /// Releases the lock and returns the first waiting task, which stays in line, to be
    /// woken.
    pub fn unlock(&mut self) -> (wake: Option<TaskId>)
        ensures
            final(self).unlocked(),
            final(self).wakers() == old(self).wakers(),
            final(self).value() == old(self).value(),
            wake == (if old(self).wakers().len() == 0 {
                None::<TaskId>
            } else {
                Some(old(self).wakers()[0])
            }),
    {
        self.is_unlocked = true;
        match self.wakers.front() {
            Some(w) => Some(*w),
            None => None,
        }
    }

    /// The protected data.
    pub fn deref(&self) -> (data: &T)
        ensures
            *data == self.value(),
    {
        &self.data
    }

    /// The protected data, to change it.
    pub fn deref_mut(&mut self) -> (data: &mut T)
        ensures
            *data == old(self).value(),
            final(self).value() == *final(data),
            final(self).unlocked() == old(self).unlocked(),
            final(self).wakers() == old(self).wakers(),
    {
        &mut self.data
    }
}


/// Mutual exclusion: once a poll is granted the lock, the mutex is locked, and every
/// later poll, by any task, is refused and leaves it locked, until `unlock`.
pub proof fn lemma_mutual_exclusion<T, const TN: usize>(
    m0: Mutex<T, TN>,
    m1: Mutex<T, TN>,
    m2: Mutex<T, TN>,
    w1: TaskId,
    w2: TaskId,
    r2: bool,
)
    requires
        Mutex::poll_step(m0, m1, w1, true),
        Mutex::poll_step(m1, m2, w2, r2),
    ensures
        !m1.unlocked(),
        !r2,
        !m2.unlocked(),
{
}


/// The mutex stays locked through a run of polls that starts with a granted one.
proof fn lemma_locked_through_polls<T, const TN: usize>(
    states: Seq<Mutex<T, TN>>,
    wakers: Seq<TaskId>,
    granted: Seq<bool>,
    k: int,
)
    requires
        states.len() == wakers.len() + 1,
        granted.len() == wakers.len(),
        wakers.len() >= 1,
        granted[0],
        forall|i: int|
            #![trigger granted[i]]
            0 <= i < wakers.len() ==> Mutex::poll_step(
                states[i],
                states[i + 1],
                wakers[i],
                granted[i],
            ),
        1 <= k < states.len(),
    ensures
        !states[k].unlocked(),
    decreases k,
{
    let prev: bool = granted[k - 1];
    assert(states[(k - 1) + 1] == states[k]);
    if k > 1 {
        lemma_locked_through_polls(states, wakers, granted, k - 1);
    }
}

/// Mutual exclusion over any run of polls: once a poll is granted the lock, every poll
/// that follows it, by any task, is refused and the mutex stays locked, until `unlock`
/// (which dropping the lock's guard calls).
pub proof fn lemma_exclusive_until_unlock<T, const TN: usize>(
    states: Seq<Mutex<T, TN>>,
    wakers: Seq<TaskId>,
    granted: Seq<bool>,
)
    requires
        states.len() == wakers.len() + 1,
        granted.len() == wakers.len(),
        wakers.len() >= 1,
        granted[0],
        forall|i: int|
            #![trigger granted[i]]
            0 <= i < wakers.len() ==> Mutex::poll_step(
                states[i],
                states[i + 1],
                wakers[i],
                granted[i],
            ),
    ensures
        forall|i: int| 1 <= i < granted.len() ==> !granted[i],
        forall|i: int| 1 <= i < states.len() ==> !states[i].unlocked(),
{
    assert forall|i: int| 1 <= i < states.len() implies !states[i].unlocked() by {
        lemma_locked_through_polls(states, wakers, granted, i);
    }
    assert forall|i: int| 1 <= i < granted.len() implies !granted[i] by {
        lemma_locked_through_polls(states, wakers, granted, i);
        let g: bool = granted[i];
    }
}

/// A refused task waits in line, whether the mutex is locked or free: after a refused
/// poll the task is in the line (so an `unlock` reaches it in turn), the tasks that
/// waited before still wait in the same order, and a task that was not first in line
/// joins at the back.
pub proof fn lemma_refused_poll_waits<T, const TN: usize>(
    before: Mutex<T, TN>,
    after: Mutex<T, TN>,
    waker: TaskId,
)
    requires
        Mutex::poll_step(before, after, waker, false),
    ensures
        after.wakers().contains(waker),
        after.wakers().len() >= before.wakers().len(),
        forall|i: int| 0 <= i < before.wakers().len() ==> after.wakers()[i] == before.wakers()[i],
        !(before.wakers().len() > 0 && before.wakers()[0] == waker) ==> after.wakers()
            == before.wakers().push(waker),
        after.unlocked() == before.unlocked(),
{
    if before.wakers().len() > 0 && before.wakers()[0] == waker {
        assert(after.wakers()[0] == waker);
    } else {
        assert(after.wakers()[before.wakers().len() as int] == waker);
    }
}

/// A granted poll finds the mutex free and either nobody waiting or the task first in
/// line, locks it, and takes the task out of the line, the others keeping their order.
pub proof fn lemma_granted_poll_leaves_line<T, const TN: usize>(
    before: Mutex<T, TN>,
    after: Mutex<T, TN>,
    waker: TaskId,
)
    requires
        Mutex::poll_step(before, after, waker, true),
    ensures
        before.unlocked(),
        before.wakers().len() == 0 || before.wakers()[0] == waker,
        !after.unlocked(),
        before.wakers().len() > 0 ==> after.wakers().len() + 1 == before.wakers().len(),
        forall|i: int| 0 <= i < after.wakers().len() ==> after.wakers()[i] == before.wakers()[i + 1],
{
}

} // verus!
