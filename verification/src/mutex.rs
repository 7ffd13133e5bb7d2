use std::collections::VecDeque;
use vstd::prelude::*;

verus! {

/// Whether no waker id occurs twice in `wakers`.
pub open spec fn no_duplicates(wakers: Seq<u64>) -> bool {
    forall|i: int, j: int| 0 <= i < j < wakers.len() ==> wakers[i] != wakers[j]
}

/// The waiting queue after the task whose waker id is `waker` failed to take the lock:
/// it joins the back unless it is already waiting.
pub open spec fn enqueued(wakers: Seq<u64>, waker: u64) -> Seq<u64> {
    if wakers.contains(waker) {
        wakers
    } else {
        wakers.push(waker)
    }
}

/// An asynchronous mutex: the protected data, whether it is unlocked, and the ids of the
/// wakers of the tasks waiting for it, in arrival order.
pub struct Mutex<T> {
    data: T,
    is_unlocked: bool,
    wakers: VecDeque<u64>,
}

impl<T> Mutex<T> {
    pub closed spec fn value(&self) -> T {
        self.data
    }

    pub closed spec fn unlocked(&self) -> bool {
        self.is_unlocked
    }

    /// The ids of the waiting tasks' wakers, first in line at the front.
    pub closed spec fn wakers(&self) -> Seq<u64> {
        self.wakers@
    }

    /// Whether a poll by the task whose waker id is `waker` gets the lock.
    pub open spec fn lock_succeeds(&self, waker: u64) -> bool {
        self.unlocked() && (self.wakers().len() == 0 || self.wakers()[0] == waker)
    }

    /// No task waits twice.
    pub open spec fn wf(&self) -> bool {
        no_duplicates(self.wakers())
    }

    pub fn new(data: T) -> (m: Self)
        ensures
            m.value() == data,
            m.unlocked(),
            m.wakers() == Seq::<u64>::empty(),
            m.wf(),
    {
        Mutex { data, is_unlocked: true, wakers: VecDeque::new() }
    }

    fn contains_waker(wakers: &VecDeque<u64>, waker: u64) -> (found: bool)
        ensures
            found == wakers@.contains(waker),
    {
        let mut i: usize = 0;
        while i < wakers.len()
            invariant
                i <= wakers@.len(),
                forall|j: int| 0 <= j < i ==> wakers@[j] != waker,
            decreases wakers@.len() - i,
        {
            if wakers[i] == waker {
                assert(wakers@[i as int] == waker);
                return true;
            }
            i = i + 1;
        }
        false
    }

    /// What one poll of the task whose waker id is `waker` does, from `before` to
    /// `after`: a task that gets the lock leaves the line (if it was first in it) and
    /// the mutex is locked; a task that does not get it joins the line unless it is
    /// already in it.
    pub open spec fn poll_step(before: Self, after: Self, waker: u64, ready: bool) -> bool {
        &&& ready == before.lock_succeeds(waker)
        &&& ready ==> {
            &&& !after.unlocked()
            &&& after.wakers() == (if before.wakers().len() == 0 {
                before.wakers()
            } else {
                before.wakers().drop_first()
            })
        }
        &&& !ready ==> {
            &&& after.unlocked() == before.unlocked()
            &&& after.wakers() == enqueued(before.wakers(), waker)
        }
        &&& after.value() == before.value()
    }

    /// One poll of a task (waker id `waker`) that wants the lock. It gets the lock when
    /// the mutex is unlocked and either nobody waits or it is first in line (then it
    /// leaves the line); the mutex is then locked. Otherwise it joins the line unless it
    /// is already in it.
    pub fn poll_lock(&mut self, waker: u64) -> (ready: bool)
        ensures
            Self::poll_step(*old(self), *final(self), waker, ready),
            old(self).wf() ==> final(self).wf(),
    {
        if self.is_unlocked {
            if self.wakers.len() == 0 {
                self.is_unlocked = false;
                true
            } else {
                let next_waker = self.wakers.pop_front().unwrap();
                if next_waker == waker {
                    self.is_unlocked = false;
                    true
                } else {
                    self.wakers.push_front(next_waker);
                    assert(self.wakers@ =~= old(self).wakers());
                    if !Self::contains_waker(&self.wakers, waker) {
                        self.wakers.push_back(waker);
                    }
                    false
                }
            }
        } else {
            if !Self::contains_waker(&self.wakers, waker) {
                self.wakers.push_back(waker);
            }
            false
        }
    }

    /// Releases the lock and returns the id of the waker to wake: the first task in
    /// line, which stays in line until it takes the lock.
    pub fn unlock(&mut self) -> (wake: Option<u64>)
        ensures
            final(self).unlocked(),
            final(self).wakers() == old(self).wakers(),
            final(self).value() == old(self).value(),
            wake == (if old(self).wakers().len() == 0 {
                None::<u64>
            } else {
                Some(old(self).wakers()[0])
            }),
    {
        self.is_unlocked = true;
        if self.wakers.len() == 0 {
            None
        } else {
            Some(self.wakers[0])
        }
    }

    /// The protected data.
    pub fn deref(&self) -> (data: &T)
        ensures
            *data == self.value(),
    {
        &self.data
    }

    /// The protected data, to change it.
    pub fn deref_mut(&mut self) -> (data: &mut T)
        ensures
            *data == old(self).value(),
            final(self).value() == *final(data),
            final(self).unlocked() == old(self).unlocked(),
            final(self).wakers() == old(self).wakers(),
    {
        &mut self.data
    }
}


/// Mutual exclusion: once a poll is granted the lock, the mutex is locked, and every
/// later poll, by any task, is refused and leaves it locked, until `unlock`.
pub proof fn lemma_mutual_exclusion<T>(m0: Mutex<T>, m1: Mutex<T>, m2: Mutex<T>, w1: u64, w2: u64, r2: bool)
    requires
        Mutex::poll_step(m0, m1, w1, true),
        Mutex::poll_step(m1, m2, w2, r2),
    ensures
        !m1.unlocked(),
        !r2,
        !m2.unlocked(),
{
}


/// The mutex stays locked through a run of polls that starts with a granted one.
proof fn lemma_locked_through_polls<T>(
    states: Seq<Mutex<T>>,
    wakers: Seq<u64>,
    granted: Seq<bool>,
    k: int,
)
    requires
        states.len() == wakers.len() + 1,
        granted.len() == wakers.len(),
        wakers.len() >= 1,
        granted[0],
        forall|i: int|
            #![trigger granted[i]]
            0 <= i < wakers.len() ==> Mutex::poll_step(
                states[i],
                states[i + 1],
                wakers[i],
                granted[i],
            ),
        1 <= k < states.len(),
    ensures
        !states[k].unlocked(),
    decreases k,
{
    let prev: bool = granted[k - 1];
    assert(states[(k - 1) + 1] == states[k]);
    if k > 1 {
        lemma_locked_through_polls(states, wakers, granted, k - 1);
    }
}

/// Mutual exclusion over any run of polls: once a poll is granted the lock, every poll
/// that follows it, by any task, is refused and the mutex stays locked, until `unlock`
/// (which dropping the lock's guard calls).
pub proof fn lemma_exclusive_until_unlock<T>(
    states: Seq<Mutex<T>>,
    wakers: Seq<u64>,
    granted: Seq<bool>,
)
    requires
        states.len() == wakers.len() + 1,
        granted.len() == wakers.len(),
        wakers.len() >= 1,
        granted[0],
        forall|i: int|
            #![trigger granted[i]]
            0 <= i < wakers.len() ==> Mutex::poll_step(
                states[i],
                states[i + 1],
                wakers[i],
                granted[i],
            ),
    ensures
        forall|i: int| 1 <= i < granted.len() ==> !granted[i],
        forall|i: int| 1 <= i < states.len() ==> !states[i].unlocked(),
{
    assert forall|i: int| 1 <= i < states.len() implies !states[i].unlocked() by {
        lemma_locked_through_polls(states, wakers, granted, i);
    }
    assert forall|i: int| 1 <= i < granted.len() implies !granted[i] by {
        lemma_locked_through_polls(states, wakers, granted, i);
        let g: bool = granted[i];
    }
}

/// A refused task waits in line, whether the mutex is locked or free: after a refused
/// poll its waker is in the line (so `unlock`, which wakes the first in line, reaches
/// it in turn), the tasks that waited before still wait in the same order, and it
/// joins at the back unless it was already waiting.
pub proof fn lemma_refused_poll_waits<T>(before: Mutex<T>, after: Mutex<T>, waker: u64)
    requires
        Mutex::poll_step(before, after, waker, false),
    ensures
        after.wakers().contains(waker),
        after.wakers().len() >= before.wakers().len(),
        forall|i: int| 0 <= i < before.wakers().len() ==> after.wakers()[i] == before.wakers()[i],
        !before.wakers().contains(waker) ==> after.wakers() == before.wakers().push(waker),
        after.unlocked() == before.unlocked(),
{
    if !before.wakers().contains(waker) {
        assert(after.wakers()[before.wakers().len() as int] == waker);
    }
}

/// A granted poll takes the task out of the line: its waker is no longer first, and
/// the other waiting tasks keep their order.
pub proof fn lemma_granted_poll_leaves_line<T>(before: Mutex<T>, after: Mutex<T>, waker: u64)
    requires
        Mutex::poll_step(before, after, waker, true),
    ensures
        before.unlocked(),
        before.wakers().len() == 0 || before.wakers()[0] == waker,
        !after.unlocked(),
        before.wakers().len() > 0 ==> after.wakers().len() + 1 == before.wakers().len(),
        forall|i: int| 0 <= i < after.wakers().len() ==> after.wakers()[i] == before.wakers()[i + 1],
{
}

} // verus!
