use vstd::prelude::*;

verus! {

/// A delay handed to the timer thread: the shared state of the delay and the instant
/// (in milliseconds) at which it runs out.
pub struct TimerEntry<S> {
    state: S,
    timeout: u128,
}

impl<S> TimerEntry<S> {
    pub closed spec fn state(&self) -> S {
        self.state
    }

    pub closed spec fn timeout(&self) -> u128 {
        self.timeout
    }

    pub fn new(state: S, timeout: u128) -> (e: Self)
        ensures
            e.state() == state,
            e.timeout() == timeout,
    {
        TimerEntry { state, timeout }
    }

    pub fn get_timeout(&self) -> (t: u128)
        ensures
            t == self.timeout(),
    {
        self.timeout
    }

    /// The delay's shared state, to complete it.
    pub fn into_state(self) -> (s: S)
        ensures
            s == self.state(),
    {
        self.state
    }
}

/// The entry of a new delay of `timeout` milliseconds requested at the instant `now`.
pub fn timer_new_delay<S>(state: S, now: u128, timeout: u32) -> (e: TimerEntry<S>)
    requires
        now + timeout <= u128::MAX,
    ensures
        e.state() == state,
        e.timeout() == now + timeout,
{
    TimerEntry::new(state, now + timeout as u128)
}

/// Whether the entries' instants never decrease from front to back.
pub open spec fn sorted_entries<S>(entries: Seq<TimerEntry<S>>) -> bool {
    forall|i: int, j: int| 0 <= i <= j < entries.len() ==> entries[i].timeout() <= entries[j].timeout()
}

/// The timer thread's pending delays, earliest first.
pub struct TimerQueue<S> {
    pending_tasks: Vec<TimerEntry<S>>,
}

impl<S> TimerQueue<S> {
    pub closed spec fn pending(&self) -> Seq<TimerEntry<S>> {
        self.pending_tasks@
    }

    pub open spec fn wf(&self) -> bool {
        sorted_entries(self.pending())
    }

    pub fn new() -> (q: Self)
        ensures
            q.pending() == Seq::<TimerEntry<S>>::empty(),
            q.wf(),
    {
        TimerQueue { pending_tasks: Vec::new() }
    }

    pub fn is_empty(&self) -> (empty: bool)
        ensures
            empty == (self.pending().len() == 0),
    {
        self.pending_tasks.len() == 0
    }

    /// Adds a received entry, keeping the entries sorted; it goes after the entries due
    /// at the same instant, as a stable sort of the entries would put it.
    pub fn push(&mut self, entry: TimerEntry<S>)
        requires
            old(self).wf(),
        ensures
            final(self).wf(),
            exists|p: int|
                {
                    &&& 0 <= p <= old(self).pending().len()
                    &&& forall|i: int| 0 <= i < p ==> old(self).pending()[i].timeout() <= entry.timeout()
                    &&& forall|i: int|
                        p <= i < old(self).pending().len() ==> old(self).pending()[i].timeout()
                            > entry.timeout()
                    &&& final(self).pending() == old(self).pending().insert(p, entry)
                },
    {
        let t = entry.get_timeout();
        let mut p: usize = self.pending_tasks.len();
        while p > 0 && self.pending_tasks[p - 1].get_timeout() > t
            invariant
                p <= self.pending_tasks@.len(),
                self.pending_tasks@ == old(self).pending(),
                sorted_entries(self.pending_tasks@),
                forall|i: int| p <= i < self.pending_tasks@.len() ==> self.pending_tasks@[i].timeout() > t,
            decreases p,
        {
            p = p - 1;
        }
        self.pending_tasks.insert(p, entry);
        proof {
            let s = old(self).pending();
            let n = self.pending_tasks@;
            assert forall|i: int, j: int| 0 <= i <= j < n.len() implies n[i].timeout() <= n[j].timeout() by {
                if i < p && j > p {
                    assert(n[j] == s[j - 1]);
                } else if i > p {
                    assert(n[i] == s[i - 1]);
                    assert(n[j] == s[j - 1]);
                }
            }
        }
    }

    /// At the instant `now`, takes out the earliest entry if it is due.
    pub fn pop_due(&mut self, now: u128) -> (due: Option<TimerEntry<S>>)
        requires
            old(self).wf(),
        ensures
            final(self).wf(),
            old(self).pending().len() > 0 && old(self).pending()[0].timeout() <= now ==> {
                &&& due == Some(old(self).pending()[0])
                &&& final(self).pending() == old(self).pending().drop_first()
            },
            !(old(self).pending().len() > 0 && old(self).pending()[0].timeout() <= now) ==> {
                &&& due is None
                &&& final(self).pending() == old(self).pending()
            },
    {
        if self.pending_tasks.len() > 0 && self.pending_tasks[0].get_timeout() <= now {
            let e = self.pending_tasks.remove(0);
            assert(self.pending_tasks@ =~= old(self).pending().drop_first());
            Some(e)
        } else {
            None
        }
    }
}

} // verus!
