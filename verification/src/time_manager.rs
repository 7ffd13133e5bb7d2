use crate::time::{as_millis, duration_millis};
use core::time::Duration;
use vstd::prelude::*;

verus! {

/// Whether the timeouts of `entries` never decrease from front to back.
pub open spec fn sorted_by_timeout<W>(entries: Seq<(u128, W)>) -> bool {
    forall|i: int, j: int| 0 <= i <= j < entries.len() ==> entries[i].0 <= entries[j].0
}

/// Whether `p` is where an entry due at `t` goes in `entries`: after every entry
/// due at or before `t`, before every entry due later.
pub open spec fn insertion_point<W>(entries: Seq<(u128, W)>, t: u128, p: int) -> bool {
    &&& 0 <= p <= entries.len()
    &&& forall|i: int| 0 <= i < p ==> entries[i].0 <= t
    &&& forall|i: int| p <= i < entries.len() ==> entries[i].0 > t
}

/// The pending delays: each waker with the instant (in milliseconds) at which it is due,
/// earliest first.
pub struct TimeManager<W> {
    entries: Vec<(u128, W)>,
}

impl<W> TimeManager<W> {
    /// The pending delays, earliest first.
    pub closed spec fn entries(&self) -> Seq<(u128, W)> {
        self.entries@
    }

    /// The delays are kept sorted by the instant they are due.
    pub open spec fn wf(&self) -> bool {
        sorted_by_timeout(self.entries())
    }

    pub fn new() -> (tm: Self)
        ensures
            tm.wf(),
            tm.entries() == Seq::<(u128, W)>::empty(),
    {
        TimeManager { entries: Vec::new() }
    }

    /// Whether a delay of `duration` from the instant `now` can be scheduled: its
    /// instant fits in the clock's range.
    pub fn can_schedule(now: u128, duration: &Duration) -> (b: bool)
        ensures
            b == (now + duration_millis(*duration) <= u128::MAX),
    {
        now.checked_add(as_millis(duration)).is_some()
    }

    /// Schedules `waker` to be woken `duration` after `now`, keeping the delays sorted
    /// (a new delay goes after those due at the same instant), and returns the instant
    /// the timer must next fire at: that of the earliest delay.
    pub fn schedule(&mut self, now: u128, duration: Duration, waker: W) -> (next_timeout: u128)
        requires
            old(self).wf(),
            now + duration_millis(duration) <= u128::MAX,
        ensures
            final(self).wf(),
            exists|p: int|
                #[trigger] insertion_point(old(self).entries(), (now + duration_millis(duration)) as u128, p)
                    && final(self).entries() == old(self).entries().insert(
                    p,
                    ((now + duration_millis(duration)) as u128, waker),
                ),
            next_timeout == final(self).entries()[0].0,
            forall|i: int| 0 <= i < final(self).entries().len() ==> next_timeout <= #[trigger] final(self).entries()[i].0,
    {
        let timeout_instant = now + as_millis(&duration);
        let mut p: usize = self.entries.len();
        while p > 0 && self.entries[p - 1].0 > timeout_instant
            invariant
                p <= self.entries@.len(),
                self.entries@ == old(self).entries(),
                sorted_by_timeout(self.entries@),
                forall|i: int| p <= i < self.entries@.len() ==> self.entries@[i].0 > timeout_instant,
            decreases p,
        {
            p = p - 1;
        }
        assert(insertion_point(old(self).entries(), timeout_instant, p as int));
        self.entries.insert(p, (timeout_instant, waker));
        proof {
            let s = old(self).entries();
            let n = self.entries@;
            assert(n == s.insert(p as int, (timeout_instant, waker)));
            assert forall|i: int, j: int| 0 <= i <= j < n.len() implies n[i].0 <= n[j].0 by {
                if i < p && j > p {
                    assert(n[j] == s[j - 1]);
                } else if i > p {
                    assert(n[i] == s[i - 1]);
                    assert(n[j] == s[j - 1]);
                }
            }
        }
        self.entries[0].0
    }

    /// At the instant `now`, removes every delay due at or before `now`, keeping the
    /// others in order; returns their wakers in order, and the instant the timer must
    /// next fire at (that of the earliest delay left), if any is left.
    pub fn timeout(&mut self, now: u128) -> (fired: (Vec<W>, Option<u128>))
        requires
            old(self).wf(),
        ensures
            final(self).wf(),
            final(self).entries() == old(self).entries().filter(|e: (u128, W)| e.0 > now),
            fired.0@ == old(self).entries().filter(|e: (u128, W)| e.0 <= now).map_values(
                |e: (u128, W)| e.1,
            ),
            fired.1 == (if final(self).entries().len() > 0 {
                Some(final(self).entries()[0].0)
            } else {
                None::<u128>
            }),
            forall|i: int| 0 <= i < final(self).entries().len() ==> now < #[trigger] final(self).entries()[i].0,
    {
        let ghost old_entries = self.entries@;
        let ghost keep = |e: (u128, W)| e.0 > now;
        let ghost due = |e: (u128, W)| e.0 <= now;
        let mut rest: Vec<(u128, W)> = Vec::new();
        core::mem::swap(&mut rest, &mut self.entries);
        let mut kept: Vec<(u128, W)> = Vec::new();
        let mut wakers: Vec<W> = Vec::new();
        let ghost mut i: int = 0;
        while rest.len() > 0
            invariant
                0 <= i <= old_entries.len(),
                keep == (|e: (u128, W)| e.0 > now),
                due == (|e: (u128, W)| e.0 <= now),
                rest@ == old_entries.skip(i),
                sorted_by_timeout(old_entries),
                kept@ == old_entries.take(i).filter(keep),
                wakers@ == old_entries.take(i).filter(due).map_values(|e: (u128, W)| e.1),
                sorted_by_timeout(kept@),
                forall|k: int, j: int|
                    0 <= k < kept@.len() && i <= j < old_entries.len() ==> kept@[k].0
                        <= old_entries[j].0,
            decreases rest@.len(),
        {
            let entry = rest.remove(0);
            proof {
                assert(old_entries.take(i + 1) =~= old_entries.take(i).push(entry));
                old_entries.take(i).lemma_filter_push(entry, keep);
                old_entries.take(i).lemma_filter_push(entry, due);
            }
            if entry.0 > now {
                assert(keep(entry));
                kept.push(entry);
                assert(old_entries.take(i).push(entry).filter(keep) == old_entries.take(i).filter(keep).push(entry));
                assert(kept@ == old_entries.take(i + 1).filter(keep));
            } else {
                let (_, waker) = entry;
                wakers.push(waker);
                proof {
                    let f = old_entries.take(i).filter(due);
                    assert(f.push(entry).map_values(|e: (u128, W)| e.1) =~= f.map_values(
                        |e: (u128, W)| e.1,
                    ).push(waker));
                }
            }
            proof {
                i = i + 1;
                assert(rest@ =~= old_entries.skip(i));
            }
        }
        proof {
            assert(old_entries.take(i) =~= old_entries);
            assert forall|k: int| 0 <= k < kept@.len() implies now < #[trigger] kept@[k].0 by {
                broadcast use vstd::seq_lib::group_filter_ensures;

            }
        }
        self.entries = kept;
        let next = if self.entries.len() > 0 {
            Some(self.entries[0].0)
        } else {
            None
        };
        (wakers, next)
    }
}

/// A waker scheduled for the instant `t` is among the wakers that a timeout at any
/// instant `now` at or after `t` hands out, wherever it stands among the pending delays.
pub proof fn lemma_scheduled_waker_fires<W>(entries: Seq<(u128, W)>, p: int, t: u128, waker: W, now: u128)
    requires
        0 <= p < entries.len(),
        entries[p] == (t, waker),
        t <= now,
    ensures
        entries.filter(|e: (u128, W)| e.0 <= now).map_values(|e: (u128, W)| e.1).contains(waker),
{
    let due = |e: (u128, W)| e.0 <= now;
    entries.lemma_filter_contains(due, p);
    let f = entries.filter(due);
    let k = choose|k: int| 0 <= k < f.len() && f[k] == (t, waker);
    assert(f.map_values(|e: (u128, W)| e.1)[k] == waker);
}

/// A timeout at `now` keeps every delay due after `now`, in order, and no delay is
/// handed out before its instant.
pub proof fn lemma_timeout_keeps_later_delays<W>(entries: Seq<(u128, W)>, p: int, now: u128)
    requires
        0 <= p < entries.len(),
        now < entries[p].0,
    ensures
        entries.filter(|e: (u128, W)| e.0 > now).contains(entries[p]),
        !entries.filter(|e: (u128, W)| e.0 <= now).contains(entries[p]),
{
    entries.lemma_filter_contains(|e: (u128, W)| e.0 > now, p);
    broadcast use vstd::seq_lib::group_filter_ensures;
}

/// Scheduling keeps the delays in time order and is stable: the new delay, due at
/// `t`, lands after every delay due at or before `t` (those scheduled earlier for the
/// same instant fire first) and before every delay due later, and the delays stay
/// sorted.
pub proof fn lemma_schedule_is_stable<W>(entries: Seq<(u128, W)>, t: u128, waker: W, p: int)
    requires
        sorted_by_timeout(entries),
        insertion_point(entries, t, p),
    ensures
        ({
            let after = entries.insert(p, (t, waker));
            &&& after.len() == entries.len() + 1
            &&& after[p] == (t, waker)
            &&& forall|i: int| 0 <= i < p ==> after[i] == entries[i] && after[i].0 <= t
            &&& forall|i: int| p < i < after.len() ==> after[i] == entries[i - 1] && after[i].0 > t
            &&& sorted_by_timeout(after)
        }),
{
    let after = entries.insert(p, (t, waker));
    assert forall|i: int, j: int| 0 <= i <= j < after.len() implies after[i].0 <= after[j].0 by {
        if i < p && j > p {
            assert(after[j] == entries[j - 1]);
        } else if i > p {
            assert(after[i] == entries[i - 1]);
            assert(after[j] == entries[j - 1]);
        }
    }
}

} // verus!
