use crate::time::{as_millis, duration_millis, from_millis};
use core::time::Duration;
use vstd::prelude::*;

verus! {

/// What polling a delay asks for.
pub enum DelayPoll {
    /// The delay has run out.
    Ready,
    /// First poll: schedule the delay's duration with the time manager, then wait.
    ScheduleAndWait,
    /// The delay is scheduled and has not run out yet: keep waiting.
    Wait,
}

/// A delay of a fixed duration: the instant it runs out at, once it has been polled
/// (and so scheduled) for the first time.
pub struct Delay {
    deadline: Option<u128>,
    duration: Duration,
}

/// A delay of `milli` milliseconds.
pub fn delay_ms(milli: u64) -> (d: Delay)
    ensures
        d.deadline() is None,
        duration_millis(d.duration()) == milli as u128,
{
    Delay::new(from_millis(milli))
}

impl Delay {
    /// The instant (in milliseconds) the delay runs out at, once scheduled.
    pub closed spec fn deadline(&self) -> Option<u128> {
        self.deadline
    }

    pub closed spec fn duration(&self) -> Duration {
        self.duration
    }

    /// What one poll at the instant `now` does, from `before` to `after`: the first poll
    /// fixes the deadline `now` plus the duration and asks to schedule it; a later poll
    /// is ready exactly when the deadline has come, and waits otherwise.
    pub open spec fn poll_step(before: Self, after: Self, now: u128, p: DelayPoll) -> bool {
        &&& after.duration() == before.duration()
        &&& match before.deadline() {
            None => {
                &&& p is ScheduleAndWait
                &&& after.deadline() == Some((now + duration_millis(before.duration())) as u128)
            },
            Some(d) => {
                &&& after.deadline() == before.deadline()
                &&& (now >= d ==> p is Ready)
                &&& (now < d ==> p is Wait)
            },
        }
    }

    pub fn new(duration: Duration) -> (d: Self)
        ensures
            d.deadline() is None,
            d.duration() == duration,
    {
        Delay { deadline: None, duration }
    }

    /// The duration to schedule.
    pub fn get_duration(&self) -> (d: Duration)
        ensures
            d == self.duration(),
    {
        self.duration
    }

    /// Whether a poll at `now` may be made: a delay not scheduled yet needs its
    /// deadline to fit in the clock's range.
    pub fn can_poll(&self, now: u128) -> (b: bool)
        ensures
            b == (self.deadline() is Some || now + duration_millis(self.duration()) <= u128::MAX),
    {
        match self.deadline {
            Some(_) => true,
            None => now.checked_add(as_millis(&self.duration)).is_some(),
        }
    }

    /// One poll at the instant `now` (see `poll_step`).
    pub fn poll(&mut self, now: u128) -> (p: DelayPoll)
        requires
            old(self).deadline() is None ==> now + duration_millis(old(self).duration()) <= u128::MAX,
        ensures
            Self::poll_step(*old(self), *final(self), now, p),
    {
        match self.deadline {
            None => {
                self.deadline = Some(now + as_millis(&self.duration));
                DelayPoll::ScheduleAndWait
            },
            Some(d) => {
                if now >= d {
                    DelayPoll::Ready
                } else {
                    DelayPoll::Wait
                }
            },
        }
    }
}

/// A delay ends, and only once its duration has passed: after the first poll at `t0`,
/// a poll at `now` is ready exactly when `now` is at least `t0` plus the duration, and
/// the deadline stays fixed for every later poll.
pub proof fn lemma_delay_ends_after_duration(
    d0: Delay,
    d1: Delay,
    d2: Delay,
    t0: u128,
    p1: DelayPoll,
    now: u128,
    p2: DelayPoll,
)
    requires
        d0.deadline() is None,
        t0 + duration_millis(d0.duration()) <= u128::MAX,
        Delay::poll_step(d0, d1, t0, p1),
        Delay::poll_step(d1, d2, now, p2),
    ensures
        p1 is ScheduleAndWait,
        p2 is Ready <==> now >= t0 + duration_millis(d0.duration()),
        d2.deadline() == d1.deadline(),
{
}

} // verus!
