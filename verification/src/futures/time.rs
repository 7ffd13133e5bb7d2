use crate::time::{as_millis, duration_millis};
use core::time::Duration;
use vstd::prelude::*;

verus! {

/// Where a delay stands: not started (idle), waiting with the waker to call, or over.
pub enum DelayState<W> {
    Idle,
    Waiting(W),
    Completed,
}

impl<W> DelayState<W> {
    /// The timer ran out: the delay is over, and the waker it waited with, if any, is
    /// returned to be woken.
    pub fn complete(&mut self) -> (wake: Option<W>)
        ensures
            *final(self) is Completed,
            wake == (match *old(self) {
                DelayState::Waiting(w) => Some(w),
                _ => None::<W>,
            }),
    {
        let mut previous = DelayState::Completed;
        core::mem::swap(self, &mut previous);
        match previous {
            DelayState::Waiting(w) => Some(w),
            _ => None,
        }
    }
}

/// What polling a delay future asks for.
pub enum DelayPoll {
    /// Start a timer of this many milliseconds for the delay, then wait.
    Schedule(u32),
    /// The delay is over.
    Ready,
}

/// A delay: its state and its duration.
pub struct DelayFuture<W> {
    state: DelayState<W>,
    timeout: Duration,
}

/// A delay of `duration`, not started yet.
pub fn delay<W>(duration: Duration) -> (d: DelayFuture<W>)
    ensures
        d.state() is Idle,
        d.timeout() == duration,
{
    DelayFuture { state: DelayState::Idle, timeout: duration }
}

impl<W> DelayFuture<W> {
    pub closed spec fn state(&self) -> DelayState<W> {
        self.state
    }

    pub closed spec fn timeout(&self) -> Duration {
        self.timeout
    }

    /// Whether the delay waits for its timer (a poll then stops the program).
    pub fn is_waiting(&self) -> (b: bool)
        ensures
            b == (self.state() is Waiting),
    {
        match self.state {
            DelayState::Waiting(_) => true,
            _ => false,
        }
    }

    /// One poll. A delay not started records the waker and asks for a timer of its
    /// duration in milliseconds (cut to 32 bits); a delay that is over is ready. A poll
    /// while waiting is a fault that stops the program, so it is not admitted.
    pub fn poll(&mut self, waker: W) -> (p: DelayPoll)
        requires
            !(old(self).state() is Waiting),
        ensures
            old(self).state() is Idle ==> {
                &&& p == DelayPoll::Schedule(duration_millis(old(self).timeout()) as u32)
                &&& final(self).state() == DelayState::Waiting(waker)
            },
            old(self).state() is Completed ==> p is Ready && final(self).state() == old(self).state(),
            final(self).timeout() == old(self).timeout(),
    {
        match self.state {
            DelayState::Completed => DelayPoll::Ready,
            _ => {
                self.state = DelayState::Waiting(waker);
                DelayPoll::Schedule(as_millis(&self.timeout) as u32)
            },
        }
    }

    /// The timer ran out (see `DelayState::complete`).
    pub fn complete(&mut self) -> (wake: Option<W>)
        ensures
            final(self).state() is Completed,
            wake == (match old(self).state() {
                DelayState::Waiting(w) => Some(w),
                _ => None::<W>,
            }),
            final(self).timeout() == old(self).timeout(),
    {
        self.state.complete()
    }
}

} // verus!
