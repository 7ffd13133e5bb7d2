use vstd::prelude::*;

verus! {

/// What polling a yield asks for.
pub enum YieldPoll {
    /// Wake the polling task right away and return pending, so that other ready
    /// tasks run first.
    WakeAndWait,
    /// The task has yielded once: it goes on.
    Ready,
}

/// Gives the other ready tasks a turn before the current one goes on.
pub struct Yield {
    is_yielded: bool,
}

pub fn yield_it() -> (y: Yield)
    ensures
        !y.yielded(),
{
    Yield { is_yielded: false }
}

impl Yield {
    pub closed spec fn yielded(&self) -> bool {
        self.is_yielded
    }

    /// The first poll yields; every later one is ready.
    pub fn poll(&mut self) -> (p: YieldPoll)
        ensures
            !old(self).yielded() ==> p is WakeAndWait,
            old(self).yielded() ==> p is Ready,
            final(self).yielded(),
    {
        if !self.is_yielded {
            self.is_yielded = true;
            YieldPoll::WakeAndWait
        } else {
            YieldPoll::Ready
        }
    }
}

} // verus!
