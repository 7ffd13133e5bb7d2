use crate::common::task::TaskId;
use vstd::prelude::*;

pub mod channel;
pub mod deque;
pub mod mutex;
pub mod trigger;
pub mod semaphore;
pub mod time;

verus! {

/// The outcome of polling a wait on a synchronisation primitive.
pub enum WaitPoll {
    /// The wait is over; the task given, if any, must be woken.
    Ready(Option<TaskId>),
    /// The polling task's waker was queued: wait to be woken.
    Pending,
}

} // verus!
