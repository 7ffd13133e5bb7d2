use vstd::prelude::*;

verus! {

/// Identifies a task (and the waker that wakes it).
pub type TaskId = usize;

/// A task of the runtime: its id and the slot of its future (emptied while the future
/// is polled, and for good once it has finished).
pub struct Task<F> {
    id: TaskId,
    future: Option<F>,
}

impl<F> Task<F> {
    pub closed spec fn spec_id(&self) -> TaskId {
        self.id
    }

    pub closed spec fn slot(&self) -> Option<F> {
        self.future
    }

    pub fn new(id: TaskId, future: F) -> (task: Self)
        ensures
            task.spec_id() == id,
            task.slot() == Some(future),
    {
        Task { id, future: Some(future) }
    }

    pub fn id(&self) -> (id: TaskId)
        ensures
            id == self.spec_id(),
    {
        self.id
    }

    /// The future's slot.
    pub fn future(&self) -> (slot: &Option<F>)
        ensures
            *slot == self.slot(),
    {
        &self.future
    }

    /// The future's slot, to take the future out for polling and put it back.
    pub fn future_mut(&mut self) -> (slot: &mut Option<F>)
        ensures
            *slot == old(self).slot(),
            final(self).slot() == *final(slot),
            final(self).spec_id() == old(self).spec_id(),
    {
        &mut self.future
    }
}

} // verus!
