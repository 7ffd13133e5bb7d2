use vstd::prelude::*;

verus! {

/// A unit of work scheduled by the executor: a name, the hash that identifies the
/// task (and its waker), and the task's future, held as an opaque payload.
pub struct Task<F> {
    name: &'static str,
    hash: u64,
    future: F,
}

impl<F> Task<F> {
    /// The task's name, as characters.
    pub closed spec fn spec_name(&self) -> Seq<char> {
        self.name@
    }

    /// The hash that identifies the task.
    pub closed spec fn spec_hash(&self) -> u64 {
        self.hash
    }

    /// The task's future payload.
    pub closed spec fn spec_future(&self) -> F {
        self.future
    }

    pub fn new(name: &'static str, hash: u64, future: F) -> (task: Self)
        ensures
            task.spec_name() == name@,
            task.spec_hash() == hash,
            task.spec_future() == future,
    {
        Task { name, hash, future }
    }

    /// Mutable access to the future payload (which carries the task's waker).
    pub fn future_waker(&mut self) -> (future: &mut F)
        ensures
            *future == old(self).spec_future(),
            final(self).spec_future() == *final(future),
            final(self).spec_name() == old(self).spec_name(),
            final(self).spec_hash() == old(self).spec_hash(),
    {
        &mut self.future
    }

    pub fn name(&self) -> (name: &'static str)
        ensures
            name@ == self.spec_name(),
    {
        self.name
    }

    pub fn hash(&self) -> (hash: u64)
        ensures
            hash == self.spec_hash(),
    {
        self.hash
    }
}

/// Two tasks are equal when they have the same hash, whatever their names and futures.
impl<F> PartialEq for Task<F> {
    fn eq(&self, other: &Self) -> (r: bool) {
        self.hash == other.hash
    }
}

impl<F> vstd::std_specs::cmp::PartialEqSpecImpl for Task<F> {
    open spec fn obeys_eq_spec() -> bool {
        true
    }

    open spec fn eq_spec(&self, other: &Self) -> bool {
        self.spec_hash() == other.spec_hash()
    }
}

} // verus!
