use core::marker::PhantomData;
use vstd::prelude::*;

pub mod gpio;

verus! {

/// A kind of peripheral, identified by the number the platform layer knows it by.
pub trait PeripheralKind {
    fn peripheral_kind() -> usize;
}

/// A peripheral of kind `C` exchanging values of type `T`: its configuration, and the
/// id the platform layer gave it once opened.
pub struct Peripheral<T, C: PeripheralKind> {
    config: C,
    _marker: PhantomData<T>,
    id: Option<usize>,
}

impl<T, C: PeripheralKind> Peripheral<T, C> {
    pub closed spec fn config(&self) -> C {
        self.config
    }

    /// The id given when the peripheral was opened.
    pub closed spec fn spec_id(&self) -> Option<usize> {
        self.id
    }

    /// A peripheral not opened yet.
    pub fn new(config: C) -> (p: Self)
        ensures
            p.config() == config,
            p.spec_id() is None,
    {
        Peripheral { config, _marker: PhantomData, id: None }
    }

    /// The configuration handed to the platform layer when opening.
    pub fn get_config(&self) -> (c: &C)
        ensures
            *c == self.config(),
    {
        &self.config
    }

    /// Records the id the platform layer gave the peripheral when it was opened.
    pub fn set_opened(&mut self, id: usize)
        ensures
            final(self).spec_id() == Some(id),
            final(self).config() == old(self).config(),
    {
        self.id = Some(id);
    }

    /// Whether the peripheral has been opened.
    pub fn is_opened(&self) -> (b: bool)
        ensures
            b == (self.spec_id() is Some),
    {
        self.id.is_some()
    }

    /// The id; asking for it before the peripheral is opened is a fault that stops the
    /// program, so it is not admitted.
    pub fn get_id(&self) -> (id: usize)
        requires
            self.spec_id() is Some,
        ensures
            id == self.spec_id().unwrap(),
    {
        self.id.unwrap()
    }
}

} // verus!
