use vstd::prelude::*;

verus! {

/// A value set once: either given by `init`, or computed on first use by the
/// initialisation function it was made with.
pub struct Lazy<T, F> {
    data: Option<T>,
    init: Option<F>,
}

impl<T, F: Fn() -> T> Lazy<T, F> {
    /// The value, once set.
    pub closed spec fn value(&self) -> Option<T> {
        self.data
    }

    /// The initialisation function, if any.
    pub closed spec fn init_fn(&self) -> Option<F> {
        self.init
    }

    /// Empty, with no initialisation function: the value must be given by `init`.
    pub fn new() -> (l: Self)
        ensures
            l.value() is None,
            l.init_fn() is None,
    {
        Lazy { data: None, init: None }
    }

    /// Empty, computed by `init_fn` on first use.
    pub fn new_with_init(init_fn: F) -> (l: Self)
        ensures
            l.value() is None,
            l.init_fn() == Some(init_fn),
    {
        Lazy { data: None, init: Some(init_fn) }
    }

    /// Sets the value, unless it is already set.
    pub fn init(&mut self, data: T)
        ensures
            old(self).value() is None ==> final(self).value() == Some(data),
            old(self).value() is Some ==> final(self).value() == old(self).value(),
            final(self).init_fn() == old(self).init_fn(),
    {
        if self.data.is_none() {
            self.data = Some(data);
        }
    }

    /// Whether the value is set.
    pub fn is_init(&self) -> (b: bool)
        ensures
            b == (self.value() is Some),
    {
        self.data.is_some()
    }

    /// Whether an initialisation function was given.
    pub fn has_init_fn(&self) -> (b: bool)
        ensures
            b == (self.init_fn() is Some),
    {
        self.init.is_some()
    }

    /// The value; asking for it before it is set is a fault that stops the program, so
    /// it is not admitted.
    pub fn data(&self) -> (d: &T)
        requires
            self.value() is Some,
        ensures
            *d == self.value().unwrap(),
    {
        self.data.as_ref().unwrap()
    }

    /// The value, computed by the initialisation function on first use. Use before any
    /// value or function is given is a fault that stops the program, so it is not admitted.
    pub fn deref(&mut self) -> (d: &T)
        requires
            old(self).value() is Some || (old(self).init_fn() is Some && call_requires(
                old(self).init_fn().unwrap(),
                (),
            )),
        ensures
            old(self).value() is Some ==> *d == old(self).value().unwrap() && final(self).value()
                == old(self).value(),
            old(self).value() is None ==> call_ensures(old(self).init_fn().unwrap(), (), *d)
                && final(self).value() == Some(*d),
            final(self).init_fn() == old(self).init_fn(),
    {
        if self.data.is_none() {
            let value = match &self.init {
                Some(init_fn) => init_fn(),
                None => vstd::pervasive::unreached(),
            };
            self.data = Some(value);
        }
        self.data.as_ref().unwrap()
    }
}

} // verus!
