use vstd::prelude::*;

verus! {

/// The errors of the runtime.
pub enum HATError {
    Generic,
    MutexPoisonError,
    SendError,
    RecvError,
    LazyNotInit,
    Trigger,
    Semaphore,
    Timer,
    CError(i32),
    WrongGPIOPort,
    WrongGPIOPin,
}

/// Unwrapping that stops the program with a message when there is no value.
pub trait Expect<T>: Sized {
    /// Whether there is a value to unwrap.
    spec fn has_value(&self) -> bool;

    /// The value that unwrapping gives.
    spec fn expected(&self) -> T;

    /// The value; stopping the program (with `msg`) where there is none is left out.
    fn hat_expect(self, msg: &str) -> (t: T)
        requires
            self.has_value(),
        ensures
            t == self.expected(),
    ;
}

impl<T, E> Expect<T> for Result<T, E> {
    open spec fn has_value(&self) -> bool {
        *self is Ok
    }

    open spec fn expected(&self) -> T {
        self->Ok_0
    }

    fn hat_expect(self, msg: &str) -> (t: T) {
        match self {
            Ok(t) => t,
            Err(_e) => {
vstd::pervasive::unreached()
            },
        }
    }
}

impl<T> Expect<T> for Option<T> {
    open spec fn has_value(&self) -> bool {
        *self is Some
    }

    open spec fn expected(&self) -> T {
        self->Some_0
    }

    fn hat_expect(self, msg: &str) -> (t: T) {
        match self {
            Some(t) => t,
            None => {
vstd::pervasive::unreached()
            },
        }
    }
}

/// A C status code becomes the generic error.
impl From<i32> for HATError {
    fn from(code: i32) -> (e: Self) {
        HATError::Generic
    }
}

impl vstd::std_specs::convert::FromSpecImpl<i32> for HATError {
    open spec fn obeys_from_spec() -> bool {
        true
    }

    open spec fn from_spec(code: i32) -> HATError {
        HATError::Generic
    }
}

} // verus!
