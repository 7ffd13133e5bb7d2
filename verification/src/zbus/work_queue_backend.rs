use vstd::prelude::*;

verus! {

/// Where a request to the zbus work queue stands: not submitted (idle), submitted with
/// the waker to call on completion, or done.
pub enum WorkQueueState<W> {
    Idle,
    Waiting(W),
    Completed,
}

/// What polling a work queue future asks for.
pub enum WorkQueuePoll {
    /// Submit the request to the work queue, then wait for its completion callback.
    Submit,
    /// The request is done.
    Ready,
}

impl<W> WorkQueueState<W> {
    /// Whether the request waits for its completion (a poll then stops the program).
    pub fn is_waiting(&self) -> (b: bool)
        ensures
            b == (*self is Waiting),
    {
        match self {
            WorkQueueState::Waiting(_) => true,
            _ => false,
        }
    }

    /// One poll: an idle request records the waker and is to be submitted; a done one is
    /// ready. A poll while waiting is a fault that stops the program, so it is not admitted.
    pub fn poll(&mut self, waker: W) -> (p: WorkQueuePoll)
        requires
            !(*old(self) is Waiting),
        ensures
            *old(self) is Idle ==> p is Submit && *final(self) == WorkQueueState::Waiting(waker),
            *old(self) is Completed ==> p is Ready && *final(self) == *old(self),
    {
        match self {
            WorkQueueState::Completed => WorkQueuePoll::Ready,
            _ => {
                *self = WorkQueueState::Waiting(waker);
                WorkQueuePoll::Submit
            },
        }
    }

    /// The completion callback: the request is done, and the waker it waited with, if
    /// any, is returned to be woken.
    pub fn complete(&mut self) -> (wake: Option<W>)
        ensures
            *final(self) is Completed,
            wake == (match *old(self) {
                WorkQueueState::Waiting(w) => Some(w),
                _ => None::<W>,
            }),
    {
        let mut previous = WorkQueueState::Completed;
        core::mem::swap(self, &mut previous);
        match previous {
            WorkQueueState::Waiting(w) => Some(w),
            _ => None,
        }
    }
}

/// Claims a zbus channel through the work queue. `R` is the reference to the C channel.
pub struct WorkQueueClaimerFuture<R, W> {
    state: WorkQueueState<W>,
    channel_reference: R,
}

impl<R, W> WorkQueueClaimerFuture<R, W> {
    pub closed spec fn state(&self) -> WorkQueueState<W> {
        self.state
    }

    pub closed spec fn channel(&self) -> R {
        self.channel_reference
    }

    pub fn new(channel_reference: R) -> (f: Self)
        ensures
            f.state() is Idle,
            f.channel() == channel_reference,
    {
        WorkQueueClaimerFuture { state: WorkQueueState::Idle, channel_reference }
    }

    pub fn channel_reference(&self) -> (r: &R)
        ensures
            *r == self.channel(),
    {
        &self.channel_reference
    }

    /// Whether the request waits for its completion.
    pub fn is_waiting(&self) -> (b: bool)
        ensures
            b == (self.state() is Waiting),
    {
        self.state.is_waiting()
    }

    /// One poll (see `WorkQueueState::poll`).
    pub fn poll(&mut self, waker: W) -> (p: WorkQueuePoll)
        requires
            !(old(self).state() is Waiting),
        ensures
            old(self).state() is Idle ==> p is Submit && final(self).state() == WorkQueueState::Waiting(waker),
            old(self).state() is Completed ==> p is Ready && final(self).state() == old(self).state(),
            final(self).channel() == old(self).channel(),
    {
        self.state.poll(waker)
    }

    /// The claim is done (see `WorkQueueState::complete`).
    pub fn complete(&mut self) -> (wake: Option<W>)
        ensures
            final(self).state() is Completed,
            wake == (match old(self).state() {
                WorkQueueState::Waiting(w) => Some(w),
                _ => None::<W>,
            }),
            final(self).channel() == old(self).channel(),
    {
        self.state.complete()
    }
}

/// Publishes a message on a zbus channel through the work queue.
pub struct WorkQueuePublisherFuture<R, W, T> {
    state: WorkQueueState<W>,
    channel_reference: R,
    data: T,
}

impl<R, W, T> WorkQueuePublisherFuture<R, W, T> {
    pub closed spec fn state(&self) -> WorkQueueState<W> {
        self.state
    }

    pub closed spec fn channel(&self) -> R {
        self.channel_reference
    }

    pub closed spec fn message(&self) -> T {
        self.data
    }

    pub fn new(channel_reference: R, data: T) -> (f: Self)
        ensures
            f.state() is Idle,
            f.channel() == channel_reference,
            f.message() == data,
    {
        WorkQueuePublisherFuture { state: WorkQueueState::Idle, channel_reference, data }
    }

    pub fn channel_reference(&self) -> (r: &R)
        ensures
            *r == self.channel(),
    {
        &self.channel_reference
    }

    /// The message handed to the work queue.
    pub fn data(&self) -> (d: &T)
        ensures
            *d == self.message(),
    {
        &self.data
    }

    /// Whether the request waits for its completion.
    pub fn is_waiting(&self) -> (b: bool)
        ensures
            b == (self.state() is Waiting),
    {
        self.state.is_waiting()
    }

    /// One poll (see `WorkQueueState::poll`).
    pub fn poll(&mut self, waker: W) -> (p: WorkQueuePoll)
        requires
            !(old(self).state() is Waiting),
        ensures
            old(self).state() is Idle ==> p is Submit && final(self).state() == WorkQueueState::Waiting(waker),
            old(self).state() is Completed ==> p is Ready && final(self).state() == old(self).state(),
            final(self).channel() == old(self).channel(),
            final(self).message() == old(self).message(),
    {
        self.state.poll(waker)
    }

    /// The publication is done (see `WorkQueueState::complete`).
    pub fn complete(&mut self) -> (wake: Option<W>)
        ensures
            final(self).state() is Completed,
            wake == (match old(self).state() {
                WorkQueueState::Waiting(w) => Some(w),
                _ => None::<W>,
            }),
            final(self).channel() == old(self).channel(),
            final(self).message() == old(self).message(),
    {
        self.state.complete()
    }
}

/// What polling a reader asks for.
pub enum ReaderPoll<T> {
    /// Submit the read to the work queue, then wait for its completion callback.
    Submit,
    /// The message read.
    Ready(T),
}

/// Reads the message of a zbus channel through the work queue into its buffer.
pub struct WorkQueueReaderFuture<R, W, T> {
    state: WorkQueueState<W>,
    channel_reference: R,
    data: Option<T>,
}

impl<R, W, T: Default> WorkQueueReaderFuture<R, W, T> {
    pub closed spec fn state(&self) -> WorkQueueState<W> {
        self.state
    }

    pub closed spec fn channel(&self) -> R {
        self.channel_reference
    }

    /// The buffer the message is read into (taken out when the read is done).
    pub closed spec fn buffer(&self) -> Option<T> {
        self.data
    }

    /// A reader whose buffer holds a default value (what the read gives when the work
    /// queue writes nothing into it).
    pub fn new(channel_reference: R) -> (f: Self)
        ensures
            f.state() is Idle,
            f.channel() == channel_reference,
            f.buffer() is Some,
            call_ensures(T::default, (), f.buffer().unwrap()),
    {
        WorkQueueReaderFuture {
            state: WorkQueueState::Idle,
            channel_reference,
            data: Some(T::default()),
        }
    }

    pub fn channel_reference(&self) -> (r: &R)
        ensures
            *r == self.channel(),
    {
        &self.channel_reference
    }

    /// The buffer the work queue writes the message into.
    pub fn buffer_mut(&mut self) -> (b: &mut Option<T>)
        ensures
            *b == old(self).buffer(),
            final(self).buffer() == *final(b),
            final(self).state() == old(self).state(),
            final(self).channel() == old(self).channel(),
    {
        &mut self.data
    }

    /// Whether the read waits for its completion.
    pub fn is_waiting(&self) -> (b: bool)
        ensures
            b == (self.state() is Waiting),
    {
        self.state.is_waiting()
    }

    /// Whether the buffer is there (a poll without it stops the program).
    pub fn has_buffer(&self) -> (b: bool)
        ensures
            b == (self.buffer() is Some),
    {
        self.data.is_some()
    }

    /// One poll: an idle read is to be submitted; a done read hands out its buffer. A
    /// poll while waiting, or without a buffer, is a fault that stops the program, so it
    /// is not admitted.
    pub fn poll(&mut self, waker: W) -> (p: ReaderPoll<T>)
        requires
            !(old(self).state() is Waiting),
            old(self).buffer() is Some,
        ensures
            old(self).state() is Idle ==> {
                &&& p is Submit
                &&& final(self).state() == WorkQueueState::Waiting(waker)
                &&& final(self).buffer() == old(self).buffer()
            },
            old(self).state() is Completed ==> {
                &&& p == ReaderPoll::Ready(old(self).buffer().unwrap())
                &&& final(self).state() == old(self).state()
                &&& final(self).buffer() is None
            },
            final(self).channel() == old(self).channel(),
    {
        match self.state.poll(waker) {
            WorkQueuePoll::Submit => ReaderPoll::Submit,
            WorkQueuePoll::Ready => ReaderPoll::Ready(self.data.take().unwrap()),
        }
    }

    /// The read is done (see `WorkQueueState::complete`).
    pub fn complete(&mut self) -> (wake: Option<W>)
        ensures
            final(self).state() is Completed,
            wake == (match old(self).state() {
                WorkQueueState::Waiting(w) => Some(w),
                _ => None::<W>,
            }),
            final(self).channel() == old(self).channel(),
            final(self).buffer() == old(self).buffer(),
    {
        self.state.complete()
    }
}

} // verus!
