use std::sync::mpsc::{Receiver, RecvError, SendError, Sender, TryRecvError};
use std::sync::Arc;
use vstd::prelude::*;

verus! {

#[verifier::external_type_specification]
#[verifier::external_body]
#[verifier::reject_recursive_types(T)]
pub struct ExSender<T>(Sender<T>);

#[verifier::external_type_specification]
#[verifier::external_body]
#[verifier::reject_recursive_types(T)]
pub struct ExReceiver<T>(Receiver<T>);

#[verifier::external_type_specification]
#[verifier::external_body]
#[verifier::reject_recursive_types(T)]
pub struct ExMutex<T: ?Sized>(std::sync::Mutex<T>);

#[verifier::external_type_specification]
#[verifier::external_body]
#[verifier::reject_recursive_types(T)]
pub struct ExSendError<T>(SendError<T>);

#[verifier::external_type_specification]
#[verifier::external_body]
pub struct ExRecvError(RecvError);

#[verifier::external_type_specification]
#[verifier::external_body]
pub struct ExTryRecvError(TryRecvError);

/// A value shared between threads behind a lock.
pub type ArcMutex<T> = Arc<std::sync::Mutex<T>>;

/// Calls `std::sync::mpsc::channel`. Trusted, with nothing stated: the two ends are
/// opaque.
#[verifier::external_body]
fn mpsc_channel<T>() -> (ends: (Sender<T>, Receiver<T>)) {
    std::sync::mpsc::channel()
}

/// Calls `Mutex::new`. Trusted, with nothing stated: the lock's contents are opaque.
#[verifier::external_body]
fn new_mutex<T>(value: T) -> (m: std::sync::Mutex<T>) {
    std::sync::Mutex::new(value)
}

/// Calls `Arc::clone`. Trusted: the new handle shares the same value.
#[verifier::external_body]
fn clone_arc<T>(a: &Arc<T>) -> (b: Arc<T>)
    ensures
        b == *a,
{
    a.clone()
}

/// Calls `Sender::send`. Trusted, with nothing stated: whether the value is delivered
/// depends on the receiving end being alive, which another thread decides.
#[verifier::external_body]
fn mpsc_send<T>(sender: &Sender<T>, data: T) -> (r: Result<(), SendError<T>>) {
    sender.send(data)
}

/// Calls `Receiver::recv`. Trusted, with nothing stated: what arrives is what other
/// threads sent.
#[verifier::external_body]
fn mpsc_recv<T>(receiver: &Receiver<T>) -> (r: Result<T, RecvError>) {
    receiver.recv()
}

/// Calls `Receiver::try_recv`. Trusted, with nothing stated: what is there is what
/// other threads sent.
#[verifier::external_body]
fn mpsc_try_recv<T>(receiver: &Receiver<T>) -> (r: Result<T, TryRecvError>) {
    receiver.try_recv()
}

/// A multi-producer channel whose two ends are shared behind locks.
#[verifier::reject_recursive_types(T)]
pub struct BlockingChannel<T> {
    sender: ArcMutex<BlockingSender<T>>,
    receiver: ArcMutex<BlockingReceiver<T>>,
}

impl<T> BlockingChannel<T> {
    pub closed spec fn sender(&self) -> ArcMutex<BlockingSender<T>> {
        self.sender
    }

    pub closed spec fn receiver(&self) -> ArcMutex<BlockingReceiver<T>> {
        self.receiver
    }

    /// A fresh channel; its two ends are opaque values of std, and that they are the
    /// ends of one queue is not stated.
    pub fn new() -> (c: Self) {
        let (s, r) = mpsc_channel();
        BlockingChannel {
            sender: Arc::new(new_mutex(BlockingSender::new(s))),
            receiver: Arc::new(new_mutex(BlockingReceiver::new(r))),
        }
    }

    /// A handle to the channel's (one) sending end.
    pub fn new_sender(&self) -> (s: ArcMutex<BlockingSender<T>>)
        ensures
            s == self.sender(),
    {
        clone_arc(&self.sender)
    }

    /// A handle to the channel's (one) receiving end.
    pub fn new_receiver(&self) -> (r: ArcMutex<BlockingReceiver<T>>)
        ensures
            r == self.receiver(),
    {
        clone_arc(&self.receiver)
    }
}

/// The receiving end of a channel.
#[verifier::reject_recursive_types(T)]
pub struct BlockingReceiver<T> {
    receiver: Receiver<T>,
}

impl<T> BlockingReceiver<T> {
    pub closed spec fn inner(&self) -> Receiver<T> {
        self.receiver
    }

    pub fn new(receiver: Receiver<T>) -> (r: Self)
        ensures
            r.inner() == receiver,
    {
        BlockingReceiver { receiver }
    }

    /// Waits for the next value; what arrives is what was sent, which is not stated.
    pub fn recv(&self) -> (r: Result<T, RecvError>) {
        mpsc_recv(&self.receiver)
    }

    /// The next value, if one is there; what is there is not stated.
    pub fn try_recv(&self) -> (r: Result<T, TryRecvError>) {
        mpsc_try_recv(&self.receiver)
    }
}

/// The sending end of a channel.
#[verifier::reject_recursive_types(T)]
pub struct BlockingSender<T> {
    sender: Sender<T>,
}

impl<T> BlockingSender<T> {
    pub closed spec fn inner(&self) -> Sender<T> {
        self.sender
    }

    pub fn new(sender: Sender<T>) -> (s: Self)
        ensures
            s.inner() == sender,
    {
        BlockingSender { sender }
    }

    /// Sends `data`; whether it is accepted depends on the receiving end being alive,
    /// which is not stated.
    pub fn send(&self, data: T) -> (r: Result<(), SendError<T>>) {
        mpsc_send(&self.sender, data)
    }
}

} // verus!
