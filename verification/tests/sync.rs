use hat::common::result::HATError;
use hat::futures::channel::Channel;
use hat::futures::mutex::Mutex as TaskMutex;
use hat::futures::semaphore::{Semaphore, SemaphoreUnbounded};
use hat::futures::trigger::Trigger;
use hat::futures::WaitPoll;
use hat::mutex::Mutex;

#[test]
fn mutex_first_locker_wins_then_waiters_queue_once() {
    let mut m = Mutex::new(5u32);
    assert!(m.poll_lock(1));
    assert!(!m.poll_lock(2));
    assert!(!m.poll_lock(3));
    assert!(!m.poll_lock(2)); // already waiting: not queued twice
    assert_eq!(m.unlock(), Some(2));
    // only the first in line gets the lock
    assert!(!m.poll_lock(3));
    assert!(m.poll_lock(2));
    assert_eq!(*m.deref(), 5);
    *m.deref_mut() = 6;
    assert_eq!(*m.deref(), 6);
    assert_eq!(m.unlock(), Some(3));
}

#[test]
fn mutex_first_waiter_granted_keeps_others_out() {
    let mut m = Mutex::new(0u8);
    assert!(m.poll_lock(1));
    assert!(!m.poll_lock(2));
    assert_eq!(m.unlock(), Some(2));
    assert!(m.poll_lock(2));
    // the line is empty now, but the lock is held by 2
    assert!(!m.poll_lock(3));
    assert!(!m.poll_lock(1));
    assert_eq!(m.unlock(), Some(3));
}

#[test]
fn mutex_unlock_with_nobody_waiting() {
    let mut m = Mutex::new(());
    assert!(m.poll_lock(9));
    assert_eq!(m.unlock(), None);
    assert!(m.poll_lock(10));
}

#[test]
fn task_mutex_queues_waiters_in_order() {
    let mut m: TaskMutex<u8, 3> = TaskMutex::new(1);
    assert!(m.poll_lock(1));
    assert!(!m.poll_lock(2));
    assert!(!m.poll_lock(3));
    assert_eq!(m.unlock(), Some(2));
    assert!(!m.poll_lock(3));
    assert!(m.poll_lock(2));
    assert_eq!(m.unlock(), Some(3));
    *m.deref_mut() = 4;
    assert_eq!(*m.deref(), 4);
}

#[test]
fn task_mutex_front_waiter_waits_while_locked() {
    let mut m: TaskMutex<u8, 3> = TaskMutex::new(0);
    assert!(m.poll_lock(1));
    assert!(!m.poll_lock(2));
    // 2 is first in line but 1 holds the lock: refused, and not queued twice
    assert!(m.can_poll_lock(2));
    assert!(!m.poll_lock(2));
    assert_eq!(m.unlock(), Some(2));
    assert!(m.poll_lock(2));
    assert!(!m.poll_lock(3));
    assert_eq!(m.unlock(), Some(3));
}

#[test]
fn bounded_semaphore_take_and_give() {
    let mut s: Semaphore<2, 4> = Semaphore::new(1);
    assert!(matches!(s.poll_take(1), WaitPoll::Ready(None)));
    assert!(matches!(s.poll_take(2), WaitPoll::Pending));
    // giving a unit wakes the waiting taker
    assert_eq!(s.give(), Some(2));
    assert!(matches!(s.poll_take(2), WaitPoll::Ready(None)));
    assert!(matches!(s.poll_give(3), WaitPoll::Ready(None)));
    assert!(matches!(s.poll_give(4), WaitPoll::Ready(None)));
    // all units free: a giver waits
    assert!(matches!(s.poll_give(5), WaitPoll::Pending));
    assert_eq!(s.give(), None);
    // taking from a full semaphore wakes the waiting giver
    assert!(matches!(s.poll_take(6), WaitPoll::Ready(Some(5))));
}

#[test]
fn unbounded_semaphore_counts_and_wakes() {
    let mut s: SemaphoreUnbounded<2> = SemaphoreUnbounded::new(0);
    assert!(matches!(s.poll_take(1), WaitPoll::Pending));
    assert_eq!(s.give(), Some(1));
    assert!(matches!(s.poll_take(1), WaitPoll::Ready(None)));
    assert_eq!(s.give(), None);
    assert_eq!(s.give(), None);
    assert!(matches!(s.poll_take(2), WaitPoll::Ready(None)));
    assert!(matches!(s.poll_take(3), WaitPoll::Ready(None)));
    assert!(matches!(s.poll_take(4), WaitPoll::Pending));
}

#[test]
fn unbounded_semaphore_count_wraps() {
    let mut s: SemaphoreUnbounded<1> = SemaphoreUnbounded::new(usize::MAX);
    assert_eq!(s.give(), None);
    assert!(matches!(s.poll_take(1), WaitPoll::Pending));
}

#[test]
fn trigger_releases_the_waiting_tasks() {
    let mut t: Trigger<4> = Trigger::new();
    assert!(!t.poll_wait(1));
    assert!(!t.poll_wait(2));
    assert_eq!(t.trigger(), vec![1, 2]);
    // a second trigger before the first is consumed does nothing
    assert!(t.trigger().is_empty());
    assert!(t.poll_wait(1));
    assert!(t.poll_wait(2));
    assert!(!t.poll_wait(3));
    assert_eq!(t.trigger(), vec![3]);
}

#[test]
fn trigger_with_nobody_waiting_releases_nobody() {
    let mut t: Trigger<2> = Trigger::new();
    assert!(t.trigger().is_empty());
    assert!(!t.poll_wait(1));
}

#[test]
fn channel_delivers_in_order() {
    let mut c: Channel<u32, 2, 2> = Channel::new();
    assert!(matches!(c.poll_recv(9), WaitPoll::Pending));
    assert!(matches!(c.poll_send(1), WaitPoll::Ready(Some(9))));
    assert!(c.push(10).is_ok());
    assert!(matches!(c.poll_send(1), WaitPoll::Ready(None)));
    assert!(c.push(20).is_ok());
    assert_eq!(c.len(), 2);
    // full: a third sender waits
    assert!(matches!(c.poll_send(2), WaitPoll::Pending));
    assert!(matches!(c.poll_recv(9), WaitPoll::Ready(Some(2))));
    assert!(matches!(c.pop(), Ok(10)));
    assert!(matches!(c.poll_recv(9), WaitPoll::Ready(None)));
    assert!(matches!(c.pop(), Ok(20)));
    assert!(matches!(c.pop(), Err(HATError::RecvError)));
}

#[test]
fn channel_push_on_full_queue_is_a_send_error() {
    let mut c: Channel<u8, 1, 1> = Channel::new();
    assert!(c.push(1).is_ok());
    assert!(matches!(c.push(2), Err(HATError::SendError)));
}

#[test]
fn channel_clear_empties_and_gives_units() {
    let mut c: Channel<u8, 3, 2> = Channel::new();
    assert!(matches!(c.poll_recv(5), WaitPoll::Pending));
    assert!(c.push(1).is_ok());
    assert!(c.push(2).is_ok());
    assert_eq!(c.clear(), vec![5]);
    assert_eq!(c.len(), 0);
}
