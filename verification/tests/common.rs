use hat::common::executor::Executor;
use hat::common::lazy::Lazy;
use hat::common::result::{Expect, HATError};
use hat::common::task::Task;

#[test]
fn lazy_init_sets_once() {
    let mut l: Lazy<u32, fn() -> u32> = Lazy::new();
    l.init(3);
    l.init(4);
    assert_eq!(*l.data(), 3);
}

fn seven() -> u32 {
    7
}

#[test]
fn lazy_computes_on_first_use() {
    let mut l: Lazy<u32, fn() -> u32> = Lazy::new_with_init(seven);
    assert_eq!(*l.deref(), 7);
    l.init(9);
    assert_eq!(*l.data(), 7);
}

#[test]
fn expect_unwraps() {
    let r: Result<u8, ()> = Ok(5);
    assert_eq!(r.hat_expect("no value"), 5);
    assert_eq!(Some(6u8).hat_expect("no value"), 6);
}

#[test]
fn c_status_becomes_generic_error() {
    assert!(matches!(HATError::from(-5), HATError::Generic));
}

#[test]
fn common_executor_runs_each_task_once() {
    let tasks = vec![Task::new(0, "main"), Task::new(1, "ping"), Task::new(2, "pong")];
    let mut ex: Executor<&'static str, 3> = Executor::new(tasks);
    assert_eq!(ex.task_ids(), vec![0, 1, 2]);
    assert_eq!(ex.task_by_id(1).map(|t| t.id()), Some(1));
    assert!(ex.task_by_id(9).is_none());
    assert!(!ex.is_run_over());

    let f = ex.take_future(1);
    assert_eq!(f, Some("ping"));
    // while it is polled, another wake of the same task finds nothing
    assert_eq!(ex.take_future(1), None);
    ex.restore_future(1, "ping");
    assert_eq!(*ex.task_by_id(1).unwrap().future(), Some("ping"));

    for id in [0, 1, 2] {
        assert!(ex.take_future(id).is_some());
        ex.task_finished();
    }
    assert!(ex.is_run_over());
    assert_eq!(ex.take_future(2), None);
    assert_eq!(ex.take_future(42), None);
}

#[test]
fn common_task_accessors() {
    let mut t = Task::new(4, 1u8);
    assert_eq!(t.id(), 4);
    assert_eq!(*t.future(), Some(1));
    *t.future_mut() = None;
    assert_eq!(*t.future(), None);
}
