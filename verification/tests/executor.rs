use hat::executor::{BlockOnStep, Error, Executor};
use hat::task::Task;

fn names(queue: &std::collections::VecDeque<Task<u32>>) -> Vec<&'static str> {
    queue.iter().map(|t| t.name()).collect()
}

#[test]
fn spawn_refuses_a_name_in_use() {
    let mut ex: Executor<u32> = Executor::new();
    assert!(ex.spawn(Task::new("blink", 11, 1)).is_ok());
    assert!(ex.spawn(Task::new("blink2", 22, 2)).is_ok());
    assert!(matches!(ex.spawn(Task::new("blink", 11, 3)), Err(Error::TaskNameAlreadyExist)));
    assert_eq!(names(ex.ready_tasks()), vec!["blink", "blink2"]);
}

#[test]
fn spawn_refuses_a_parked_name() {
    let mut ex: Executor<u32> = Executor::new();
    ex.spawn(Task::new("a", 1, 10)).ok().unwrap();
    assert!(ex.block_on().is_ok());
    assert!(matches!(ex.block_on_step(), BlockOnStep::Poll));
    ex.end_poll(true);
    assert_eq!(ex.unready_tasks().len(), 1);
    assert!(matches!(ex.spawn(Task::new("a", 1, 11)), Err(Error::TaskNameAlreadyExist)));
    assert!(ex.ready_tasks().is_empty());
}

#[test]
fn spawn_refuses_the_name_of_the_running_task() {
    let mut ex: Executor<u32> = Executor::new();
    ex.spawn(Task::new("main", 5, 1)).ok().unwrap();
    ex.block_on().unwrap();
    assert!(matches!(ex.block_on_step(), BlockOnStep::Poll));
    // while "main" is polled, it spawns its own name again
    assert!(matches!(ex.spawn(Task::new("main", 5, 2)), Err(Error::TaskNameAlreadyExist)));
    assert!(ex.ready_tasks().is_empty());
    assert!(ex.unready_tasks().is_empty());
    // once it has finished, the name is free again
    ex.end_poll(false);
    assert!(ex.spawn(Task::new("main", 5, 3)).is_ok());
}

#[test]
fn tasks_are_equal_by_hash() {
    let a = Task::new("a", 1, 10u32);
    let b = Task::new("b", 1, 20u32);
    let c = Task::new("a", 2, 10u32);
    assert!(a == b);
    assert!(a != c);
    assert_eq!(a.hash(), 1);
}

#[test]
fn block_on_refuses_a_second_session() {
    let mut ex: Executor<u32> = Executor::new();
    assert!(ex.block_on().is_ok());
    assert!(ex.block_on().is_err());
}

#[test]
fn block_on_runs_tasks_in_spawn_order_and_finishes() {
    let mut ex: Executor<u32> = Executor::new();
    ex.spawn(Task::new("first", 1, 100)).ok().unwrap();
    ex.spawn(Task::new("second", 2, 200)).ok().unwrap();
    ex.block_on().unwrap();

    assert!(matches!(ex.block_on_step(), BlockOnStep::Poll));
    assert_eq!(ex.current_task_mut().name(), "first");
    assert_eq!(*ex.current_task_mut().future_waker(), 100);
    ex.end_poll(false);

    assert!(matches!(ex.block_on_step(), BlockOnStep::Poll));
    assert_eq!(ex.current_task_mut().name(), "second");
    ex.end_poll(false);

    assert!(matches!(ex.block_on_step(), BlockOnStep::Finished));
    // the session is over: a new one may start
    assert!(ex.block_on().is_ok());
}

#[test]
fn pending_task_waits_until_woken() {
    let mut ex: Executor<u32> = Executor::new();
    ex.spawn(Task::new("sleeper", 7, 0)).ok().unwrap();
    ex.block_on().unwrap();
    assert!(matches!(ex.block_on_step(), BlockOnStep::Poll));
    ex.end_poll(true);
    assert!(matches!(ex.block_on_step(), BlockOnStep::Wait));
    assert!(matches!(ex.block_on_step(), BlockOnStep::Wait));
    ex.set_task_as_ready(7);
    assert!(ex.unready_tasks().is_empty());
    assert_eq!(names(ex.ready_tasks()), vec!["sleeper"]);
    assert!(matches!(ex.block_on_step(), BlockOnStep::Poll));
    assert_eq!(ex.current_task_mut().hash(), 7);
    ex.end_poll(false);
    assert!(matches!(ex.block_on_step(), BlockOnStep::Finished));
}

#[test]
fn waking_the_current_task_requeues_it() {
    let mut ex: Executor<u32> = Executor::new();
    ex.spawn(Task::new("yielder", 5, 0)).ok().unwrap();
    ex.spawn(Task::new("other", 6, 0)).ok().unwrap();
    ex.block_on().unwrap();
    assert!(matches!(ex.block_on_step(), BlockOnStep::Poll));
    // the task wakes itself while being polled, then returns pending
    ex.set_task_as_ready(5);
    ex.end_poll(true);
    assert!(ex.unready_tasks().is_empty());
    assert_eq!(names(ex.ready_tasks()), vec!["other", "yielder"]);
}

#[test]
fn waking_takes_the_first_parked_task_with_the_hash() {
    let mut ex: Executor<u32> = Executor::new();
    ex.spawn(Task::new("a", 1, 0)).ok().unwrap();
    ex.spawn(Task::new("b", 2, 0)).ok().unwrap();
    ex.spawn(Task::new("c", 3, 0)).ok().unwrap();
    ex.block_on().unwrap();
    for _ in 0..3 {
        assert!(matches!(ex.block_on_step(), BlockOnStep::Poll));
        ex.end_poll(true);
    }
    ex.set_task_as_ready(2);
    let parked: Vec<&'static str> = ex.unready_tasks().iter().map(|t| t.name()).collect();
    assert_eq!(parked, vec!["a", "c"]);
    assert_eq!(names(ex.ready_tasks()), vec!["b"]);
}

#[test]
fn task_accessors() {
    let mut t = Task::new("say_hello", 0xabc, 9u32);
    assert_eq!(t.name(), "say_hello");
    assert_eq!(t.hash(), 0xabc);
    *t.future_waker() = 10;
    assert_eq!(*t.future_waker(), 10);
}
