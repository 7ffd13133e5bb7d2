use crate::common::task::{Task, TaskId};
use vstd::prelude::*;

verus! {

/// `p` is the first position of `tasks` whose task has the id `id`.
pub open spec fn is_first_with_id<F>(tasks: Seq<Task<F>>, id: TaskId, p: int) -> bool {
    &&& 0 <= p < tasks.len()
    &&& tasks[p].spec_id() == id
    &&& forall|j: int| 0 <= j < p ==> (#[trigger] tasks[j]).spec_id() != id
}

/// Whether no task of `tasks` has the id `id`.
pub open spec fn no_task_with_id<F>(tasks: Seq<Task<F>>, id: TaskId) -> bool {
    forall|j: int| 0 <= j < tasks.len() ==> (#[trigger] tasks[j]).spec_id() != id
}

/// The executor of a fixed set of `N` tasks, run until each of them has finished: it is
/// told which task's waker fired, polls that task, and counts the finished ones.
pub struct Executor<F, const N: usize> {
    tasks: Vec<Task<F>>,
    end_task: usize,
}

impl<F, const N: usize> Executor<F, N> {
    pub closed spec fn tasks(&self) -> Seq<Task<F>> {
        self.tasks@
    }

    /// How many tasks have finished in this run.
    pub closed spec fn finished(&self) -> usize {
        self.end_task
    }

    pub open spec fn wf(&self) -> bool {
        &&& self.tasks().len() == N
        &&& self.finished() <= N
    }

    /// An executor of the `N` given tasks; another number of tasks is a fault that stops
    /// the program, so it is not admitted.
    pub fn new(tasks: Vec<Task<F>>) -> (e: Self)
        requires
            tasks@.len() == N,
        ensures
            e.tasks() == tasks@,
            e.finished() == 0,
            e.wf(),
    {
        Executor { tasks, end_task: 0 }
    }

    fn position_of_id(&self, id: TaskId) -> (p: Option<usize>)
        ensures
            p is None ==> no_task_with_id(self.tasks(), id),
            p matches Some(i) ==> is_first_with_id(self.tasks(), id, i as int),
    {
        let mut i: usize = 0;
        while i < self.tasks.len()
            invariant
                i <= self.tasks@.len(),
                forall|j: int| 0 <= j < i ==> (#[trigger] self.tasks@[j]).spec_id() != id,
            decreases self.tasks@.len() - i,
        {
            if self.tasks[i].id() == id {
                return Some(i);
            }
            i = i + 1;
        }
        None
    }

    /// The first task with the id `id`, if any.
    pub fn task_by_id(&self, id: TaskId) -> (task: Option<&Task<F>>)
        ensures
            task is None <==> no_task_with_id(self.tasks(), id),
            task matches Some(t) ==> exists|p: int|
                #[trigger] is_first_with_id(self.tasks(), id, p) && *t == self.tasks()[p],
    {
        match self.position_of_id(id) {
            Some(p) => Some(&self.tasks[p]),
            None => None,
        }
    }

    /// The ids of all tasks, in order: a run starts by making each of them ready.
    pub fn task_ids(&self) -> (ids: Vec<TaskId>)
        ensures
            ids@.len() == self.tasks().len(),
            forall|i: int| 0 <= i < ids@.len() ==> ids@[i] == #[trigger] self.tasks()[i].spec_id(),
    {
        let mut ids: Vec<TaskId> = Vec::new();
        let mut i: usize = 0;
        while i < self.tasks.len()
            invariant
                i <= self.tasks@.len(),
                ids@.len() == i,
                forall|k: int| 0 <= k < i ==> ids@[k] == #[trigger] self.tasks@[k].spec_id(),
            decreases self.tasks@.len() - i,
        {
            ids.push(self.tasks[i].id());
            i = i + 1;
        }
        ids
    }

    /// Whether every task has finished, which ends the run.
    pub fn is_run_over(&self) -> (over: bool)
        ensures
            over == (self.finished() == self.tasks().len()),
    {
        self.end_task == self.tasks.len()
    }

    /// The waker of task `id` fired: the future of the first task with that id is taken
    /// out to be polled. An unknown id, or a task whose future is out (being polled, or
    /// finished), gives nothing.
    pub fn take_future(&mut self, id: TaskId) -> (future: Option<F>)
        ensures
            final(self).finished() == old(self).finished(),
            final(self).tasks().len() == old(self).tasks().len(),
            no_task_with_id(old(self).tasks(), id) ==> future is None && final(self).tasks()
                == old(self).tasks(),
            forall|p: int|
                #[trigger] is_first_with_id(old(self).tasks(), id, p) ==> {
                    &&& future == old(self).tasks()[p].slot()
                    &&& final(self).tasks()[p].slot() is None
                    &&& final(self).tasks()[p].spec_id() == id
                    &&& forall|j: int|
                        0 <= j < old(self).tasks().len() && j != p ==> final(self).tasks()[j]
                            == old(self).tasks()[j]
                },
    {
        match self.position_of_id(id) {
            None => None,
            Some(p) => {
                let mut slot: Option<F> = None;
                let ghost before = self.tasks@;
                let mut task = self.tasks.remove(p);
                core::mem::swap(&mut slot, task.future_mut());
                self.tasks.insert(p, task);
                proof {
                    assert forall|j: int|
                        0 <= j < before.len() && j != p implies self.tasks@[j] == before[j] by {
                    }
                }
                slot
            },
        }
    }

    /// A polled future is still pending: it goes back into the slot of the first task
    /// with the id `id`.
    pub fn restore_future(&mut self, id: TaskId, future: F)
        ensures
            final(self).finished() == old(self).finished(),
            final(self).tasks().len() == old(self).tasks().len(),
            no_task_with_id(old(self).tasks(), id) ==> final(self).tasks() == old(self).tasks(),
            forall|p: int|
                #[trigger] is_first_with_id(old(self).tasks(), id, p) ==> {
                    &&& final(self).tasks()[p].slot() == Some(future)
                    &&& final(self).tasks()[p].spec_id() == id
                    &&& forall|j: int|
                        0 <= j < old(self).tasks().len() && j != p ==> final(self).tasks()[j]
                            == old(self).tasks()[j]
                },
    {
        match self.position_of_id(id) {
            None => {},
            Some(p) => {
                let mut slot: Option<F> = Some(future);
                let ghost before = self.tasks@;
                let mut task = self.tasks.remove(p);
                core::mem::swap(&mut slot, task.future_mut());
                self.tasks.insert(p, task);
                proof {
                    assert forall|j: int|
                        0 <= j < before.len() && j != p implies self.tasks@[j] == before[j] by {
                    }
                }
            },
        }
    }

    /// A polled future finished: one more task is done.
    pub fn task_finished(&mut self)
        requires
            old(self).finished() < old(self).tasks().len(),
        ensures
            final(self).finished() == old(self).finished() + 1,
            final(self).tasks() == old(self).tasks(),
    {
        if self.end_task < self.tasks.len() {
            self.end_task = self.end_task + 1;
        }
    }
}

} // verus!
