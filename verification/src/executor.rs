use crate::task::Task;
use std::collections::VecDeque;
use vstd::multiset::Multiset;
use vstd::prelude::*;

verus! {

/// The cooperative executor: tasks waiting to be polled, tasks parked until their
/// waker fires, and the task that is being polled right now.
pub struct Executor<F> {
    ready_tasks: VecDeque<Task<F>>,
    unready_tasks: Vec<Task<F>>,
    is_blocked: bool,
    current_task: Option<Task<F>>,
    polling: bool,
}

pub enum Error {
    TaskNameAlreadyExist,
}

/// What the blocking loop does next.
pub enum BlockOnStep {
    /// The front ready task became the current task: poll it, then call `end_poll`.
    Poll,
    /// No task is ready, but some are parked: wait for a waker and step again.
    Wait,
    /// No task is left: the blocking session has ended.
    Finished,
}

/// The multiset holding the task of `task`, if any.
pub open spec fn optional_task<F>(task: Option<Task<F>>) -> Multiset<Task<F>> {
    match task {
        Some(t) => Multiset::singleton(t),
        None => Multiset::empty(),
    }
}

/// Whether some task of `tasks` has the hash `hash`.
pub open spec fn has_hash<F>(tasks: Seq<Task<F>>, hash: u64) -> bool {
    exists|i: int| 0 <= i < tasks.len() && (#[trigger] tasks[i]).spec_hash() == hash
}

/// `p` is the first position of `tasks` whose task has the hash `hash`.
pub open spec fn is_first_with_hash<F>(tasks: Seq<Task<F>>, hash: u64, p: int) -> bool {
    &&& 0 <= p < tasks.len()
    &&& tasks[p].spec_hash() == hash
    &&& forall|j: int| 0 <= j < p ==> (#[trigger] tasks[j]).spec_hash() != hash
}

impl<F> Executor<F> {
    /// The ready queue, front first.
    pub closed spec fn ready(&self) -> Seq<Task<F>> {
        self.ready_tasks@
    }

    /// The parked tasks, in the order they were parked.
    pub closed spec fn unready(&self) -> Seq<Task<F>> {
        self.unready_tasks@
    }

    /// Whether a blocking session is running.
    pub closed spec fn blocked(&self) -> bool {
        self.is_blocked
    }

    /// The task being polled (or the last one polled).
    pub closed spec fn current(&self) -> Option<Task<F>> {
        self.current_task
    }

    /// Whether the current task is being polled right now.
    pub closed spec fn is_polling(&self) -> bool {
        self.polling
    }

    /// Whether the name with hash `hash` is in use: a ready or parked task has it, or
    /// the task being polled does.
    pub open spec fn name_in_use(&self, hash: u64) -> bool {
        ||| has_hash(self.ready(), hash)
        ||| has_hash(self.unready(), hash)
        ||| (self.is_polling() && self.current() is Some && self.current().unwrap().spec_hash() == hash)
    }

    /// Every task the executor holds: ready, parked and current.
    pub open spec fn held(&self) -> Multiset<Task<F>> {
        self.ready().to_multiset().add(self.unready().to_multiset()).add(
            optional_task(self.current()),
        )
    }

    pub fn new() -> (e: Self)
        ensures
            e.ready() == Seq::<Task<F>>::empty(),
            e.unready() == Seq::<Task<F>>::empty(),
            !e.blocked(),
            e.current() is None,
            !e.is_polling(),
    {
        Executor {
            ready_tasks: VecDeque::new(),
            unready_tasks: Vec::new(),
            is_blocked: false,
            current_task: None,
            polling: false,
        }
    }

    fn queue_has_hash(tasks: &VecDeque<Task<F>>, hash: u64) -> (found: bool)
        ensures
            found == has_hash(tasks@, hash),
    {
        let mut i: usize = 0;
        while i < tasks.len()
            invariant
                i <= tasks@.len(),
                forall|j: int| 0 <= j < i ==> (#[trigger] tasks@[j]).spec_hash() != hash,
            decreases tasks@.len() - i,
        {
            if tasks[i].hash() == hash {
                return true;
            }
            i = i + 1;
        }
        false
    }

    fn vec_has_hash(tasks: &Vec<Task<F>>, hash: u64) -> (found: bool)
        ensures
            found == has_hash(tasks@, hash),
    {
        let mut i: usize = 0;
        while i < tasks.len()
            invariant
                i <= tasks@.len(),
                forall|j: int| 0 <= j < i ==> (#[trigger] tasks@[j]).spec_hash() != hash,
            decreases tasks@.len() - i,
        {
            if tasks[i].hash() == hash {
                return true;
            }
            i = i + 1;
        }
        false
    }

    /// Adds `task` at the back of the ready queue, unless its name is in use: a ready or
    /// parked task, or the task being polled, already has its hash.
    pub fn spawn(&mut self, task: Task<F>) -> (r: Result<(), Error>)
        ensures
            r is Err <==> old(self).name_in_use(task.spec_hash()),
            r is Ok ==> final(self).ready() == old(self).ready().push(task),
            r is Ok ==> final(self).held() == old(self).held().insert(task),
            r is Err ==> final(self).ready() == old(self).ready(),
            final(self).unready() == old(self).unready(),
            final(self).blocked() == old(self).blocked(),
            final(self).current() == old(self).current(),
            final(self).is_polling() == old(self).is_polling(),
    {
        let running = match &self.current_task {
            Some(current) => self.polling && current.hash() == task.hash(),
            None => false,
        };
        if running || Self::queue_has_hash(&self.ready_tasks, task.hash()) || Self::vec_has_hash(
            &self.unready_tasks,
            task.hash(),
        ) {
            return Err(Error::TaskNameAlreadyExist);
        }
        self.ready_tasks.push_back(task);
        proof {
            broadcast use vstd::seq_lib::group_to_multiset_ensures;

            assert(self.held() =~= old(self).held().insert(task));
        }
        Ok(())
    }

    /// Starts a blocking session; refused while one is already running.
    pub fn block_on(&mut self) -> (r: Result<(), ()>)
        ensures
            r is Err <==> old(self).blocked(),
            final(self).blocked(),
            final(self).ready() == old(self).ready(),
            final(self).unready() == old(self).unready(),
            final(self).current() == old(self).current(),
            final(self).is_polling() == old(self).is_polling(),
    {
        if self.is_blocked {
            return Err(());
        }
        self.is_blocked = true;
        Ok(())
    }

    /// One decision of the blocking loop: make the front ready task current, wait for
    /// a parked task to be woken, or end the session when no task is left.
    pub fn block_on_step(&mut self) -> (step: BlockOnStep)
        ensures
            old(self).ready().len() > 0 ==> {
                &&& step is Poll
                &&& final(self).current() == Some(old(self).ready()[0])
                &&& final(self).is_polling()
                &&& final(self).ready() == old(self).ready().drop_first()
                &&& final(self).blocked() == old(self).blocked()
                &&& final(self).held().add(optional_task(old(self).current())) == old(self).held()
            },
            old(self).ready().len() == 0 && old(self).unready().len() > 0 ==> {
                &&& step is Wait
                &&& final(self).ready() == old(self).ready()
                &&& final(self).current() == old(self).current()
                &&& final(self).blocked() == old(self).blocked()
            },
            old(self).ready().len() == 0 && old(self).unready().len() == 0 ==> {
                &&& step is Finished
                &&& final(self).ready() == old(self).ready()
                &&& final(self).current() == old(self).current()
                &&& !final(self).blocked()
            },
            old(self).ready().len() == 0 ==> final(self).held() == old(self).held(),
            old(self).ready().len() == 0 ==> final(self).is_polling() == old(self).is_polling(),
            final(self).unready() == old(self).unready(),
    {
        if self.ready_tasks.len() > 0 {
            self.current_task = self.ready_tasks.pop_front();
            self.polling = true;
            proof {
                broadcast use vstd::seq_lib::group_to_multiset_ensures;

                let r = old(self).ready();
                assert(r.drop_first() =~= r.remove(0));
                assert(self.held().add(optional_task(old(self).current())) =~= old(self).held());
            }
            return BlockOnStep::Poll;
        }
        if self.unready_tasks.len() == 0 {
            self.is_blocked = false;
            BlockOnStep::Finished
        } else {
            BlockOnStep::Wait
        }
    }

    /// The task being polled, to reach its future and waker.
    pub fn current_task_mut(&mut self) -> (task: &mut Task<F>)
        requires
            old(self).current() is Some,
        ensures
            *task == old(self).current().unwrap(),
            final(self).current() == Some(*final(task)),
            final(self).ready() == old(self).ready(),
            final(self).unready() == old(self).unready(),
            final(self).blocked() == old(self).blocked(),
            final(self).is_polling() == old(self).is_polling(),
    {
        self.current_task.as_mut().unwrap()
    }

    /// Whether a task is current.
    pub fn has_current(&self) -> (b: bool)
        ensures
            b == (self.current() is Some),
    {
        self.current_task.is_some()
    }

    /// Records the outcome of polling the current task: the poll is over; a pending task
    /// that is still current is parked; a finished task stays current (its name free)
    /// until the next step.
    pub fn end_poll(&mut self, is_pending: bool)
        ensures
            is_pending && old(self).current() is Some ==> {
                &&& final(self).unready() == old(self).unready().push(old(self).current().unwrap())
                &&& final(self).current() is None
            },
            !(is_pending && old(self).current() is Some) ==> {
                &&& final(self).unready() == old(self).unready()
                &&& final(self).current() == old(self).current()
            },
            final(self).ready() == old(self).ready(),
            final(self).blocked() == old(self).blocked(),
            final(self).held() == old(self).held(),
            !final(self).is_polling(),
    {
        proof {
            broadcast use vstd::seq_lib::group_to_multiset_ensures;

        }
        self.polling = false;
        if is_pending {
            if let Some(task) = self.current_task.take() {
                self.unready_tasks.push(task);
                assert(self.held() =~= old(self).held());
            }
        }
    }

    pub fn ready_tasks(&mut self) -> (queue: &mut VecDeque<Task<F>>)
        ensures
            queue@ == old(self).ready(),
            final(self).ready() == final(queue)@,
            final(self).unready() == old(self).unready(),
            final(self).blocked() == old(self).blocked(),
            final(self).current() == old(self).current(),
            final(self).is_polling() == old(self).is_polling(),
    {
        &mut self.ready_tasks
    }

    pub fn unready_tasks(&mut self) -> (tasks: &mut Vec<Task<F>>)
        ensures
            tasks@ == old(self).unready(),
            final(self).unready() == final(tasks)@,
            final(self).ready() == old(self).ready(),
            final(self).blocked() == old(self).blocked(),
            final(self).current() == old(self).current(),
            final(self).is_polling() == old(self).is_polling(),
    {
        &mut self.unready_tasks
    }

    fn position_of_hash(tasks: &Vec<Task<F>>, hash: u64) -> (p: usize)
        requires
            has_hash(tasks@, hash),
        ensures
            is_first_with_hash(tasks@, hash, p as int),
    {
        let mut i: usize = 0;
        while i < tasks.len()
            invariant
                i <= tasks@.len(),
                has_hash(tasks@, hash),
                forall|j: int| 0 <= j < i ==> (#[trigger] tasks@[j]).spec_hash() != hash,
            decreases tasks@.len() - i,
        {
            if tasks[i].hash() == hash {
                return i;
            }
            i = i + 1;
        }
        proof {
            let k = choose|k: int| 0 <= k < tasks@.len() && (#[trigger] tasks@[k]).spec_hash() == hash;
            assert(tasks@[k].spec_hash() != hash);
        }
        0
    }

    /// Whether a task with hash `hash` can be woken: the current task has it, or a
    /// parked task does (waking any other hash stops the program).
    pub fn can_set_ready(&self, hash: u64) -> (b: bool)
        ensures
            b == ((self.current() is Some && self.current().unwrap().spec_hash() == hash)
                || has_hash(self.unready(), hash)),
    {
        let current_matches = match &self.current_task {
            Some(task) => task.hash() == hash,
            None => false,
        };
        current_matches || Self::vec_has_hash(&self.unready_tasks, hash)
    }

    /// Moves the task with hash `hash` to the back of the ready queue: the current
    /// task if it has that hash, else the first parked task with it.
    pub fn set_task_as_ready(&mut self, hash: u64)
        requires
            (old(self).current() is Some && old(self).current().unwrap().spec_hash() == hash)
                || has_hash(old(self).unready(), hash),
        ensures
            old(self).current() is Some && old(self).current().unwrap().spec_hash() == hash ==> {
                &&& final(self).ready() == old(self).ready().push(old(self).current().unwrap())
                &&& final(self).current() is None
                &&& final(self).unready() == old(self).unready()
            },
            !(old(self).current() is Some && old(self).current().unwrap().spec_hash() == hash)
                ==> exists|p: int|
                {
                    &&& is_first_with_hash(old(self).unready(), hash, p)
                    &&& final(self).unready() == old(self).unready().remove(p)
                    &&& final(self).ready() == old(self).ready().push(old(self).unready()[p])
                    &&& final(self).current() == old(self).current()
                },
            final(self).blocked() == old(self).blocked(),
            final(self).held() == old(self).held(),
            final(self).is_polling() == old(self).is_polling(),
    {
        proof {
            broadcast use vstd::seq_lib::group_to_multiset_ensures;

        }
        if let Some(task) = self.current_task.take() {
            if task.hash() == hash {
                self.ready_tasks.push_back(task);
                assert(self.held() =~= old(self).held());
                return;
            }
            self.current_task = Some(task);
        }
        let position = Self::position_of_hash(&self.unready_tasks, hash);
        let task = self.unready_tasks.remove(position);
        self.ready_tasks.push_back(task);
        assert(self.held() =~= old(self).held());
    }
}


/// Once a task is spawned, its name is taken: while the task is ready (or parked, or
/// being polled), a spawn of another task with the same name is refused.
pub proof fn lemma_spawned_name_taken<F>(ready: Seq<Task<F>>, task: Task<F>)
    ensures
        has_hash(ready.push(task), task.spec_hash()),
{
    assert(ready.push(task)[ready.len() as int] == task);
}

/// The task being polled keeps its name: while it runs, a spawn of a task with the same
/// name is refused.
pub proof fn lemma_running_name_taken<F>(e: Executor<F>, task: Task<F>)
    requires
        e.is_polling(),
        e.current() == Some(task),
    ensures
        e.name_in_use(task.spec_hash()),
{
}

/// `spawn` refuses a task whose hash any ready or parked task already has, wherever it
/// stands in its queue: every task of the ready queue and every parked task holds its
/// name.
pub proof fn lemma_spawn_refuses_any_queued_name<F>(e: Executor<F>, task: Task<F>, i: int)
    requires
        (0 <= i < e.ready().len() && e.ready()[i].spec_hash() == task.spec_hash())
            || (0 <= i < e.unready().len() && e.unready()[i].spec_hash() == task.spec_hash()),
    ensures
        e.name_in_use(task.spec_hash()),
{
    if 0 <= i < e.ready().len() && e.ready()[i].spec_hash() == task.spec_hash() {
        assert(has_hash(e.ready(), task.spec_hash()));
    } else {
        assert(has_hash(e.unready(), task.spec_hash()));
    }
}

/// `spawn` accepts a task whose hash no ready task, no parked task and no task being
/// polled has.
pub proof fn lemma_spawn_accepts_a_free_name<F>(e: Executor<F>, task: Task<F>)
    requires
        forall|i: int| 0 <= i < e.ready().len() ==> e.ready()[i].spec_hash() != task.spec_hash(),
        forall|i: int| 0 <= i < e.unready().len() ==> e.unready()[i].spec_hash() != task.spec_hash(),
        !(e.is_polling() && e.current() is Some && e.current().unwrap().spec_hash() == task.spec_hash()),
    ensures
        !e.name_in_use(task.spec_hash()),
{
}

/// Whether no two tasks of `tasks` share a hash.
pub open spec fn distinct_hashes<F>(tasks: Seq<Task<F>>) -> bool {
    forall|i: int, j: int| 0 <= i < j < tasks.len() ==> tasks[i].spec_hash() != tasks[j].spec_hash()
}

/// Names stay unique: if no two ready or parked tasks share a hash, a task that
/// `spawn` accepts (its name not in use) joins the ready queue and still no two ready
/// or parked tasks share a hash.
pub proof fn lemma_spawn_keeps_names_unique<F>(e: Executor<F>, task: Task<F>)
    requires
        distinct_hashes(e.ready() + e.unready()),
        !e.name_in_use(task.spec_hash()),
    ensures
        distinct_hashes(e.ready().push(task) + e.unready()),
{
    let r = e.ready();
    let u = e.unready();
    let before = r + u;
    let after = r.push(task) + u;
    assert forall|i: int, j: int| 0 <= i < j < after.len() implies after[i].spec_hash()
        != after[j].spec_hash() by {
        if i < r.len() {
            assert(after[i] == before[i]);
        }
        if j < r.len() {
            assert(after[j] == before[j]);
        }
        if i > r.len() {
            assert(after[i] == before[i - 1]);
            assert(after[i] == u[i - r.len() - 1]);
        }
        if j > r.len() {
            assert(after[j] == before[j - 1]);
            assert(after[j] == u[j - r.len() - 1]);
        }
        if i == r.len() {
            assert(after[i] == task);
            assert(after[j] == u[j - r.len() - 1]);
            if u[j - r.len() - 1].spec_hash() == task.spec_hash() {
                assert(has_hash(u, task.spec_hash()));
            }
        }
        if j == r.len() {
            assert(after[j] == task);
            assert(after[i] == r[i]);
            if r[i].spec_hash() == task.spec_hash() {
                assert(has_hash(r, task.spec_hash()));
            }
        }
        if i > r.len() && j > r.len() {
            assert(before[i - 1].spec_hash() != before[j - 1].spec_hash());
        }
        if i < r.len() && j > r.len() {
            assert(before[i].spec_hash() != before[j - 1].spec_hash());
        }
    }
}

} // verus!
