# hat

A small async runtime for embedded targets, with its decisions verified by Verus.

- `src/` is the verified library: the executors and their task bookkeeping, the time
  manager and the SysTick clock, the delay and yield state machines, the mutexes,
  semaphores, trigger and channel of the tasks, the timer queue, the arena allocator's
  arithmetic, the reference count of the shared handle, the GPIO table and the
  simulated GPIO registry, the zbus work-queue requests, and the entry macro's
  parsing, analysis and code plan. Each public function states what it returns or
  changes, except the ends of the std-backed blocking channel, whose sends and
  receives depend on other threads; the laws that span functions are public proof
  functions.
- The bounded queues of waiting tasks and of channel items are the library's own
  `futures::deque::Deque` (a `VecDeque` with a capacity), not `heapless::Deque`: a
  contract over a heapless queue's contents would need a name for them that is
  generic in the capacity, and such names are kept free of generics here.
- `tests/` runs the library on concrete values.
- `app/` is the runtime around it: wakers, the executors' loops, the futures that
  poll the state machines, timers and threads, allocators, the RTOS and zbus calls,
  and the entry macro's panics and token output.
