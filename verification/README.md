# Mini Tokio

A small multi-threaded executor of futures, with a verified core.

`src/` is the core. It holds the states of a task, the tasks and the references to them, the join
handles, the run queue and the course of a run. Verus proves all of it but for the calls into
`std::sync` (`src/sync.rs`) and `crossbeam::channel` (`src/channel.rs`), which are behind small
functions whose contracts are taken on trust. `src/laws.rs` states what follows for tasks and
executors as a whole.

The core does not call futures, start threads or print. A function that has to poll a future takes
a `poll_future` argument for that; its contract says on which future it was called and what became
of the answer.

`app/` is ordinary Rust round the core: wakers, threads, futures of any type, and a program that
runs some of them.

## Modules

- `task_state`: pending, completed, consumed, and how polls and reads move a task along
- `task_future`: the same with join results, and with the waker of whoever awaits them
- `task`: a future with the run queue it is polled from
- `raw_task`: counted references to tasks, and the header they reach
- `join_handle`: awaiting a task
- `channel`: the run queue
- `runtime`: the executor, its workers and its runs
- `sync`: shared ownership and locks
- `laws`: what holds of tasks and executors as a whole
