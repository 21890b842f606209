//! The core of a small multi-threaded executor of futures.
//!
//! Spawning a future wraps it into a [`task::Task`] and pushes a reference to that into the
//! executor's run queue. Workers take references out of the queue and poll the tasks; a wakeup
//! pushes the task into the queue again. A [`join_handle::JoinHandle`] gives the output of the
//! future to whoever awaits it.
//!
//! The core never calls into a future by itself. A function that has to poll one takes a
//! `poll_future` argument, calls it at most once, and says in its contract on which future it was
//! called and what became of the answer. That leaves `F`, the type of the futures, and `T`, the
//! type of their outputs, to the caller; so are `V`, the type of the table that a task's header
//! carries for calling methods on the task, and `W`, the type of the wakers of those who await
//! tasks. The poll that completes a task gives back the waker of whoever awaits it.
//!
//! Queues and locks are shared, so a contract cannot say that nothing else was done to them. That
//! is left to the types. What a lock holds can only be polled or read ([`task_cell`]), and a read
//! takes a waker, of which a caller gives one. Nor is the run queue open to all. Whatever goes from
//! thread to thread through it has to be `Send + 'static`, and each operation asks for that of what
//! it brings along: making a further reference to a task asks it of `F`, queueing one of `T`,
//! receiving of `T` and `V`, and another receiving end of `W`. A function without these bounds
//! cannot do these things: polling a task never queues it, spawning one never receives, and
//! beginning a run does neither.
pub mod channel;
pub mod join_handle;
pub mod laws;
pub mod raw_task;
pub mod receiver;
pub mod runtime;
pub mod sync;
pub mod task;
pub mod task_cell;
pub mod task_future;
pub mod task_lock;
pub mod task_state;

pub use join_handle::JoinHandle;
pub use runtime::MiniTokio;
pub use task_future::{JoinError, JoinResult};
