//! Handles for awaiting spawned tasks.
use crate::raw_task::RawTask;
use crate::sync::{guards, poisoned};
use crate::task::{ReadError, Task};
use crate::task_cell::TaskCell;
use crate::task_future::{joined, JoinResult};
use crate::task_state::Poll;
use std::sync::Arc;
use vstd::prelude::*;

verus! {

/// The right to await a spawned task. It owns a reference to the task, which goes with it.
#[verifier::reject_recursive_types(F)]
#[verifier::reject_recursive_types(T)]
#[verifier::reject_recursive_types(V)]
#[verifier::reject_recursive_types(W)]
pub struct JoinHandle<F, T, V, W> {
    raw: RawTask<F, T, V, W>,
}

/// The handle may end up on another thread than the task, so the future has to be fit for that.
impl<F: Send + 'static, T, V, W> JoinHandle<F, T, V, W> {
    /// A handle for awaiting `task`.
    pub fn new(task: Arc<Task<F, T, V, W>>) -> (r: JoinHandle<F, T, V, W>)
        ensures
            r.task() == task,
    {
        JoinHandle { raw: RawTask::new(task) }
    }
}

impl<F, T, V, W> JoinHandle<F, T, V, W> {
    /// The task awaited.
    pub closed spec fn task(self) -> Arc<Task<F, T, V, W>> {
        self.raw.task()
    }

    /// A handle for awaiting the task that `raw` refers to. It takes the reference over.
    pub(crate) fn from_raw(raw: RawTask<F, T, V, W>) -> (r: JoinHandle<F, T, V, W>)
        ensures
            r.task() == raw.task(),
    {
        JoinHandle { raw }
    }

    /// Awaits the task one step further: its output if it is there, otherwise `Poll::Pending`.
    ///
    /// A pending future is polled right here, so `poll_future` is to give it the waker of whoever
    /// awaits the handle. Where nothing has come yet, `waker` is kept as well: the poll that
    /// completes the task, on whatever thread, gives it back to be called. The answer is that of
    /// one [`Task::try_read_output`].
    pub fn poll<P: FnOnce(&mut F) -> Poll<T>>(&mut self, poll_future: P, waker: W) -> (r: Result<
        Poll<JoinResult<T>>,
        ReadError,
    >)
        requires
            forall|fut: &mut F| #[trigger] poll_future.requires((fut,)),
        ensures
            final(self).task() == old(self).task(),
            r is Err ==> r->Err_0 is Poisoned ==> poisoned(old(self).task().state()),
            r is Err ==> r->Err_0 is Consumed ==> exists|
                content: &mut TaskCell<F, T, W>,
            | #[trigger]
                guards(old(self).task().state(), content) && content@.state is Consumed
                    && final(content)@ == content@,
            r is Ok ==> exists|content: &mut TaskCell<F, T, W>| #[trigger]
                guards(old(self).task().state(), content) && !(content@.state is Consumed) && (
                content@.state is Pending ==> exists|fut: &mut F, polled: Poll<T>|
                    *fut == *content@.state->Pending_0 && #[trigger] poll_future.ensures(
                        (fut,),
                        polled,
                    ) && final(content)@ == content@.after_read(*final(fut), polled, waker)
                        && r->Ok_0 == joined(content@.state.read_value(polled))) && (
                content@.state is Completed ==> final(content)@.state is Consumed
                    && final(content)@.joiner is None && r->Ok_0 == Poll::Ready(
                    JoinResult::Ok(content@.state->Completed_0),
                )),
            exists|dst: &mut Poll<JoinResult<T>>, read: Result<(), ReadError>| #[trigger]
                call_ensures(
                    Task::<F, T, V, W>::try_read_output::<P>,
                    (&old(self).task(), dst, poll_future, waker),
                    read,
                ) && (read is Ok ==> r is Ok && r->Ok_0 == *final(dst)) && (read is Err ==> r is Err
                    && r->Err_0 == read->Err_0),
    {
        let mut output: Poll<JoinResult<T>> = Poll::Pending;
        let task = self.raw.as_task();
        assert(*task == old(self).task());
        match task.try_read_output(&mut output, poll_future, waker) {
            Ok(()) => Ok(output),
            Err(error) => Err(error),
        }
    }
}

} // verus!
