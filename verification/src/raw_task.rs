//! References to tasks as the run queue and the join handles hold them.
use crate::sync::{guards, poisoned, share};
use crate::task::{Poisoned, ReadError, Task};
use crate::task_cell::TaskCell;
use crate::task_future::{joined, JoinResult};
use crate::task_state::{Poll, PollReport};
use std::sync::Arc;
use vstd::prelude::*;

verus! {

/// The part of a [`Task`] that a [`RawTask`] reaches without knowing what the task computes.
#[derive(Debug)]
pub struct Header<V> {
    /// Table of functions for calling methods on a [`Task`].
    pub vtable: V,
}

impl<V> Header<V> {
    /// Creates the header of a [`Task`] whose functions are in `vtable`.
    pub fn new(vtable: V) -> (r: Header<V>)
        ensures
            r.vtable == vtable,
    {
        Header { vtable }
    }
}

/// One counted reference to a task. It cannot be copied, and gives its reference up exactly once:
/// when it is turned back into a [`Task`] or dropped.
#[verifier::reject_recursive_types(F)]
#[verifier::reject_recursive_types(T)]
#[verifier::reject_recursive_types(V)]
#[verifier::reject_recursive_types(W)]
pub struct RawTask<F, T, V, W> {
    ptr: Arc<Task<F, T, V, W>>,
}

/// A raw task may end up on another thread, so the future has to be fit for that.
impl<F: Send + 'static, T, V, W> RawTask<F, T, V, W> {
    /// Wraps a reference to a task.
    pub fn new(ptr: Arc<Task<F, T, V, W>>) -> (r: RawTask<F, T, V, W>)
        ensures
            r.task() == ptr,
    {
        RawTask { ptr }
    }
}

impl<F, T, V, W> RawTask<F, T, V, W> {
    /// The task referred to.
    pub closed spec fn task(self) -> Arc<Task<F, T, V, W>> {
        self.ptr
    }

    /// Polls the task, if it is still pending, and gives the reference up.
    ///
    /// Along with the future, `poll_future` gets the task itself: the future is to be given a
    /// waker that schedules that task. If that completes the task, the waker of whoever awaits it
    /// comes back along with the report, for the caller to call. The outcome is that of one
    /// [`Task::poll`].
    pub fn poll<P: FnOnce(&mut F, Arc<Task<F, T, V, W>>) -> Poll<T>>(
        self,
        poll_future: P,
    ) -> (r: Result<(PollReport, Option<W>), Poisoned>)
        requires
            forall|fut: &mut F| #[trigger] poll_future.requires((fut, self.task())),
        ensures
            r is Err ==> poisoned(self.task().state()),
            r is Ok ==> exists|content: &mut TaskCell<F, T, W>| #[trigger]
                guards(self.task().state(), content) && r->Ok_0.0 == content@.state.poll_report()
                    && (
                content@.state is Pending ==> exists|fut: &mut F, polled: Poll<T>|
                    *fut == *content@.state->Pending_0 && #[trigger] poll_future.ensures(
                        (fut, self.task()),
                        polled,
                    ) && final(content)@ == content@.after_poll(*final(fut), polled) && r->Ok_0.1
                        == content@.woken_by_poll(polled)) && (!(content@.state is Pending)
                    ==> final(content)@ == content@ && r->Ok_0.1 is None),
            call_ensures(Task::<F, T, V, W>::poll::<P>, (self.task(), poll_future), r),
    {
        let task = Task::from_raw(self);
        task.poll(poll_future)
    }

    /// Tries to read the task's output into `dst`. On an error `dst` is left alone. A reader who
    /// gets nothing is notified through `waker` when the task completes.
    ///
    /// The reference goes in and comes out again, along with what came of the attempt, one
    /// [`Task::try_read_output`]: whoever holds it goes on with what is returned.
    #[must_use]
    pub fn try_read_output<P: FnOnce(&mut F) -> Poll<T>>(
        self,
        dst: &mut Poll<JoinResult<T>>,
        poll_future: P,
        waker: W,
    ) -> (r: (RawTask<F, T, V, W>, Result<(), ReadError>))
        requires
            forall|fut: &mut F| #[trigger] poll_future.requires((fut,)),
        ensures
            r.0.task() == self.task(),
            r.1 == Err::<(), ReadError>(ReadError::Poisoned) ==> poisoned(self.task().state()),
            r.1 == Err::<(), ReadError>(ReadError::Consumed) ==> exists|
                content: &mut TaskCell<F, T, W>,
            | #[trigger]
                guards(self.task().state(), content) && content@.state is Consumed
                    && final(content)@ == content@,
            r.1 is Err ==> *final(dst) == *old(dst),
            r.1 is Ok ==> exists|content: &mut TaskCell<F, T, W>| #[trigger]
                guards(self.task().state(), content) && !(content@.state is Consumed) && (
                content@.state is Pending ==> exists|fut: &mut F, polled: Poll<T>|
                    *fut == *content@.state->Pending_0 && #[trigger] poll_future.ensures(
                        (fut,),
                        polled,
                    ) && final(content)@ == content@.after_read(*final(fut), polled, waker)
                        && *final(dst) == joined(content@.state.read_value(polled))) && (
                content@.state is Completed ==> final(content)@.state is Consumed
                    && final(content)@.joiner is None && *final(dst) == Poll::Ready(
                    JoinResult::Ok(content@.state->Completed_0),
                )),
            exists|lent: &mut Poll<JoinResult<T>>|
                *lent == *old(dst) && *final(lent) == *final(dst) && #[trigger] call_ensures(
                    Task::<F, T, V, W>::try_read_output::<P>,
                    (&self.task(), lent, poll_future, waker),
                    r.1,
                ),
    {
        let ptr = Task::from_raw(self);
        let r = ptr.try_read_output(dst, poll_future, waker);
        (RawTask { ptr }, r)
    }

    /// The task referred to. The reference stays with the raw task.
    pub fn as_task(&self) -> (r: &Arc<Task<F, T, V, W>>)
        ensures
            *r == self.task(),
    {
        &self.ptr
    }

    /// Returns a reference to the task's header.
    pub fn header(&self) -> (r: &Header<V>)
        ensures
            *r == self.task().spec_header(),
    {
        self.ptr.header()
    }

    /// The first two references to a new task.
    pub(crate) fn pair(task: Task<F, T, V, W>) -> (r: (RawTask<F, T, V, W>, RawTask<F, T, V, W>))
        ensures
            *r.0.task() == task,
            r.1.task() == r.0.task(),
    {
        let ptr = Arc::new(task);
        let second = RawTask { ptr: share(&ptr) };
        (RawTask { ptr }, second)
    }

    /// Gives the reference back.
    pub(crate) fn into_task(self) -> (r: Arc<Task<F, T, V, W>>)
        ensures
            r == self.task(),
    {
        self.ptr
    }
}

} // verus!
