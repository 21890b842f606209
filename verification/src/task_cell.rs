//! What the lock of a task holds: a task future that can only be polled and read.
use crate::task_future::{joined, JoinResult, TaskFuture};
use crate::task_state::{can_poll, Poll, PollReport, TaskState};
use vstd::prelude::*;

verus! {

/// A [`TaskFuture`] behind an interface of two operations. Whoever reaches it through a lock can
/// poll it or read it, and nothing else: only a poll moves the future on, and only a reader, who
/// leaves a waker, takes the output out.
pub struct TaskCell<F, T, W> {
    content: TaskFuture<F, T, W>,
}

impl<F, T, W> View for TaskCell<F, T, W> {
    type V = TaskFuture<F, T, W>;

    closed spec fn view(&self) -> TaskFuture<F, T, W> {
        self.content
    }
}

impl<F, T, W> TaskCell<F, T, W> {
    /// A task that has yet to run `future`, and that nobody awaits.
    pub fn new(future: F) -> (r: TaskCell<F, T, W>)
        ensures
            r@.state == TaskState::<F, T>::Pending(Box::new(future)),
            r@.joiner is None,
    {
        TaskCell { content: TaskFuture::new(future) }
    }

    /// Polls the future on behalf of a worker, as [`TaskFuture::poll`] does. What goes `along` is
    /// handed to `poll_future` with the future.
    pub fn poll<A, P: FnOnce(&mut F, A) -> Poll<T>>(&mut self, poll_future: P, along: A) -> (r: (
        PollReport,
        Option<W>,
    ))
        requires
            old(self)@.state is Pending ==> forall|fut: &mut F|
                *fut == *old(self)@.state->Pending_0 ==> #[trigger] poll_future.requires(
                    (fut, along),
                ),
        ensures
            r.0 == old(self)@.state.poll_report(),
            old(self)@.state is Pending ==> exists|fut: &mut F, polled: Poll<T>|
                *fut == *old(self)@.state->Pending_0 && #[trigger] poll_future.ensures(
                    (fut, along),
                    polled,
                ) && final(self)@ == old(self)@.after_poll(*final(fut), polled) && r.1
                    == old(self)@.woken_by_poll(polled),
            !(old(self)@.state is Pending) ==> final(self)@ == old(self)@ && r.1 is None,
    {
        self.content.poll(
            |future: &mut F| -> (polled: Poll<T>)
                requires
                    forall|fut: &mut F|
                        *fut == *future ==> #[trigger] poll_future.requires((fut, along)),
                ensures
                    exists|fut: &mut F|
                        *fut == *old(future) && *final(fut) == *final(future)
                            && #[trigger] poll_future.ensures((fut, along), polled)
                { poll_future(future, along) },
        )
    }

    /// Reads the output on behalf of whoever awaits it, as [`TaskFuture::read`] does.
    pub fn read<P: FnOnce(&mut F) -> Poll<T>>(&mut self, poll_future: P, waker: W) -> (r: Option<
        Poll<JoinResult<T>>,
    >)
        requires
            old(self)@.state is Pending ==> can_poll(poll_future, *old(self)@.state->Pending_0),
        ensures
            r is None <==> old(self)@.state is Consumed,
            r is None ==> final(self)@ == old(self)@,
            old(self)@.state is Pending ==> exists|fut: &mut F, polled: Poll<T>|
                *fut == *old(self)@.state->Pending_0 && #[trigger] poll_future.ensures(
                    (fut,),
                    polled,
                ) && final(self)@ == old(self)@.after_read(*final(fut), polled, waker) && r->0
                    == joined(old(self)@.state.read_value(polled)),
            old(self)@.state is Completed ==> final(self)@.state is Consumed && r->0
                == Poll::Ready(JoinResult::Ok(old(self)@.state->Completed_0)),
            r is Some && r->0 is Pending ==> final(self)@.joiner == Some(waker),
            r is Some && r->0 is Ready ==> final(self)@.joiner is None,
    {
        self.content.read(poll_future, waker)
    }
}

} // verus!
