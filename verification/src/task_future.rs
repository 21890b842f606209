//! A task's future as its join handle sees it: what comes out is a join result, and whoever waits
//! for it is remembered.
use crate::task_state::{can_poll, Poll, PollReport, TaskState};
use vstd::prelude::*;

verus! {

/// Why awaiting a task failed.
#[derive(Debug)]
pub struct JoinError(String);

/// What awaiting a task gives: its output, or why there is none.
pub type JoinResult<T> = Result<T, JoinError>;

/// An answer of the future, as the join handle passes it on.
pub open spec fn joined<T>(polled: Poll<T>) -> Poll<JoinResult<T>> {
    match polled {
        Poll::Ready(value) => Poll::Ready(Ok(value)),
        Poll::Pending => Poll::Pending,
    }
}

/// A structure holding a future and the result of the latest call to its `poll` method, together
/// with the waker of whoever awaits the output.
pub struct TaskFuture<F, T, W> {
    /// The future, or what has become of it.
    pub state: TaskState<F, T>,
    /// The waker of the reader who last asked for the output and has to be told when it is there.
    pub joiner: Option<W>,
}

impl<F, T, W> TaskFuture<F, T, W> {
    /// What a poll by a worker leaves. Where the task was pending, `future` is what the poll made
    /// of its future and `polled` is the answer; otherwise neither counts.
    pub open spec fn after_poll(self, future: F, polled: Poll<T>) -> TaskFuture<F, T, W> {
        TaskFuture {
            state: self.state.after_poll(future, polled),
            joiner: if self.state is Pending && polled is Ready {
                None
            } else {
                self.joiner
            },
        }
    }

    /// The waker to call after a poll by a worker, with `polled` as in
    /// [`TaskFuture::after_poll`]: the poll that completes the task names whoever awaits it.
    pub open spec fn woken_by_poll(self, polled: Poll<T>) -> Option<W> {
        if self.state is Pending && polled is Ready {
            self.joiner
        } else {
            None
        }
    }

    /// What an attempt to read the output leaves, with `future` and `polled` as in
    /// [`TaskFuture::after_poll`]: a reader who gets nothing leaves the waker behind.
    pub open spec fn after_read(self, future: F, polled: Poll<T>, waker: W) -> TaskFuture<F, T, W> {
        TaskFuture {
            state: self.state.after_read(future, polled),
            joiner: match self.state.read_value(polled) {
                Poll::Ready(_) => None,
                Poll::Pending => Some(waker),
            },
        }
    }

    /// A task that has yet to run `future`, and that nobody awaits.
    pub fn new(future: F) -> (r: TaskFuture<F, T, W>)
        ensures
            r.state == TaskState::<F, T>::Pending(Box::new(future)),
            r.joiner is None,
    {
        TaskFuture { state: TaskState::new(future), joiner: None }
    }

    /// Polls the future on behalf of a worker, if it is still pending.
    ///
    /// If that completes the task, whoever awaits it has to be notified: the waker to call comes
    /// back along with the report.
    pub fn poll<P: FnOnce(&mut F) -> Poll<T>>(&mut self, poll_future: P) -> (r: (
        PollReport,
        Option<W>,
    ))
        requires
            old(self).state is Pending ==> can_poll(poll_future, *old(self).state->Pending_0),
        ensures
            r.0 == old(self).state.poll_report(),
            old(self).state is Pending ==> exists|fut: &mut F, polled: Poll<T>|
                *fut == *old(self).state->Pending_0 && #[trigger] poll_future.ensures(
                    (fut,),
                    polled,
                ) && *final(self) == old(self).after_poll(*final(fut), polled)
                    && r.1 == old(self).woken_by_poll(polled),
            !(old(self).state is Pending) ==> *final(self) == *old(self) && r.1 is None,
            old(self).state is Pending && final(self).state is Completed ==> r.1 == old(self).joiner
                && final(self).joiner is None,
            !(old(self).state is Pending && final(self).state is Completed) ==> r.1 is None
                && final(self).joiner == old(self).joiner,
    {
        let report = self.state.poll(poll_future);
        let completed = matches!(self.state, TaskState::Completed(_));
        if completed && matches!(report, PollReport::Polled) {
            (report, self.joiner.take())
        } else {
            (report, None)
        }
    }

    /// Reads the output into `dst`, as a join result. A reader who gets nothing is notified through
    /// `waker` when the task completes.
    pub fn try_read_output<P: FnOnce(&mut F) -> Poll<T>>(
        &mut self,
        dst: &mut Poll<JoinResult<T>>,
        poll_future: P,
        waker: W,
    )
        requires
            !(old(self).state is Consumed),
            old(self).state is Pending ==> can_poll(poll_future, *old(self).state->Pending_0),
        ensures
            old(self).state is Pending ==> exists|fut: &mut F, polled: Poll<T>|
                *fut == *old(self).state->Pending_0 && #[trigger] poll_future.ensures(
                    (fut,),
                    polled,
                ) && *final(self) == old(self).after_read(*final(fut), polled, waker)
                    && *final(dst) == joined(old(self).state.read_value(polled)),
            old(self).state is Completed ==> final(self).state is Consumed && *final(dst)
                == Poll::Ready(JoinResult::Ok(old(self).state->Completed_0)),
            *final(dst) is Pending ==> final(self).joiner == Some(waker),
            *final(dst) is Ready ==> final(self).joiner is None,
    {
        let mut output: Poll<T> = Poll::Pending;
        self.state.try_read_output(&mut output, poll_future);
        match output {
            Poll::Ready(value) => {
                self.joiner = None;
                *dst = Poll::Ready(Ok(value));
            },
            Poll::Pending => {
                self.joiner = Some(waker);
                *dst = Poll::Pending;
            },
        }
    }

    /// What a reader gets, whatever the task has come to: `None` where the output has already been
    /// handed out, which leaves the task as it is, and otherwise what
    /// [`TaskFuture::try_read_output`] reads.
    pub fn read<P: FnOnce(&mut F) -> Poll<T>>(&mut self, poll_future: P, waker: W) -> (r: Option<
        Poll<JoinResult<T>>,
    >)
        requires
            old(self).state is Pending ==> can_poll(poll_future, *old(self).state->Pending_0),
        ensures
            r is None <==> old(self).state is Consumed,
            r is None ==> *final(self) == *old(self),
            old(self).state is Pending ==> exists|fut: &mut F, polled: Poll<T>|
                *fut == *old(self).state->Pending_0 && #[trigger] poll_future.ensures(
                    (fut,),
                    polled,
                ) && *final(self) == old(self).after_read(*final(fut), polled, waker) && r->0
                    == joined(old(self).state.read_value(polled)),
            old(self).state is Completed ==> final(self).state is Consumed && r->0 == Poll::Ready(
                JoinResult::Ok(old(self).state->Completed_0),
            ),
            r is Some && r->0 is Pending ==> final(self).joiner == Some(waker),
            r is Some && r->0 is Ready ==> final(self).joiner is None,
    {
        if self.state.is_consumed() {
            None
        } else {
            let mut output: Poll<JoinResult<T>> = Poll::Pending;
            self.try_read_output(&mut output, poll_future, waker);
            Some(output)
        }
    }
}

} // verus!
