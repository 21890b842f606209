//! The life of a task: pending, then completed, then consumed.
use vstd::prelude::*;

verus! {

/// What a future answers when it is polled.
#[derive(Debug, PartialEq, Eq)]
pub enum Poll<T> {
    /// The future has finished with this value.
    Ready(T),
    /// The future has not finished yet.
    Pending,
}

/// What polling a task came to.
#[derive(Debug, Clone, Copy, PartialEq, Eq, Structural)]
pub enum PollReport {
    /// The task was pending, so its future was polled.
    Polled,
    /// The task had already finished; its future was left alone.
    AlreadyCompleted,
    /// The output had already been taken; there is no future left.
    AlreadyConsumed,
}

impl PollReport {
    /// The line to log for a poll that reached no future.
    pub fn message(&self) -> (r: Option<&'static str>)
        ensures
            match *self {
                PollReport::Polled => r is None,
                PollReport::AlreadyCompleted => r is Some && r->0@ == "polled a completed task"@,
                PollReport::AlreadyConsumed => r is Some && r->0@ == "polled a consumed task"@,
            },
    {
        match self {
            PollReport::Polled => None,
            PollReport::AlreadyCompleted => Some("polled a completed task"),
            PollReport::AlreadyConsumed => Some("polled a consumed task"),
        }
    }
}

/// Whether `poll_future` may be called on a future in the state `future`.
pub open spec fn can_poll<F, T, P: FnOnce(&mut F) -> Poll<T>>(poll_future: P, future: F) -> bool {
    forall|fut: &mut F| *fut == future ==> #[trigger] poll_future.requires((fut,))
}

/// The state of a task: its future while that runs, then its output, then nothing.
#[derive(Debug, PartialEq, Eq)]
pub enum TaskState<F, T> {
    /// The future has not finished.
    Pending(Box<F>),
    /// The future has finished with this output, which nobody has taken yet.
    Completed(T),
    /// The output has been handed out.
    Consumed,
}

impl<F, T> TaskState<F, T> {
    /// The state after a poll by a worker. Where the task was pending, `future` is what the
    /// poll made of its future and `polled` is the answer; otherwise neither counts.
    pub open spec fn after_poll(self, future: F, polled: Poll<T>) -> TaskState<F, T> {
        match self {
            TaskState::Pending(_) => match polled {
                Poll::Ready(value) => TaskState::Completed(value),
                Poll::Pending => TaskState::Pending(Box::new(future)),
            },
            TaskState::Completed(_) | TaskState::Consumed => self,
        }
    }

    /// What a poll by a worker reports.
    pub open spec fn poll_report(self) -> PollReport {
        match self {
            TaskState::Pending(_) => PollReport::Polled,
            TaskState::Completed(_) => PollReport::AlreadyCompleted,
            TaskState::Consumed => PollReport::AlreadyConsumed,
        }
    }

    /// The state after an attempt to read the output, with `future` and `polled` as in
    /// [`TaskState::after_poll`].
    pub open spec fn after_read(self, future: F, polled: Poll<T>) -> TaskState<F, T> {
        match (self, polled) {
            (TaskState::Pending(_), Poll::Pending) => TaskState::Pending(Box::new(future)),
            _ => TaskState::Consumed,
        }
    }

    /// What an attempt to read the output gives the reader, with `polled` as in
    /// [`TaskState::after_poll`].
    pub open spec fn read_value(self, polled: Poll<T>) -> Poll<T>
        recommends
            !(self is Consumed),
    {
        match self {
            TaskState::Pending(_) => polled,
            TaskState::Completed(value) => Poll::Ready(value),
            TaskState::Consumed => Poll::Pending,
        }
    }

    /// A task that has yet to run `future`.
    pub fn new(future: F) -> (r: TaskState<F, T>)
        ensures
            r == TaskState::<F, T>::Pending(Box::new(future)),
    {
        TaskState::Pending(Box::new(future))
    }

    /// Whether the output has been handed out.
    pub fn is_consumed(&self) -> (r: bool)
        ensures
            r == (*self is Consumed),
    {
        matches!(self, TaskState::Consumed)
    }

    /// Takes note of the answer that a worker got from the pending future.
    pub fn settle(&mut self, polled: Poll<T>)
        requires
            *old(self) is Pending,
        ensures
            *final(self) == old(self).after_poll(*(*old(self))->Pending_0, polled),
    {
        match polled {
            Poll::Ready(value) => {
                *self = TaskState::Completed(value);
            },
            Poll::Pending => {},
        }
    }

    /// Takes note of the answer that a reader got from the pending future, and gives the reader
    /// what is due.
    pub fn deliver(&mut self, polled: Poll<T>) -> (r: Poll<T>)
        requires
            *old(self) is Pending,
        ensures
            *final(self) == old(self).after_read(*(*old(self))->Pending_0, polled),
            r == old(self).read_value(polled),
    {
        match polled {
            Poll::Ready(value) => {
                *self = TaskState::Consumed;
                Poll::Ready(value)
            },
            Poll::Pending => Poll::Pending,
        }
    }

    /// Polls the future on behalf of a worker.
    ///
    /// Spurious wakeups are allowed, so the future is polled only while it is pending:
    /// `poll_future` is called once then, and not at all otherwise.
    pub fn poll<P: FnOnce(&mut F) -> Poll<T>>(&mut self, poll_future: P) -> (r: PollReport)
        requires
            *old(self) is Pending ==> can_poll(poll_future, *(*old(self))->Pending_0),
        ensures
            r == old(self).poll_report(),
            *old(self) is Pending ==> exists|fut: &mut F, polled: Poll<T>|
                *fut == *(*old(self))->Pending_0 && #[trigger] poll_future.ensures((fut,), polled)
                    && *final(self) == old(self).after_poll(*final(fut), polled),
            !(*old(self) is Pending) ==> *final(self) == *old(self),
    {
        match self {
            TaskState::Pending(future) => {
                let future: &mut F = &mut **future;
                let polled = poll_future(future);
                self.settle(polled);
                PollReport::Polled
            },
            TaskState::Completed(_) => PollReport::AlreadyCompleted,
            TaskState::Consumed => PollReport::AlreadyConsumed,
        }
    }

    /// Reads the output into `dst`, on behalf of whoever awaits the task.
    ///
    /// A pending future is polled by the reader itself; an output that a worker has left is handed
    /// out. Either way an output leaves the task consumed.
    pub fn try_read_output<P: FnOnce(&mut F) -> Poll<T>>(
        &mut self,
        dst: &mut Poll<T>,
        poll_future: P,
    )
        requires
            !(*old(self) is Consumed),
            *old(self) is Pending ==> can_poll(poll_future, *(*old(self))->Pending_0),
        ensures
            *old(self) is Pending ==> exists|fut: &mut F, polled: Poll<T>|
                *fut == *(*old(self))->Pending_0 && #[trigger] poll_future.ensures((fut,), polled)
                    && *final(self) == old(self).after_read(*final(fut), polled)
                    && *final(dst) == old(self).read_value(polled),
            *old(self) is Completed ==> *final(self) is Consumed && *final(dst) == Poll::Ready(
                (*old(self))->Completed_0,
            ),
    {
        match self {
            TaskState::Pending(future) => {
                let future: &mut F = &mut **future;
                let polled = poll_future(future);
                *dst = self.deliver(polled);
            },
            TaskState::Completed(_) => {
                let mut taken: TaskState<F, T> = TaskState::Consumed;
                std::mem::swap(self, &mut taken);
                if let TaskState::Completed(value) = taken {
                    *dst = Poll::Ready(value);
                }
            },
            TaskState::Consumed => {},
        }
    }
}

} // verus!
