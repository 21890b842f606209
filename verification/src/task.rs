//! Tasks: a future together with the run queue that it asks to be polled on.
use crate::channel::{handed_over, TaskSender};
use crate::join_handle::JoinHandle;
use crate::raw_task::{Header, RawTask};
use crate::sync::{guards, made_round, poisoned, share};
use crate::task_cell::TaskCell;
use crate::task_future::{joined, JoinResult, TaskFuture};
use crate::task_lock::TaskLock;
use crate::task_state::{Poll, PollReport, TaskState};
use std::sync::Arc;
use std::sync::Mutex;
use vstd::prelude::*;

verus! {

/// A panic in an earlier poll has left a task's state unusable.
#[derive(Debug, Clone, Copy, PartialEq, Eq, Structural)]
pub struct Poisoned;

/// Why a task's output could not be asked for.
#[derive(Debug, Clone, Copy, PartialEq, Eq, Structural)]
pub enum ReadError {
    /// The output has already been handed out.
    Consumed,
    /// A panic in an earlier poll has left the task's state unusable.
    Poisoned,
}

/// A spawned future, shared between the run queue, its wakers and its join handle.
#[verifier::reject_recursive_types(F)]
#[verifier::reject_recursive_types(T)]
#[verifier::reject_recursive_types(V)]
#[verifier::reject_recursive_types(W)]
pub struct Task<F, T, V, W> {
    header: Header<V>,
    state: TaskLock<F, T, W>,
    executor: TaskSender<F, T, V, W>,
}

impl<F, T, V, W> Task<F, T, V, W> {
    /// The run queue that the task is polled from.
    pub closed spec fn executor(self) -> TaskSender<F, T, V, W> {
        self.executor
    }

    /// The task's header.
    pub closed spec fn spec_header(self) -> Header<V> {
        self.header
    }

    /// The lock round the task's state.
    pub closed spec fn state(self) -> Mutex<TaskCell<F, T, W>> {
        self.state.mutex()
    }

    /// The task has yet to run `future`, and is polled from the queue behind `executor`.
    pub open spec fn is_new(
        self,
        future: F,
        header: Header<V>,
        executor: TaskSender<F, T, V, W>,
    ) -> bool {
        &&& exists|cell: TaskCell<F, T, W>| #[trigger]
            made_round(self.state(), cell) && cell@ == (TaskFuture::<F, T, W> {
                state: TaskState::<F, T>::Pending(Box::new(future)),
                joiner: None,
            })
        &&& self.spec_header() == header
        &&& self.executor() == executor
    }

    /// A task that runs `future` and is polled from the queue behind `executor`.
    fn create(future: F, header: Header<V>, executor: &TaskSender<F, T, V, W>) -> (r: Task<
        F,
        T,
        V,
        W,
    >)
        ensures
            r.is_new(future, header, *executor),
    {
        let task = Task { header, state: TaskLock::new(future), executor: executor.clone() };
        assert(task.state() == task.state.mutex());
        task
    }

    /// Creates a task that runs `future` and is polled from the queue behind `executor`.
    pub fn new(future: F, header: Header<V>, executor: &TaskSender<F, T, V, W>) -> (r: Arc<
        Task<F, T, V, W>,
    >)
        ensures
            r.is_new(future, header, *executor),
    {
        Arc::new(Task::create(future, header, executor))
    }
}

/// What is queued goes to another thread, so the output has to be fit for that.
impl<F, T: Send + 'static, V, W> Task<F, T, V, W> {
    /// A reference to the task was handed to its run queue.
    pub open spec fn was_scheduled(self) -> bool {
        exists|raw: RawTask<F, T, V, W>|
            *raw.task() == self && #[trigger] handed_over(self.executor(), raw)
    }

    /// Spawns a new task with the given future.
    ///
    /// Creates the task and hands it to `sender`; whoever receives it from there executes it.
    pub fn spawn(future: F, header: Header<V>, sender: &TaskSender<F, T, V, W>) -> (r: JoinHandle<
        F,
        T,
        V,
        W,
    >)
        ensures
            r.task().is_new(future, header, *sender),
            r.task().was_scheduled(),
    {
        let (queued, awaited) = RawTask::pair(Task::create(future, header, sender));
        let ghost sent = queued;
        let handle = JoinHandle::from_raw(awaited);
        sender.send(queued);
        assert(handed_over(handle.task().executor(), sent));
        handle
    }
}

/// Making a further reference to queue asks for a future that is fit for another thread.
impl<F: Send + 'static, T, V, W> Task<F, T, V, W> {
    /// Converts the task to a [`RawTask`], which holds a reference of its own.
    pub fn into_raw(self: &Arc<Self>) -> (r: RawTask<F, T, V, W>)
        ensures
            r.task() == *self,
    {
        RawTask::new(share(self))
    }
}

/// Scheduling makes such a reference and queues it.
impl<F: Send + 'static, T: Send + 'static, V, W> Task<F, T, V, W> {
    /// Queues the task for polling. This is what a wakeup does.
    pub fn schedule(self: &Arc<Self>)
        ensures
            self.was_scheduled(),
    {
        let raw = self.into_raw();
        let ghost sent = raw;
        self.executor.send(raw);
        assert(handed_over(self.executor(), sent));
    }
}

impl<F, T, V, W> Task<F, T, V, W> {
    /// The task's header.
    pub fn header(&self) -> (r: &Header<V>)
        ensures
            *r == self.spec_header(),
    {
        &self.header
    }

    /// Polls the task's future, if it is still pending.
    ///
    /// Along with the future, `poll_future` gets the task itself: the future is to be given a
    /// waker that schedules that task. The task's state is locked meanwhile, so `poll_future` must
    /// not itself poll or await the same task.
    ///
    /// If that completes the task, whoever awaits it has to be notified: the waker to call comes
    /// back along with the report. It is called once the lock is free, that is, by the caller.
    /// The outcome is that of one poll of what the task holds, to which `poll_future` goes.
    pub fn poll<P: FnOnce(&mut F, Arc<Task<F, T, V, W>>) -> Poll<T>>(
        self: Arc<Self>,
        poll_future: P,
    ) -> (r: Result<(PollReport, Option<W>), Poisoned>)
        requires
            forall|fut: &mut F| #[trigger] poll_future.requires((fut, self)),
        ensures
            r is Err ==> poisoned(self.state()),
            r is Ok ==> exists|content: &mut TaskCell<F, T, W>| #[trigger]
                guards(self.state(), content) && r->Ok_0.0 == content@.state.poll_report() && (
                content@.state is Pending ==> exists|fut: &mut F, polled: Poll<T>|
                    *fut == *content@.state->Pending_0 && #[trigger] poll_future.ensures(
                        (fut, self),
                        polled,
                    ) && final(content)@ == content@.after_poll(*final(fut), polled) && r->Ok_0.1
                        == content@.woken_by_poll(polled)) && (!(content@.state is Pending)
                    ==> final(content)@ == content@ && r->Ok_0.1 is None),
            r is Ok ==> exists|
                content: &mut TaskCell<F, T, W>,
                lent: &mut TaskCell<F, T, W>,
            | #[trigger]
                guards(self.state(), content) && *lent == *content && *final(lent)
                    == *final(content) && #[trigger] call_ensures(
                    TaskCell::<F, T, W>::poll::<Arc<Task<F, T, V, W>>, P>,
                    (lent, poll_future, self),
                    r->Ok_0,
                ),
    {
        let waking = share(&self);
        assert(self.state() == self.state.mutex());
        let r = self.state.poll(poll_future, waking);
        match r {
            Some(outcome) => {
                let r = Ok(outcome);
                assert(r->Ok_0 == outcome);
                r
            },
            None => Err(Poisoned),
        }
    }

    /// Tries to read the output of the task's future into `dst`. On an error `dst` is left alone.
    /// A reader who gets nothing is notified through `waker` when the task completes.
    ///
    /// The task's state is locked meanwhile, so `poll_future` must not itself poll or await the
    /// same task. The answer is that of one read, to which `poll_future` and `waker` go.
    pub fn try_read_output<P: FnOnce(&mut F) -> Poll<T>>(
        self: &Arc<Self>,
        dst: &mut Poll<JoinResult<T>>,
        poll_future: P,
        waker: W,
    ) -> (r: Result<(), ReadError>)
        requires
            forall|fut: &mut F| #[trigger] poll_future.requires((fut,)),
        ensures
            r == Err::<(), ReadError>(ReadError::Poisoned) ==> poisoned(self.state()),
            r == Err::<(), ReadError>(ReadError::Consumed) ==> exists|
                content: &mut TaskCell<F, T, W>,
            | #[trigger]
                guards(self.state(), content) && content@.state is Consumed && final(content)@
                    == content@,
            r is Err ==> *final(dst) == *old(dst),
            r is Ok ==> exists|content: &mut TaskCell<F, T, W>| #[trigger]
                guards(self.state(), content) && !(content@.state is Consumed) && (
                content@.state is Pending ==> exists|fut: &mut F, polled: Poll<T>|
                    *fut == *content@.state->Pending_0 && #[trigger] poll_future.ensures(
                        (fut,),
                        polled,
                    ) && final(content)@ == content@.after_read(*final(fut), polled, waker)
                        && *final(dst) == joined(content@.state.read_value(polled))) && (
                content@.state is Completed ==> final(content)@.state is Consumed
                    && final(content)@.joiner is None && *final(dst) == Poll::Ready(
                    JoinResult::Ok(content@.state->Completed_0),
                )),
            r != Err::<(), ReadError>(ReadError::Poisoned) ==> exists|
                content: &mut TaskCell<F, T, W>,
                lent: &mut TaskCell<F, T, W>,
                read: Option<Poll<JoinResult<T>>>,
            | #[trigger]
                guards(self.state(), content) && *lent == *content && *final(lent)
                    == *final(content) && #[trigger] call_ensures(
                    TaskCell::<F, T, W>::read::<P>,
                    (lent, poll_future, waker),
                    read,
                ) && (read is None <==> r is Err) && (read is Some ==> *final(dst) == read->0),
    {
        assert(self.state() == self.state.mutex());
        let r = self.state.read(poll_future, waker);
        match r {
            Some(Some(output)) => {
                *dst = output;
                Ok(())
            },
            Some(None) => Err(ReadError::Consumed),
            None => Err(ReadError::Poisoned),
        }
    }

    /// Converts a [`RawTask`] back into the task it refers to, taking its reference over.
    pub fn from_raw(raw: RawTask<F, T, V, W>) -> (r: Arc<Task<F, T, V, W>>)
        ensures
            r == raw.task(),
    {
        raw.into_task()
    }
}

} // verus!
