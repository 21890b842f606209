//! The run queue: an unbounded channel from the tasks that ask to be polled to the workers that
//! poll them.
//!
//! Sends and receives on other threads change what a channel holds at any time, so no contract
//! says what it holds. A contract says instead which ends belong together ([`connected`]), what
//! was handed to which end ([`handed_over`]) and what an end gave out ([`gave_out`]). Each of these
//! says that the arguments and the result of an outside call are a pair that the call can give.
//! They are known only where such a call was made: the code that proves one of them makes the call,
//! or receives a task that was sent by one.
use crate::raw_task::RawTask;
use crossbeam::channel;
use vstd::prelude::*;

verus! {

/// The sending end of a run queue. Its value stands for the queue it feeds, which all clones of
/// it share.
///
/// Opaque: a task holds the sending end of a queue of tasks, and no declaration of
/// `crossbeam::channel::Sender` itself can take part in that cycle.
#[verifier::external_body]
#[verifier::reject_recursive_types(F)]
#[verifier::reject_recursive_types(T)]
#[verifier::reject_recursive_types(V)]
#[verifier::reject_recursive_types(W)]
pub struct TaskSender<F, T, V, W> {
    sender: channel::Sender<RawTask<F, T, V, W>>,
}

/// The receiving end of a run queue, opaque like [`TaskSender`]. Its value stands for the queue
/// it drains, which all clones of it share. Tasks come out of it through a [`TaskReceiver`].
#[verifier::external_body]
#[verifier::reject_recursive_types(F)]
#[verifier::reject_recursive_types(T)]
#[verifier::reject_recursive_types(V)]
#[verifier::reject_recursive_types(W)]
pub struct ReceivingEnd<F, T, V, W> {
    receiver: channel::Receiver<RawTask<F, T, V, W>>,
}

/// Somebody who takes tasks out of a run queue, with a record of the tasks taken so far.
#[verifier::reject_recursive_types(F)]
#[verifier::reject_recursive_types(T)]
#[verifier::reject_recursive_types(V)]
#[verifier::reject_recursive_types(W)]
pub struct TaskReceiver<F, T, V, W> {
    end: ReceivingEnd<F, T, V, W>,
    taken: Ghost<Seq<RawTask<F, T, V, W>>>,
}

/// `crossbeam::channel::unbounded`: the two ends of a new channel. Nothing is claimed of the ends
/// themselves; [`connected`] says that they belong together.
#[verifier::external_body]
fn crossbeam_unbounded<F, T, V, W>() -> (r: (TaskSender<F, T, V, W>, ReceivingEnd<F, T, V, W>)) {
    let (sender, receiver) = channel::unbounded();
    (TaskSender { sender }, ReceivingEnd { receiver })
}

/// `crossbeam::channel::Sender::send`: puts the task into the channel without waiting, or gives
/// it back where every receiving end is gone. Which of the two comes rests with the other
/// threads.
///
/// Only a task's own executor is sent to; see [`crossbeam_recv`] for what rests on that.
#[verifier::external_body]
fn crossbeam_send<F, T: Send + 'static, V, W>(
    to: &TaskSender<F, T, V, W>,
    task: RawTask<F, T, V, W>,
) -> (r: Result<(), RawTask<F, T, V, W>>)
    requires
        task.task().executor() == *to,
    ensures
        r is Err ==> r->Err_0 == task,
{
    match to.sender.send(task) {
        Ok(()) => Ok(()),
        Err(error) => Err(error.0),
    }
}

/// `crossbeam::channel::Receiver::recv`: waits for a task and takes it out of the channel, or
/// returns `None` where the channel is empty and every sending end is gone. Which task comes, and
/// when, rests with the other threads.
///
/// A task that comes out was put in by a send on the same channel. [`crossbeam_send`] is the only
/// way in, and it takes a task only on the task's own executor; so the task was handed to that
/// executor, and that executor feeds the channel the task came out of. The receiver's record, which
/// is not there at run time, gains the task that came.
#[verifier::external_body]
pub(crate) fn crossbeam_recv<F, T: Send + 'static, V: Send + 'static, W>(
    from: &mut TaskReceiver<F, T, V, W>,
) -> (r: Option<RawTask<F, T, V, W>>)
    ensures
        final(from).end() == old(from).end(),
        r is None ==> final(from).taken() == old(from).taken(),
        r is Some ==> final(from).taken() == old(from).taken().push(r->0),
        r is Some ==> connected(r->0.task().executor(), old(from).end()),
        r is Some ==> handed_over(r->0.task().executor(), r->0),
{
    match from.end.receiver.recv() {
        Ok(task) => Some(task),
        Err(_) => None,
    }
}

impl<F, T, V, W> Clone for TaskSender<F, T, V, W> {
    /// `crossbeam::channel::Sender::clone`: another sending end of the same channel.
    #[verifier::external_body]
    fn clone(&self) -> (r: Self)
        ensures
            r == *self,
    {
        TaskSender { sender: self.sender.clone() }
    }
}

/// Another receiving end may be on another thread, and wakers go there with it.
impl<F, T, V, W: Send + 'static> Clone for ReceivingEnd<F, T, V, W> {
    /// `crossbeam::channel::Receiver::clone`: another receiving end of the same channel.
    #[verifier::external_body]
    fn clone(&self) -> (r: Self)
        ensures
            r == *self,
    {
        ReceivingEnd { receiver: self.receiver.clone() }
    }
}

/// The two ends are a pair that [`crossbeam_unbounded`] can make, so that what is sent to the one
/// comes out of the other. Nothing but making them together, or receiving from the one a task that
/// is polled from the queue behind the other, lets it be proved.
pub closed spec fn connected<F, T, V, W>(
    sender: TaskSender<F, T, V, W>,
    receiver: ReceivingEnd<F, T, V, W>,
) -> bool {
    call_ensures(crossbeam_unbounded::<F, T, V, W>, (), (sender, receiver))
}

/// There is an outcome that [`crossbeam_send`] can have for `task` on `sender`: it took the task
/// or, with nobody left to receive it, gave it back. Nothing but handing the task over, or
/// receiving it from the other end, lets it be proved.
pub closed spec fn handed_over<F, T: Send + 'static, V, W>(
    sender: TaskSender<F, T, V, W>,
    task: RawTask<F, T, V, W>,
) -> bool {
    exists|r: Result<(), RawTask<F, T, V, W>>| #[trigger]
        call_ensures(crossbeam_send::<F, T, V, W>, (&sender, task), r)
}

/// `received` is what [`crossbeam_recv`] on `receiver` can come to. Nothing but such a receive lets
/// it be proved.
pub open(crate) spec fn gave_out<F, T: Send + 'static, V: Send + 'static, W>(
    receiver: ReceivingEnd<F, T, V, W>,
    received: Option<RawTask<F, T, V, W>>,
) -> bool {
    exists|from: &mut TaskReceiver<F, T, V, W>|
        from.end() == receiver && #[trigger] call_ensures(
            crossbeam_recv::<F, T, V, W>,
            (from,),
            received,
        )
}

/// A new, empty run queue.
pub fn unbounded<F, T, V, W>() -> (r: (TaskSender<F, T, V, W>, ReceivingEnd<F, T, V, W>))
    ensures
        connected(r.0, r.1),
{
    crossbeam_unbounded()
}

/// What is queued goes to another thread, so the output has to be fit for that.
impl<F, T: Send + 'static, V, W> TaskSender<F, T, V, W> {
    /// Queues a task of this queue. A task that comes back, because nobody is left to receive
    /// it, is given up: its reference is released.
    pub(crate) fn send(&self, task: RawTask<F, T, V, W>)
        requires
            task.task().executor() == *self,
        ensures
            handed_over(*self, task),
    {
        let _ = crossbeam_send(self, task);
    }
}

impl<F, T, V, W> TaskReceiver<F, T, V, W> {
    /// The end of the run queue that tasks are taken out of.
    pub closed spec fn end(self) -> ReceivingEnd<F, T, V, W> {
        self.end
    }

    /// The tasks taken so far, in the order in which they came.
    pub closed spec fn taken(self) -> Seq<RawTask<F, T, V, W>> {
        self.taken@
    }

    /// Somebody who has taken nothing out of the queue yet.
    pub fn new(end: ReceivingEnd<F, T, V, W>) -> (r: TaskReceiver<F, T, V, W>)
        ensures
            r.end() == end,
            r.taken() == Seq::<RawTask<F, T, V, W>>::empty(),
    {
        TaskReceiver { end, taken: Ghost(Seq::empty()) }
    }
}

} // verus!
