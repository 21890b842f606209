//! What holds of tasks and executors as a whole.
use crate::channel::{connected, handed_over, TaskReceiver, TaskSender};
use crate::join_handle::JoinHandle;
use crate::raw_task::{Header, RawTask};
use crate::runtime::{run_step, MiniTokio, Run, RunAction, RunStep, Worker};
use crate::sync::{guards, made_round};
use crate::task::{Poisoned, ReadError, Task};
use crate::task_cell::TaskCell;
use crate::task_future::{joined, JoinResult, TaskFuture};
use crate::task_state::{Poll, PollReport, TaskState};
use std::sync::Arc;
use vstd::prelude::*;

verus! {

/// One thing that is done to a task. Where that polls the task's future, `future` is what the poll
/// makes of the future and `polled` is the answer; otherwise neither counts.
pub enum Event<F, T, W> {
    /// A worker polls the task.
    Poll { future: F, polled: Poll<T> },
    /// Somebody tries to read the task's output, to be notified through `waker`.
    Read { future: F, polled: Poll<T>, waker: W },
}

impl<F, T, W> Event<F, T, W> {
    /// The answer of the future, where it is polled.
    pub open spec fn polled(self) -> Poll<T> {
        match self {
            Event::Poll { future, polled } => polled,
            Event::Read { future, polled, waker } => polled,
        }
    }

    /// What the event makes of the future, where it is polled.
    pub open spec fn future(self) -> F {
        match self {
            Event::Poll { future, polled } => future,
            Event::Read { future, polled, waker } => future,
        }
    }

    /// What the event leaves of the task.
    pub open spec fn after(self, task: TaskFuture<F, T, W>) -> TaskFuture<F, T, W> {
        match self {
            Event::Poll { future, polled } => task.after_poll(future, polled),
            Event::Read { future, polled, waker } => task.after_read(future, polled, waker),
        }
    }

    /// What the event hands to a reader, if anything.
    pub open spec fn output(self, task: TaskFuture<F, T, W>) -> Option<T> {
        match self {
            Event::Poll { future, polled } => None,
            Event::Read { future, polled, waker } => match task.state.read_value(polled) {
                Poll::Ready(value) => Some(value),
                Poll::Pending => None,
            },
        }
    }

    /// The waker that has to be called after the event, if any.
    pub open spec fn woken(self, task: TaskFuture<F, T, W>) -> Option<W> {
        match self {
            Event::Poll { future, polled } => task.woken_by_poll(polled),
            Event::Read { future, polled, waker } => None,
        }
    }
}

/// A task that has yet to run `future`, and that nobody awaits.
pub open spec fn fresh<F, T, W>(future: F) -> TaskFuture<F, T, W> {
    TaskFuture { state: TaskState::Pending(Box::new(future)), joiner: None }
}

/// What `events` leave of `task`.
pub open spec fn after_all<F, T, W>(
    task: TaskFuture<F, T, W>,
    events: Seq<Event<F, T, W>>,
) -> TaskFuture<F, T, W>
    decreases events.len(),
{
    if events.len() == 0 {
        task
    } else {
        events.last().after(after_all(task, events.drop_last()))
    }
}

/// The answers that the future gives in the course of `events`.
pub open spec fn answers<F, T, W>(
    task: TaskFuture<F, T, W>,
    events: Seq<Event<F, T, W>>,
) -> Seq<Poll<T>>
    decreases events.len(),
{
    if events.len() == 0 {
        Seq::empty()
    } else {
        let before = answers(task, events.drop_last());
        if after_all(task, events.drop_last()).state is Pending {
            before.push(events.last().polled())
        } else {
            before
        }
    }
}

/// The outputs that are handed to readers in the course of `events`.
pub open spec fn outputs<F, T, W>(
    task: TaskFuture<F, T, W>,
    events: Seq<Event<F, T, W>>,
) -> Seq<T>
    decreases events.len(),
{
    if events.len() == 0 {
        Seq::empty()
    } else {
        let before = outputs(task, events.drop_last());
        match events.last().output(after_all(task, events.drop_last())) {
            Some(value) => before.push(value),
            None => before,
        }
    }
}

/// The wakers that are called in the course of `events`.
pub open spec fn wakeups<F, T, W>(
    task: TaskFuture<F, T, W>,
    events: Seq<Event<F, T, W>>,
) -> Seq<W>
    decreases events.len(),
{
    if events.len() == 0 {
        Seq::empty()
    } else {
        let before = wakeups(task, events.drop_last());
        match events.last().woken(after_all(task, events.drop_last())) {
            Some(waker) => before.push(waker),
            None => before,
        }
    }
}

/// The waker of whoever was the last to ask for the output in the course of `events`, if anybody
/// was.
pub open spec fn last_reader<F, T, W>(events: Seq<Event<F, T, W>>) -> Option<W>
    decreases events.len(),
{
    if events.len() == 0 {
        None
    } else {
        match events.last() {
            Event::Read { future, polled, waker } => Some(waker),
            Event::Poll { future, polled } => last_reader(events.drop_last()),
        }
    }
}

/// Nobody reads the output of the task after it has been handed out.
pub open spec fn reads_in_time<F, T, W>(
    task: TaskFuture<F, T, W>,
    events: Seq<Event<F, T, W>>,
) -> bool {
    forall|i: int|
        0 <= i < events.len() && #[trigger] events[i] is Read ==> !(after_all(
            task,
            events.take(i),
        ).state is Consumed)
}

/// A poll by a worker is one event in the life of a task: what [`TaskFuture::poll`] leaves, and
/// the waker it gives back, are those of an [`Event::Poll`].
pub proof fn law_poll_is_an_event<F, T, W, P: FnOnce(&mut F) -> Poll<T>>(poll_future: P)
    ensures
        forall|task: &mut TaskFuture<F, T, W>, r: (PollReport, Option<W>)| #[trigger]
            call_ensures(TaskFuture::<F, T, W>::poll::<P>, (task, poll_future), r) ==> exists|
                event: Event<F, T, W>,
            | #[trigger]
                event.after(*task) == *final(task) && event is Poll && event.woken(*task) == r.1,
{
    assert forall|task: &mut TaskFuture<F, T, W>, r: (PollReport, Option<W>)| #[trigger]
        call_ensures(TaskFuture::<F, T, W>::poll::<P>, (task, poll_future), r) implies exists|
        event: Event<F, T, W>,
    | #[trigger]
        event.after(*task) == *final(task) && event is Poll && event.woken(*task) == r.1 by {
        if task.state is Pending {
            let (fut, polled) = choose|fut: &mut F, polled: Poll<T>|
                *fut == *task.state->Pending_0 && #[trigger] poll_future.ensures((fut,), polled)
                    && *final(task) == task.after_poll(*final(fut), polled) && r.1
                    == task.woken_by_poll(polled);
            let event: Event<F, T, W> = Event::Poll { future: *final(fut), polled };
            assert(event.after(*task) == *final(task));
        } else {
            let event: Event<F, T, W> = Event::Poll { future: arbitrary(), polled: Poll::Pending };
            assert(event.after(*task) == *final(task));
        }
    }
}

/// An attempt to read the output is one event in the life of a task: what
/// [`TaskFuture::try_read_output`] leaves, and what the reader gets, are those of an
/// [`Event::Read`] with the reader's waker.
pub proof fn law_read_is_an_event<F, T, W, P: FnOnce(&mut F) -> Poll<T>>(poll_future: P, waker: W)
    ensures
        forall|task: &mut TaskFuture<F, T, W>, dst: &mut Poll<JoinResult<T>>| #[trigger]
            call_ensures(
                TaskFuture::<F, T, W>::try_read_output::<P>,
                (task, dst, poll_future, waker),
                (),
            ) && !(task.state is Consumed) ==> exists|event: Event<F, T, W>| #[trigger]
                event.after(*task) == *final(task) && event is Read && event->waker == waker
                    && *final(dst) == joined(task.state.read_value(event.polled())),
{
    assert forall|task: &mut TaskFuture<F, T, W>, dst: &mut Poll<JoinResult<T>>| #[trigger]
        call_ensures(
            TaskFuture::<F, T, W>::try_read_output::<P>,
            (task, dst, poll_future, waker),
            (),
        ) && !(task.state is Consumed) implies exists|event: Event<F, T, W>| #[trigger]
        event.after(*task) == *final(task) && event is Read && event->waker == waker && *final(dst)
            == joined(task.state.read_value(event.polled())) by {
        if task.state is Pending {
            let (fut, polled) = choose|fut: &mut F, polled: Poll<T>|
                *fut == *task.state->Pending_0 && #[trigger] poll_future.ensures((fut,), polled)
                    && *final(task) == task.after_read(*final(fut), polled, waker) && *final(dst)
                    == joined(task.state.read_value(polled));
            let event: Event<F, T, W> = Event::Read { future: *final(fut), polled, waker };
            assert(event.after(*task) == *final(task));
        } else {
            let event: Event<F, T, W> = Event::Read {
                future: arbitrary(),
                polled: Poll::Pending,
                waker,
            };
            assert(event.after(*task) == *final(task));
        }
    }
}

/// Polling a shared task, too, is one event, which happens to what the task's lock holds.
pub proof fn law_task_poll_is_an_event<
    F,
    T,
    V,
    W,
    P: FnOnce(&mut F, Arc<Task<F, T, V, W>>) -> Poll<T>,
>(task: Arc<Task<F, T, V, W>>, poll_future: P, r: Result<(PollReport, Option<W>), Poisoned>)
    requires
        call_ensures(Task::<F, T, V, W>::poll::<P>, (task, poll_future), r),
        r is Ok,
    ensures
        exists|content: &mut TaskCell<F, T, W>, event: Event<F, T, W>| #[trigger]
            guards(task.state(), content) && #[trigger] event.after(content@) == final(content)@
                && event is Poll && event.woken(content@) == r->Ok_0.1,
{
    let content = choose|content: &mut TaskCell<F, T, W>| #[trigger]
        guards(task.state(), content) && r->Ok_0.0 == content@.state.poll_report() && (
        content@.state is Pending ==> exists|fut: &mut F, polled: Poll<T>|
            *fut == *content@.state->Pending_0 && #[trigger] poll_future.ensures(
                (fut, task),
                polled,
            ) && final(content)@ == content@.after_poll(*final(fut), polled) && r->Ok_0.1
                == content@.woken_by_poll(polled)) && (!(content@.state is Pending)
            ==> final(content)@ == content@ && r->Ok_0.1 is None);
    if content@.state is Pending {
        let (fut, polled) = choose|fut: &mut F, polled: Poll<T>|
            *fut == *content@.state->Pending_0 && #[trigger] poll_future.ensures(
                (fut, task),
                polled,
            ) && final(content)@ == content@.after_poll(*final(fut), polled) && r->Ok_0.1
                == content@.woken_by_poll(polled);
        let event: Event<F, T, W> = Event::Poll { future: *final(fut), polled };
        assert(event.after(content@) == final(content)@);
    } else {
        let event: Event<F, T, W> = Event::Poll { future: arbitrary(), polled: Poll::Pending };
        assert(event.after(content@) == final(content)@);
    }
}

/// Awaiting a shared task, too, is one event, which happens to what the task's lock holds.
pub proof fn law_task_read_is_an_event<F, T, V, W, P: FnOnce(&mut F) -> Poll<T>>(
    task: Arc<Task<F, T, V, W>>,
    poll_future: P,
    waker: W,
)
    ensures
        forall|dst: &mut Poll<JoinResult<T>>| #[trigger]
            call_ensures(
                Task::<F, T, V, W>::try_read_output::<P>,
                (&task, dst, poll_future, waker),
                Ok(()),
            ) ==> exists|content: &mut TaskCell<F, T, W>, event: Event<F, T, W>| #[trigger]
                guards(task.state(), content) && #[trigger] event.after(content@) == final(content)@
                    && event is Read && event->waker == waker && *final(dst) == joined(
                    content@.state.read_value(event.polled()),
                ),
{
    assert forall|dst: &mut Poll<JoinResult<T>>| #[trigger]
        call_ensures(
            Task::<F, T, V, W>::try_read_output::<P>,
            (&task, dst, poll_future, waker),
            Ok(()),
        ) implies exists|content: &mut TaskCell<F, T, W>, event: Event<F, T, W>| #[trigger]
        guards(task.state(), content) && #[trigger] event.after(content@) == final(content)@
            && event is Read && event->waker == waker && *final(dst) == joined(
            content@.state.read_value(event.polled()),
        ) by {
        let content = choose|content: &mut TaskCell<F, T, W>| #[trigger]
            guards(task.state(), content) && !(content@.state is Consumed) && (
            content@.state is Pending ==> exists|fut: &mut F, polled: Poll<T>|
                *fut == *content@.state->Pending_0 && #[trigger] poll_future.ensures((fut,), polled)
                    && final(content)@ == content@.after_read(*final(fut), polled, waker)
                    && *final(dst) == joined(content@.state.read_value(polled))) && (
            content@.state is Completed ==> final(content)@.state is Consumed
                && final(content)@.joiner is None && *final(dst) == Poll::Ready(
                JoinResult::Ok(content@.state->Completed_0),
            ));
        if content@.state is Pending {
            let (fut, polled) = choose|fut: &mut F, polled: Poll<T>|
                *fut == *content@.state->Pending_0 && #[trigger] poll_future.ensures((fut,), polled)
                    && final(content)@ == content@.after_read(*final(fut), polled, waker)
                    && *final(dst) == joined(content@.state.read_value(polled));
            let event: Event<F, T, W> = Event::Read { future: *final(fut), polled, waker };
            assert(event.after(content@) == final(content)@);
        } else {
            let event: Event<F, T, W> = Event::Read {
                future: arbitrary(),
                polled: Poll::Pending,
                waker,
            };
            assert(event.after(content@) == final(content)@);
        }
    }
}

/// A future is never polled again once it has finished: of the answers it gives in the whole life
/// of its task, every one but the last is `Poll::Pending`. And what the task holds tells the rest.
/// As long as no answer is ready it holds the future as the last poll left it and the waker of
/// whoever asked for the output last, and nobody is woken. When a worker gets the ready answer,
/// that waker is called, and the task holds the output until a reader gets it. After that it holds
/// nothing.
pub proof fn law_life_of_a_task<F, T, W>(future: F, events: Seq<Event<F, T, W>>)
    requires
        reads_in_time(fresh(future), events),
    ensures
        ({
            let start = fresh::<F, T, W>(future);
            let given = answers(start, events);
            let handed_out = outputs(start, events);
            let called = wakeups(start, events);
            let task = after_all(start, events);
            &&& forall|i: int| 0 <= i < given.len() - 1 ==> #[trigger] given[i] is Pending
            &&& match task.state {
                TaskState::Pending(left) => {
                    &&& *left == if events.len() == 0 {
                        future
                    } else {
                        events.last().future()
                    }
                    &&& given.len() == events.len()
                    &&& given.len() > 0 ==> given.last() is Pending
                    &&& handed_out.len() == 0
                    &&& task.joiner == last_reader(events)
                    &&& called.len() == 0
                },
                TaskState::Completed(value) => {
                    &&& given.len() > 0
                    &&& given.last() == Poll::Ready(value)
                    &&& handed_out.len() == 0
                    &&& task.joiner is None
                    &&& match last_reader(events) {
                        Some(waker) => called == seq![waker],
                        None => called.len() == 0,
                    }
                },
                TaskState::Consumed => {
                    &&& given.len() > 0
                    &&& handed_out.len() == 1
                    &&& given.last() == Poll::Ready(handed_out[0])
                    &&& task.joiner is None
                    &&& called.len() <= 1
                },
            }
        }),
    decreases events.len(),
{
    let start = fresh::<F, T, W>(future);
    if events.len() > 0 {
        let earlier = events.drop_last();
        assert forall|i: int| 0 <= i < earlier.len() && #[trigger] earlier[i] is Read implies !(
        after_all(start, earlier.take(i)).state is Consumed) by {
            assert(events[i] is Read);
            assert(earlier.take(i) =~= events.take(i));
        }
        law_life_of_a_task(future, earlier);
        assert(earlier =~= events.take(events.len() - 1));
        assert(events[events.len() - 1] is Read ==> !(after_all(start, earlier).state is Consumed));
    }
}

/// Whoever awaits a task is notified when it completes: after a read that gave nothing and any
/// polls by workers, the poll that completes the task gives back the waker of that reader, and no
/// poll before it gives back any.
pub proof fn law_joiner_is_woken<F, T, W>(
    task: TaskFuture<F, T, W>,
    read: Event<F, T, W>,
    polls: Seq<Event<F, T, W>>,
)
    requires
        task.state is Pending,
        read is Read,
        read.polled() is Pending,
        polls.len() > 0,
        forall|i: int| 0 <= i < polls.len() ==> #[trigger] polls[i] is Poll,
        after_all(read.after(task), polls.drop_last()).state is Pending,
        polls.last().polled() is Ready,
    ensures
        polls.last().woken(after_all(read.after(task), polls.drop_last())) == Some(read->waker),
        wakeups(read.after(task), polls) == seq![read->waker],
        after_all(read.after(task), polls).state is Completed,
{
    let awaited = read.after(task);
    lemma_pending_polls_wake_nobody(awaited, polls.drop_last());
    assert(polls[polls.len() - 1] is Poll);
    assert(wakeups(awaited, polls.drop_last()) =~= Seq::empty());
}

/// The same over the calls themselves: a [`TaskFuture::try_read_output`] that gives
/// `Poll::Pending`, followed by a [`TaskFuture::poll`] that completes the task, gives back the
/// reader's waker.
pub proof fn law_completing_poll_gives_back_the_waker<
    F,
    T,
    W,
    P: FnOnce(&mut F) -> Poll<T>,
    Q: FnOnce(&mut F) -> Poll<T>,
>(read_future: P, waker: W, poll_future: Q, r: (PollReport, Option<W>))
    ensures
        forall|
            read: &mut TaskFuture<F, T, W>,
            dst: &mut Poll<JoinResult<T>>,
            polled: &mut TaskFuture<F, T, W>,
        |
            !(read.state is Consumed) && #[trigger] call_ensures(
                TaskFuture::<F, T, W>::try_read_output::<P>,
                (read, dst, read_future, waker),
                (),
            ) && *final(dst) is Pending && *polled == *final(read) && #[trigger] call_ensures(
                TaskFuture::<F, T, W>::poll::<Q>,
                (polled, poll_future),
                r,
            ) && final(polled).state is Completed ==> r.1 == Some(waker),
{
}

/// Polls that leave the task pending keep its joiner and wake nobody.
proof fn lemma_pending_polls_wake_nobody<F, T, W>(
    task: TaskFuture<F, T, W>,
    polls: Seq<Event<F, T, W>>,
)
    requires
        forall|i: int| 0 <= i < polls.len() ==> #[trigger] polls[i] is Poll,
        after_all(task, polls).state is Pending,
    ensures
        after_all(task, polls).joiner == task.joiner,
        wakeups(task, polls).len() == 0,
    decreases polls.len(),
{
    if polls.len() > 0 {
        let earlier = polls.drop_last();
        assert forall|i: int| 0 <= i < earlier.len() implies #[trigger] earlier[i] is Poll by {
            assert(polls[i] is Poll);
        }
        assert(polls[polls.len() - 1] is Poll);
        lemma_pending_polls_wake_nobody(task, earlier);
    }
}

/// A task's output is handed out at most once, and what is handed out is what the future finished
/// with.
pub proof fn law_output_is_handed_out_once<F, T, W>(future: F, events: Seq<Event<F, T, W>>)
    requires
        reads_in_time(fresh(future), events),
    ensures
        ({
            let given = answers(fresh(future), events);
            let handed_out = outputs(fresh(future), events);
            &&& handed_out.len() <= 1
            &&& forall|value: T|
                handed_out.contains(value) ==> given.len() > 0 && given.last() == Poll::Ready(value)
        }),
{
    law_life_of_a_task(future, events);
}

/// No output is lost: once the future has finished, the next read hands its value out, however
/// many polls come in between.
pub proof fn law_output_is_not_lost<F, T, W>(
    future: F,
    events: Seq<Event<F, T, W>>,
    value: T,
    read: Event<F, T, W>,
)
    requires
        reads_in_time(fresh(future), events),
        outputs(fresh(future), events).len() == 0,
        answers(fresh(future), events).contains(Poll::Ready(value)),
        read is Read,
    ensures
        outputs(fresh(future), events.push(read)) == seq![value],
{
    law_life_of_a_task(future, events);
    assert(events.push(read).drop_last() =~= events);
    assert(outputs(fresh(future), events) =~= Seq::empty());
}

/// It makes no difference to a reader who hears of the future's end: an output that a worker has
/// left is the same as one that the reader gets from the future itself.
pub proof fn law_worker_and_reader_agree<F, T>(
    state: TaskState<F, T>,
    future: F,
    value: T,
    unused: Poll<T>,
)
    requires
        state is Pending,
    ensures
        state.after_poll(future, Poll::Ready(value)).read_value(unused) == state.read_value(
            Poll::Ready(value),
        ),
        state.after_poll(future, Poll::Ready(value)).after_read(future, unused)
            == state.after_read(future, Poll::Ready(value)),
{
}

/// Spurious wakeups are harmless: polls of a task that is no longer pending leave it as it is, do
/// not reach its future and wake nobody.
pub proof fn law_spurious_polls_change_nothing<F, T, W>(
    task: TaskFuture<F, T, W>,
    polls: Seq<Event<F, T, W>>,
)
    requires
        !(task.state is Pending),
        forall|i: int| 0 <= i < polls.len() ==> #[trigger] polls[i] is Poll,
    ensures
        after_all(task, polls) == task,
        answers(task, polls).len() == 0,
        wakeups(task, polls).len() == 0,
    decreases polls.len(),
{
    if polls.len() > 0 {
        let earlier = polls.drop_last();
        assert forall|i: int| 0 <= i < earlier.len() implies #[trigger] earlier[i] is Poll by {
            assert(polls[i] is Poll);
        }
        law_spurious_polls_change_nothing(task, earlier);
        assert(polls[polls.len() - 1] is Poll);
    }
}

/// A poll never throws an output away: where [`Task::poll`] finds the task completed, no waker
/// comes back, and whoever reads next what the poll left gets the output that was there before.
pub proof fn law_poll_keeps_the_output<
    F,
    T,
    V,
    W,
    P: FnOnce(&mut F, Arc<Task<F, T, V, W>>) -> Poll<T>,
    Q: FnOnce(&mut F) -> Poll<T>,
>(
    task: Arc<Task<F, T, V, W>>,
    poll_future: P,
    r: (PollReport, Option<W>),
    read_future: Q,
    waker: W,
)
    requires
        call_ensures(Task::<F, T, V, W>::poll::<P>, (task, poll_future), Ok(r)),
        r.0 is AlreadyCompleted,
    ensures
        r.1 is None,
        exists|content: &mut TaskCell<F, T, W>| #[trigger]
            guards(task.state(), content) && content@.state is Completed && final(content)@
                == content@ && forall|
                cell: &mut TaskCell<F, T, W>,
                read: Option<Poll<JoinResult<T>>>,
            |
                cell@ == final(content)@ && #[trigger] call_ensures(
                    TaskCell::<F, T, W>::read::<Q>,
                    (cell, read_future, waker),
                    read,
                ) ==> read == Some(Poll::Ready(JoinResult::Ok(content@.state->Completed_0))),
{
    let content = choose|content: &mut TaskCell<F, T, W>| #[trigger]
        guards(task.state(), content) && r.0 == content@.state.poll_report() && (
        content@.state is Pending ==> exists|fut: &mut F, polled: Poll<T>|
            *fut == *content@.state->Pending_0 && #[trigger] poll_future.ensures(
                (fut, task),
                polled,
            ) && final(content)@ == content@.after_poll(*final(fut), polled) && r.1
                == content@.woken_by_poll(polled)) && (!(content@.state is Pending)
            ==> final(content)@ == content@ && r.1 is None);
    assert(guards(task.state(), content));
}

/// A poll that comes too late does nothing: where [`RawTask::poll`] finds that the task is no
/// longer pending, what the task holds stays as it is and there is nobody to be woken. A task that
/// gives such an answer once goes on giving it.
pub proof fn law_late_raw_poll_is_silent<
    F,
    T,
    V,
    W,
    P: FnOnce(&mut F, Arc<Task<F, T, V, W>>) -> Poll<T>,
    A,
    Q: FnOnce(&mut F, A) -> Poll<T>,
>(
    raw: RawTask<F, T, V, W>,
    poll_future: P,
    r: (PollReport, Option<W>),
    again_future: Q,
    along: A,
)
    requires
        call_ensures(RawTask::<F, T, V, W>::poll::<P>, (raw, poll_future), Ok(r)),
        !(r.0 is Polled),
    ensures
        r.1 is None,
        exists|content: &mut TaskCell<F, T, W>| #[trigger]
            guards(raw.task().state(), content) && !(content@.state is Pending) && final(content)@
                == content@ && forall|cell: &mut TaskCell<F, T, W>, again: (PollReport, Option<W>)|
                cell@ == final(content)@ && #[trigger] call_ensures(
                    TaskCell::<F, T, W>::poll::<A, Q>,
                    (cell, again_future, along),
                    again,
                ) ==> again == r && final(cell)@ == cell@,
{
    let content = choose|content: &mut TaskCell<F, T, W>| #[trigger]
        guards(raw.task().state(), content) && r.0 == content@.state.poll_report() && (
        content@.state is Pending ==> exists|fut: &mut F, polled: Poll<T>|
            *fut == *content@.state->Pending_0 && #[trigger] poll_future.ensures(
                (fut, raw.task()),
                polled,
            ) && final(content)@ == content@.after_poll(*final(fut), polled) && r.1
                == content@.woken_by_poll(polled)) && (!(content@.state is Pending)
            ==> final(content)@ == content@ && r.1 is None);
    assert(guards(raw.task().state(), content));
}

/// An output is read back, once: when a poll completes a task, the value is the answer that the
/// future gave to that very poll, the read that comes next gets that value, and a read after that
/// gets nothing.
pub proof fn law_output_is_read_back<
    F,
    T,
    W,
    A,
    P: FnOnce(&mut F, A) -> Poll<T>,
    Q: FnOnce(&mut F) -> Poll<T>,
>(
    poll_future: P,
    along: A,
    outcome: (PollReport, Option<W>),
    read_future: Q,
    waker: W,
    got: Option<Poll<JoinResult<T>>>,
    late_future: Q,
    late_waker: W,
    late: Option<Poll<JoinResult<T>>>,
)
    ensures
        forall|
            polled: &mut TaskCell<F, T, W>,
            read: &mut TaskCell<F, T, W>,
            again: &mut TaskCell<F, T, W>,
        |
            polled@.state is Pending && #[trigger] call_ensures(
                TaskCell::<F, T, W>::poll::<A, P>,
                (polled, poll_future, along),
                outcome,
            ) && final(polled)@.state is Completed && *read == *final(polled)
                && #[trigger] call_ensures(
                TaskCell::<F, T, W>::read::<Q>,
                (read, read_future, waker),
                got,
            ) && *again == *final(read) && #[trigger] call_ensures(
                TaskCell::<F, T, W>::read::<Q>,
                (again, late_future, late_waker),
                late,
            ) ==> late is None && exists|fut: &mut F, value: T|
                *fut == *polled@.state->Pending_0 && #[trigger] poll_future.ensures(
                    (fut, along),
                    Poll::Ready(value),
                ) && got == Some(Poll::Ready(JoinResult::Ok(value))),
{
    assert forall|
        polled: &mut TaskCell<F, T, W>,
        read: &mut TaskCell<F, T, W>,
        again: &mut TaskCell<F, T, W>,
    |
        polled@.state is Pending && #[trigger] call_ensures(
            TaskCell::<F, T, W>::poll::<A, P>,
            (polled, poll_future, along),
            outcome,
        ) && final(polled)@.state is Completed && *read == *final(polled)
            && #[trigger] call_ensures(
            TaskCell::<F, T, W>::read::<Q>,
            (read, read_future, waker),
            got,
        ) && *again == *final(read) && #[trigger] call_ensures(
            TaskCell::<F, T, W>::read::<Q>,
            (again, late_future, late_waker),
            late,
        ) implies late is None && exists|fut: &mut F, value: T|
        *fut == *polled@.state->Pending_0 && #[trigger] poll_future.ensures(
            (fut, along),
            Poll::Ready(value),
        ) && got == Some(Poll::Ready(JoinResult::Ok(value))) by {
        let (fut, answer) = choose|fut: &mut F, answer: Poll<T>|
            *fut == *polled@.state->Pending_0 && #[trigger] poll_future.ensures(
                (fut, along),
                answer,
            ) && final(polled)@ == polled@.after_poll(*final(fut), answer);
        let value = answer->Ready_0;
        assert(answer == Poll::Ready(value));
        assert(poll_future.ensures((fut, along), Poll::Ready(value)));
    }
}

/// A reader is turned away only when the output is gone to another: where
/// [`Task::try_read_output`] answers that the output was consumed, whatever events led from a new
/// task to what the lock held have handed one output out, the one that the future finished with.
/// And the answer is final, since being turned away changes nothing.
pub proof fn law_refused_readers_come_second<F, T, V, W, P: FnOnce(&mut F) -> Poll<T>>(
    task: Arc<Task<F, T, V, W>>,
    poll_future: P,
    waker: W,
)
    ensures
        forall|dst: &mut Poll<JoinResult<T>>| #[trigger]
            call_ensures(
                Task::<F, T, V, W>::try_read_output::<P>,
                (&task, dst, poll_future, waker),
                Err(ReadError::Consumed),
            ) ==> *final(dst) == *dst && exists|content: &mut TaskCell<F, T, W>| #[trigger]
                guards(task.state(), content) && final(content)@ == content@ && forall|
                    future: F,
                    events: Seq<Event<F, T, W>>,
                |
                    reads_in_time(fresh(future), events) && content@ == #[trigger] after_all(
                        fresh(future),
                        events,
                    ) ==> outputs(fresh(future), events).len() == 1 && answers(
                        fresh(future),
                        events,
                    ).last() == Poll::Ready(outputs(fresh(future), events)[0]),
{
    assert forall|dst: &mut Poll<JoinResult<T>>| #[trigger]
        call_ensures(
            Task::<F, T, V, W>::try_read_output::<P>,
            (&task, dst, poll_future, waker),
            Err(ReadError::Consumed),
        ) implies *final(dst) == *dst && exists|content: &mut TaskCell<F, T, W>| #[trigger]
        guards(task.state(), content) && final(content)@ == content@ && forall|
            future: F,
            events: Seq<Event<F, T, W>>,
        |
            reads_in_time(fresh(future), events) && content@ == #[trigger] after_all(
                fresh(future),
                events,
            ) ==> outputs(fresh(future), events).len() == 1 && answers(fresh(future), events).last()
                == Poll::Ready(outputs(fresh(future), events)[0]) by {
        let content = choose|content: &mut TaskCell<F, T, W>| #[trigger]
            guards(task.state(), content) && content@.state is Consumed && final(content)@
                == content@;
        assert forall|future: F, events: Seq<Event<F, T, W>>|
            reads_in_time(fresh(future), events) && content@ == #[trigger] after_all(
                fresh(future),
                events,
            ) implies outputs(fresh(future), events).len() == 1 && answers(
            fresh(future),
            events,
        ).last() == Poll::Ready(outputs(fresh(future), events)[0]) by {
            law_life_of_a_task(future, events);
        }
        assert(guards(task.state(), content));
    }
}

/// A worker polls what it takes: over any number of turns, its record grows by one task a turn, and
/// the result of each turn is what that turn's task gave. No task is taken and passed over, and
/// none is polled twice.
pub proof fn law_worker_polls_what_it_takes<
    F,
    T: Send + 'static,
    V: Send + 'static,
    W,
    R,
    D: FnOnce(RawTask<F, T, V, W>) -> R,
>(workers: Seq<Worker<F, T, V, W>>, polls: Seq<D>, results: Seq<Option<R>>)
    requires
        workers.len() == results.len() + 1,
        polls.len() == results.len(),
        forall|i: int|
            0 <= i < results.len() ==> #[trigger] results[i] is Some && exists|
                worker: &mut Worker<F, T, V, W>,
            |
                *worker == workers[i] && *final(worker) == workers[i + 1]
                    && #[trigger] call_ensures(
                    Worker::<F, T, V, W>::work::<R, D>,
                    (worker, polls[i]),
                    results[i],
                ),
    ensures
        workers.last().scheduled() == workers[0].scheduled(),
        workers.last().taken().len() == workers[0].taken().len() + results.len(),
        workers[0].taken() == workers.last().taken().take(workers[0].taken().len() as int),
        forall|i: int|
            #![trigger results[i]]
            0 <= i < results.len() ==> {
                let raw = workers.last().taken()[workers[0].taken().len() + i];
                &&& polls[i].ensures((raw,), results[i]->0)
                &&& connected(raw.task().executor(), workers[0].scheduled())
                &&& handed_over(raw.task().executor(), raw)
            },
{
    lemma_worker_after_turns(workers, polls, results, results.len());
}

/// What [`law_worker_polls_what_it_takes`] says, after the first `turns` turns.
proof fn lemma_worker_after_turns<
    F,
    T: Send + 'static,
    V: Send + 'static,
    W,
    R,
    D: FnOnce(RawTask<F, T, V, W>) -> R,
>(workers: Seq<Worker<F, T, V, W>>, polls: Seq<D>, results: Seq<Option<R>>, turns: nat)
    requires
        workers.len() == results.len() + 1,
        polls.len() == results.len(),
        forall|i: int|
            0 <= i < results.len() ==> #[trigger] results[i] is Some && exists|
                worker: &mut Worker<F, T, V, W>,
            |
                *worker == workers[i] && *final(worker) == workers[i + 1]
                    && #[trigger] call_ensures(
                    Worker::<F, T, V, W>::work::<R, D>,
                    (worker, polls[i]),
                    results[i],
                ),
        turns <= results.len(),
    ensures
        workers[turns as int].scheduled() == workers[0].scheduled(),
        workers[turns as int].taken().len() == workers[0].taken().len() + turns,
        workers[0].taken() == workers[turns as int].taken().take(workers[0].taken().len() as int),
        forall|i: int|
            #![trigger results[i]]
            0 <= i < turns ==> {
                let raw = workers[turns as int].taken()[workers[0].taken().len() + i];
                &&& polls[i].ensures((raw,), results[i]->0)
                &&& connected(raw.task().executor(), workers[0].scheduled())
                &&& handed_over(raw.task().executor(), raw)
            },
    decreases turns,
{
    let start = workers[0].taken();
    let after = workers[turns as int].taken();
    if turns == 0 {
        assert(start =~= after.take(start.len() as int));
    } else {
        let last = turns - 1;
        lemma_worker_after_turns(workers, polls, results, last as nat);
        let before = workers[last].taken();
        let result = results[last];
        assert(after == before.push(after.last()));
        assert(after.take(start.len() as int) =~= before.take(start.len() as int));
        assert forall|i: int| #![trigger results[i]] 0 <= i < turns implies {
            let raw = after[start.len() + i];
            &&& polls[i].ensures((raw,), results[i]->0)
            &&& connected(raw.task().executor(), workers[0].scheduled())
            &&& handed_over(raw.task().executor(), raw)
        } by {
            if i < last {
                assert(after[start.len() + i] == before[start.len() + i]);
            } else {
                assert(after[start.len() + i] == after.last());
            }
        }
    }
}

/// A run leaves the queue to its workers: it begins with the first of them, if it is to have any,
/// and that worker drains the executor's queue and has taken nothing yet.
pub proof fn law_run_begins_with_an_idle_worker<F, T, V, W: Send + 'static>(
    executor: MiniTokio<F, T, V, W>,
    num_threads: usize,
    action: RunAction<F, T, V, W>,
)
    ensures
        forall|run: &mut Run<'_, F, T, V, W>|
            #[trigger] call_ensures(MiniTokio::<F, T, V, W>::run, (&executor, num_threads), *run)
                && #[trigger] call_ensures(
                Run::<'_, F, T, V, W>::next,
                (run,),
                action,
            ) ==> match action {
                RunAction::StartWorker(worker) => num_threads > 0 && worker.scheduled()
                    == executor.scheduled() && worker.taken().len() == 0,
                RunAction::JoinWorker(_) => false,
                RunAction::Finish => num_threads == 0,
            },
{
}

/// A spawned task reaches the workers: it is queued where every worker of the executor receives,
/// and a worker that is made then has taken neither it nor anything else.
pub proof fn law_spawned_task_awaits_a_worker<F, T: Send + 'static, V, W: Send + 'static>(
    executor: MiniTokio<F, T, V, W>,
    future: F,
    header: Header<V>,
    handle: JoinHandle<F, T, V, W>,
    worker: Worker<F, T, V, W>,
)
    requires
        call_ensures(MiniTokio::<F, T, V, W>::spawn, (&executor, future, header), handle),
        call_ensures(MiniTokio::<F, T, V, W>::worker, (&executor,), worker),
    ensures
        handle.task().was_scheduled(),
        connected(handle.task().executor(), worker.scheduled()),
        worker.taken().len() == 0,
        handle.task().spec_header() == header,
        exists|cell: TaskCell<F, T, W>| #[trigger]
            made_round(handle.task().state(), cell) && cell@ == fresh::<F, T, W>(future),
{
}

/// A task that is converted to a raw task and back is the same task, and the raw task reaches its
/// header.
pub proof fn law_raw_round_trip<F: Send + 'static, T, V, W>(
    task: Arc<Task<F, T, V, W>>,
    raw: RawTask<F, T, V, W>,
    back: Arc<Task<F, T, V, W>>,
)
    requires
        call_ensures(Task::<F, T, V, W>::into_raw, (&task,), raw),
        call_ensures(Task::<F, T, V, W>::from_raw, (raw,), back),
    ensures
        back == task,
        raw.task().spec_header() == task.spec_header(),
{
}

/// What comes out of a run queue was put into it: a task that somebody receives was handed to the
/// sending end of the queue it was received from.
pub proof fn law_received_tasks_were_scheduled<
    F,
    T: Send + 'static,
    V: Send + 'static,
    W,
>(raw: RawTask<F, T, V, W>)
    ensures
        forall|receiver: &mut TaskReceiver<F, T, V, W>| #[trigger]
            call_ensures(TaskReceiver::<F, T, V, W>::recv, (receiver,), Some(raw)) ==> exists|
                sender: TaskSender<F, T, V, W>,
            | #[trigger]
                connected(sender, receiver.end()) && handed_over(sender, raw),
{
}

/// A task that is woken goes back to where it came from: scheduling a task that came out of a run
/// queue hands it to that same queue.
pub proof fn law_wakeups_stay_on_the_queue<
    F: Send + 'static,
    T: Send + 'static,
    V: Send + 'static,
    W,
>(raw: RawTask<F, T, V, W>)
    requires
        call_ensures(Task::<F, T, V, W>::schedule, (&raw.task(),), ()),
    ensures
        forall|receiver: &mut TaskReceiver<F, T, V, W>| #[trigger]
            call_ensures(TaskReceiver::<F, T, V, W>::recv, (receiver,), Some(raw)) ==> exists|
                sender: TaskSender<F, T, V, W>,
                again: RawTask<F, T, V, W>,
            |
                connected(sender, receiver.end()) && again.task() == raw.task()
                    && #[trigger] handed_over(sender, again),
{
    assert(raw.task().was_scheduled());
}

/// A run starts all its workers before it waits for any, waits for each of them exactly once, and
/// finishes only after that.
pub proof fn law_run_waits_for_every_worker(num_threads: nat, worker: nat)
    requires
        worker < num_threads,
    ensures
        forall|index: nat| #[trigger]
            run_step(num_threads, index) is Start <==> index < num_threads,
        forall|index: nat| #[trigger]
            run_step(num_threads, index) == RunStep::Join(worker) <==> index == num_threads
                + worker,
        forall|index: nat| #[trigger]
            run_step(num_threads, index) is Finish <==> index >= 2 * num_threads,
{
}

} // verus!
