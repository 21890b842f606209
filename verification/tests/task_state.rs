use mini_tokio::task_future::TaskFuture;
use mini_tokio::task_state::{Poll, PollReport, TaskState};

/// A future that is ready once it has been polled `self.0` times.
#[derive(Debug, PartialEq, Eq)]
struct Countdown(u32);

fn count(future: &mut Countdown) -> Poll<&'static str> {
    future.0 -= 1;
    if future.0 == 0 {
        Poll::Ready("done")
    } else {
        Poll::Pending
    }
}

fn never(_: &mut Countdown) -> Poll<&'static str> {
    panic!("the future must not be polled")
}

#[test]
fn new_task_is_pending() {
    let state: TaskState<Countdown, &str> = TaskState::new(Countdown(3));
    assert_eq!(state, TaskState::Pending(Box::new(Countdown(3))));
    assert!(!state.is_consumed());
}

#[test]
fn poll_keeps_a_pending_future() {
    let mut state = TaskState::new(Countdown(2));
    assert_eq!(state.poll(count), PollReport::Polled);
    assert_eq!(state, TaskState::Pending(Box::new(Countdown(1))));
}

#[test]
fn poll_stores_the_output() {
    let mut state = TaskState::new(Countdown(1));
    assert_eq!(state.poll(count), PollReport::Polled);
    assert_eq!(state, TaskState::Completed("done"));
}

#[test]
fn spurious_poll_of_a_completed_task() {
    let mut state: TaskState<Countdown, &str> = TaskState::Completed("done");
    let report = state.poll(never);
    assert_eq!(report, PollReport::AlreadyCompleted);
    assert_eq!(report.message(), Some("polled a completed task"));
    assert_eq!(state, TaskState::Completed("done"));
}

#[test]
fn spurious_poll_of_a_consumed_task() {
    let mut state: TaskState<Countdown, &str> = TaskState::Consumed;
    let report = state.poll(never);
    assert_eq!(report, PollReport::AlreadyConsumed);
    assert_eq!(report.message(), Some("polled a consumed task"));
    assert_eq!(state, TaskState::Consumed);
}

#[test]
fn a_poll_that_reaches_the_future_logs_nothing() {
    assert_eq!(PollReport::Polled.message(), None);
}

#[test]
fn read_hands_out_what_a_worker_left() {
    let mut state = TaskState::new(Countdown(1));
    state.poll(count);
    let mut dst = Poll::Pending;
    state.try_read_output(&mut dst, never);
    assert_eq!(dst, Poll::Ready("done"));
    assert!(state.is_consumed());
}

#[test]
fn read_polls_a_pending_future() {
    let mut state = TaskState::new(Countdown(2));
    let mut dst = Poll::Ready("stale");
    state.try_read_output(&mut dst, count);
    assert_eq!(dst, Poll::Pending);
    assert_eq!(state, TaskState::Pending(Box::new(Countdown(1))));
    state.try_read_output(&mut dst, count);
    assert_eq!(dst, Poll::Ready("done"));
    assert_eq!(state, TaskState::Consumed);
}

#[test]
fn settle_takes_note_of_an_answer() {
    let mut state: TaskState<Countdown, &str> = TaskState::new(Countdown(5));
    state.settle(Poll::Pending);
    assert_eq!(state, TaskState::Pending(Box::new(Countdown(5))));
    state.settle(Poll::Ready("early"));
    assert_eq!(state, TaskState::Completed("early"));
}

#[test]
fn deliver_hands_an_answer_on() {
    let mut state: TaskState<Countdown, &str> = TaskState::new(Countdown(5));
    assert_eq!(state.deliver(Poll::Pending), Poll::Pending);
    assert_eq!(state, TaskState::Pending(Box::new(Countdown(5))));
    assert_eq!(state.deliver(Poll::Ready("early")), Poll::Ready("early"));
    assert_eq!(state, TaskState::Consumed);
}

#[test]
fn output_is_handed_out_once_whatever_comes_in_between() {
    let mut state = TaskState::new(Countdown(3));
    let mut dst = Poll::Pending;
    state.poll(count);
    state.try_read_output(&mut dst, count);
    assert_eq!(dst, Poll::Pending);
    state.poll(count);
    state.poll(never);
    state.poll(never);
    state.try_read_output(&mut dst, never);
    assert_eq!(dst, Poll::Ready("done"));
    assert_eq!(state.poll(never), PollReport::AlreadyConsumed);
    assert_eq!(state, TaskState::Consumed);
}

#[test]
fn worker_and_reader_agree_on_the_output() {
    let mut by_worker = TaskState::new(Countdown(1));
    let mut by_reader = TaskState::new(Countdown(1));
    let mut from_worker = Poll::Pending;
    let mut from_reader = Poll::Pending;
    by_worker.poll(count);
    by_worker.try_read_output(&mut from_worker, never);
    by_reader.try_read_output(&mut from_reader, count);
    assert_eq!(from_worker, from_reader);
    assert_eq!(by_worker, by_reader);
}

#[test]
fn task_future_gives_join_results() {
    let mut task = TaskFuture::new(Countdown(2));
    let mut dst = Poll::Ready(Ok("stale"));
    task.try_read_output(&mut dst, count, 'a');
    assert!(matches!(dst, Poll::Pending));
    assert_eq!(task.poll(count), (PollReport::Polled, Some('a')));
    assert_eq!(task.state, TaskState::Completed("done"));
    task.try_read_output(&mut dst, never, 'a');
    assert!(matches!(dst, Poll::Ready(Ok("done"))));
    assert_eq!(task.state, TaskState::Consumed);
}

#[test]
fn a_reader_who_gets_nothing_leaves_the_waker() {
    let mut task = TaskFuture::new(Countdown(3));
    let mut dst = Poll::Pending;
    assert_eq!(task.joiner, None);
    task.try_read_output(&mut dst, count, 'a');
    assert_eq!(task.joiner, Some('a'));
    task.try_read_output(&mut dst, count, 'b');
    assert_eq!(task.joiner, Some('b'));
    task.try_read_output(&mut dst, count, 'c');
    assert!(matches!(dst, Poll::Ready(Ok("done"))));
    assert_eq!(task.joiner, None);
}

#[test]
fn the_completing_poll_names_the_joiner() {
    let mut task = TaskFuture::new(Countdown(4));
    let mut dst = Poll::Pending;
    assert_eq!(task.poll(count), (PollReport::Polled, None));
    task.try_read_output(&mut dst, count, 'a');
    assert!(matches!(dst, Poll::Pending));
    assert_eq!(task.poll(count), (PollReport::Polled, None));
    assert_eq!(task.joiner, Some('a'));
    assert_eq!(task.poll(count), (PollReport::Polled, Some('a')));
    assert_eq!(task.joiner, None);
    assert_eq!(task.poll(never), (PollReport::AlreadyCompleted, None));
}

#[test]
fn nobody_is_named_where_nobody_waits() {
    let mut task: TaskFuture<Countdown, &str, char> = TaskFuture::new(Countdown(1));
    assert_eq!(task.poll(count), (PollReport::Polled, None));
    assert_eq!(task.state, TaskState::Completed("done"));
}

#[test]
fn read_answers_for_every_state() {
    let mut task = TaskFuture::new(Countdown(2));
    assert!(matches!(task.read(count, 'a'), Some(Poll::Pending)));
    assert_eq!(task.joiner, Some('a'));
    assert!(matches!(task.read(count, 'b'), Some(Poll::Ready(Ok("done")))));
    assert_eq!(task.joiner, None);
    assert!(task.read(never, 'c').is_none());
    assert_eq!(task.state, TaskState::Consumed);
    assert_eq!(task.joiner, None);
    let mut left = TaskFuture::new(Countdown(1));
    left.poll(count);
    assert!(matches!(left.read(never, 'd'), Some(Poll::Ready(Ok("done")))));
    assert_eq!(left.joiner, None);
}
