use mini_tokio::channel::{unbounded, TaskReceiver};
use mini_tokio::join_handle::JoinHandle;
use mini_tokio::raw_task::{Header, RawTask};
use mini_tokio::runtime::{finished_line, join_error_line, MiniTokio, RunAction};
use mini_tokio::task::{Poisoned, ReadError, Task};
use mini_tokio::task_state::{Poll, PollReport};
use std::sync::atomic::{AtomicUsize, Ordering};
use std::sync::Arc;

/// A future that is ready with its second number once it has been polled as often as its first
/// number says.
struct Countdown(u32, u32);

type Table = &'static str;
type Waker = char;
type Executor = MiniTokio<Countdown, u32, Table, Waker>;
type CountdownTask = Task<Countdown, u32, Table, Waker>;
type Raw = RawTask<Countdown, u32, Table, Waker>;

fn count(future: &mut Countdown) -> Poll<u32> {
    future.0 -= 1;
    if future.0 == 0 {
        Poll::Ready(future.1)
    } else {
        Poll::Pending
    }
}

fn never(_: &mut Countdown) -> Poll<u32> {
    panic!("the future must not be polled")
}

/// Polls the future and, if it is not ready, has its task scheduled again.
fn count_and_wake(future: &mut Countdown, task: Arc<CountdownTask>) -> Poll<u32> {
    let polled = count(future);
    if polled == Poll::Pending {
        task.schedule();
    }
    polled
}

fn poll_raw(raw: Raw) -> Result<(PollReport, Option<Waker>), Poisoned> {
    raw.poll(count_and_wake)
}

#[test]
fn spawned_task_is_polled_and_joined() {
    let executor: Executor = MiniTokio::new();
    let mut handle = executor.spawn(Countdown(1, 7), Header::new("table"));
    let mut worker = executor.worker();
    assert_eq!(worker.work(poll_raw), Some(Ok((PollReport::Polled, None))));
    assert!(matches!(handle.poll(never, 'j'), Ok(Poll::Ready(Ok(7)))));
}

#[test]
fn handle_polls_a_pending_task_itself() {
    let executor: Executor = MiniTokio::default();
    let mut handle = executor.spawn(Countdown(2, 7), Header::new("table"));
    assert!(matches!(handle.poll(count, 'j'), Ok(Poll::Pending)));
    assert!(matches!(handle.poll(count, 'j'), Ok(Poll::Ready(Ok(7)))));
    // The entry that spawning queued is a spurious wakeup by now.
    let report = executor.worker().work(poll_raw);
    assert_eq!(report, Some(Ok((PollReport::AlreadyConsumed, None))));
}

#[test]
fn worker_finds_a_completed_task() {
    let executor: Executor = MiniTokio::new();
    let _handle = executor.spawn(Countdown(1, 7), Header::new("table"));
    let mut worker = executor.worker();
    worker.work(|raw: Raw| {
        let task = raw.as_task().clone();
        assert_eq!(raw.poll(count_and_wake), Ok((PollReport::Polled, None)));
        task.schedule();
    });
    assert_eq!(worker.work(poll_raw), Some(Ok((PollReport::AlreadyCompleted, None))));
}

#[test]
fn output_cannot_be_read_twice() {
    let executor: Executor = MiniTokio::new();
    let mut handle = executor.spawn(Countdown(1, 7), Header::new("table"));
    assert!(matches!(handle.poll(count, 'j'), Ok(Poll::Ready(Ok(7)))));
    assert!(matches!(handle.poll(never, 'j'), Err(ReadError::Consumed)));
    assert!(matches!(handle.poll(never, 'j'), Err(ReadError::Consumed)));
}

#[test]
fn failed_read_leaves_the_destination_alone() {
    let (sender, _receiver) = unbounded();
    let task: Arc<CountdownTask> = Task::new(Countdown(1, 7), Header::new("table"), &sender);
    let mut dst = Poll::Pending;
    assert_eq!(task.try_read_output(&mut dst, count, 'j'), Ok(()));
    assert!(matches!(dst, Poll::Ready(Ok(7))));
    dst = Poll::Ready(Ok(8));
    assert_eq!(task.try_read_output(&mut dst, never, 'j'), Err(ReadError::Consumed));
    assert!(matches!(dst, Poll::Ready(Ok(8))));
}

#[test]
fn panic_in_a_future_poisons_its_task() {
    let executor: Executor = MiniTokio::new();
    let mut handle = executor.spawn(Countdown(1, 7), Header::new("table"));
    let mut worker = executor.worker();
    let outcome = crossbeam::scope(|scope| {
        let thread = scope.spawn(|_| {
            worker.work(|raw: Raw| {
                raw.as_task().schedule();
                raw.poll(|_: &mut Countdown, _: Arc<CountdownTask>| -> Poll<u32> {
                    panic!("the future panics")
                })
            });
        });
        thread.join().is_err()
    });
    assert!(outcome.unwrap());
    assert_eq!(worker.work(poll_raw), Some(Err(Poisoned)));
    assert!(matches!(handle.poll(never, 'j'), Err(ReadError::Poisoned)));
}

#[test]
fn joiner_is_woken_when_a_worker_completes_the_task() {
    let executor: Executor = MiniTokio::new();
    let mut handle = executor.spawn(Countdown(3, 7), Header::new("table"));
    let mut worker = executor.worker();
    assert!(matches!(handle.poll(count, 'a'), Ok(Poll::Pending)));
    assert_eq!(worker.work(poll_raw), Some(Ok((PollReport::Polled, None))));
    assert_eq!(worker.work(poll_raw), Some(Ok((PollReport::Polled, Some('a')))));
    assert!(matches!(handle.poll(never, 'a'), Ok(Poll::Ready(Ok(7)))));
}

#[test]
fn the_latest_joiner_is_woken() {
    let executor: Executor = MiniTokio::new();
    let mut handle = executor.spawn(Countdown(3, 7), Header::new("table"));
    assert!(matches!(handle.poll(count, 'a'), Ok(Poll::Pending)));
    assert!(matches!(handle.poll(count, 'b'), Ok(Poll::Pending)));
    let report = executor.worker().work(poll_raw);
    assert_eq!(report, Some(Ok((PollReport::Polled, Some('b')))));
}

#[test]
fn pending_task_comes_back_when_it_is_woken() {
    let executor: Executor = MiniTokio::new();
    let mut handle = executor.spawn(Countdown(3, 7), Header::new("table"));
    let mut worker = executor.worker();
    for _ in 0..3 {
        assert_eq!(worker.work(poll_raw), Some(Ok((PollReport::Polled, None))));
    }
    assert!(matches!(handle.poll(never, 'j'), Ok(Poll::Ready(Ok(7)))));
}

#[test]
fn woken_task_goes_to_its_own_executor() {
    let outer: Executor = MiniTokio::new();
    let inner: Executor = MiniTokio::new();
    let _outer_handle = outer.spawn(Countdown(9, 1), Header::new("outer"));
    let _inner_handle = inner.spawn(Countdown(9, 2), Header::new("inner"));
    let table = |raw: Raw| {
        let table = raw.header().vtable;
        raw.as_task().schedule();
        table
    };
    for _ in 0..3 {
        assert_eq!(inner.worker().work(table), Some("inner"));
        assert_eq!(outer.worker().work(table), Some("outer"));
    }
}

#[test]
fn tasks_are_received_in_the_order_they_were_spawned() {
    let executor: Executor = MiniTokio::new();
    let _a = executor.spawn(Countdown(1, 1), Header::new("a"));
    let _b = executor.spawn(Countdown(1, 2), Header::new("b"));
    let _c = executor.spawn(Countdown(1, 3), Header::new("c"));
    let mut worker = executor.worker();
    let mut seen = Vec::new();
    for _ in 0..3 {
        seen.push(worker.work(|raw: Raw| raw.header().vtable).unwrap());
    }
    assert_eq!(seen, vec!["a", "b", "c"]);
}

#[test]
fn clones_share_the_run_queue() {
    let executor: Executor = MiniTokio::new();
    let other = executor.clone();
    let _handle = executor.spawn(Countdown(1, 7), Header::new("shared"));
    assert_eq!(other.worker().work(|raw: Raw| raw.header().vtable), Some("shared"));
}

#[test]
fn workers_stop_when_the_queue_can_no_longer_be_fed() {
    let executor: Executor = MiniTokio::new();
    let polled = AtomicUsize::new(0);
    for i in 0..10 {
        executor.spawn(Countdown(1 + i % 3, i), Header::new("table"));
    }
    let mut workers = vec![executor.worker(), executor.worker(), executor.worker()];
    drop(executor);
    crossbeam::scope(|scope| {
        let polled = &polled;
        for worker in &mut workers {
            scope.spawn(move |_| while let Some(report) = worker.work(poll_raw) {
                assert_eq!(report, Ok((PollReport::Polled, None)));
                polled.fetch_add(1, Ordering::Relaxed);
            });
        }
    })
    .unwrap();
    // The tasks need one, two and three polls in turn, and the tenth needs one.
    assert_eq!(polled.load(Ordering::Relaxed), 3 * (1 + 2 + 3) + 1);
    assert_eq!(workers[0].work(poll_raw), None);
}

#[test]
fn raw_task_round_trip() {
    let (sender, _receiver) = unbounded();
    let task: Arc<CountdownTask> = Task::new(Countdown(1, 7), Header::new("table"), &sender);
    let raw = task.into_raw();
    assert_eq!(raw.header().vtable, "table");
    assert_eq!(Arc::strong_count(&task), 2);
    let back = Task::from_raw(raw);
    assert!(Arc::ptr_eq(&task, &back));
    drop(back);
    assert_eq!(Arc::strong_count(&task), 1);
}

#[test]
fn every_raw_task_holds_one_reference() {
    let (sender, end) = unbounded();
    let mut receiver = TaskReceiver::new(end);
    let task: Arc<CountdownTask> = Task::new(Countdown(2, 7), Header::new("table"), &sender);
    let mut handle = JoinHandle::new(task.clone());
    assert_eq!(Arc::strong_count(&task), 2);
    assert!(matches!(handle.poll(count, 'j'), Ok(Poll::Pending)));
    assert_eq!(Arc::strong_count(&task), 2);
    task.schedule();
    assert_eq!(Arc::strong_count(&task), 3);
    let raw = receiver.recv().unwrap();
    assert!(Arc::ptr_eq(raw.as_task(), &task));
    assert_eq!(Arc::strong_count(&task), 3);
    assert_eq!(raw.poll(count_and_wake), Ok((PollReport::Polled, Some('j'))));
    assert_eq!(Arc::strong_count(&task), 2);
    drop(handle);
    assert_eq!(Arc::strong_count(&task), 1);
    drop(receiver);
    task.schedule();
    assert_eq!(Arc::strong_count(&task), 1);
}

#[test]
fn reading_through_a_raw_task_keeps_its_one_reference() {
    let (sender, _end) = unbounded();
    let task: Arc<CountdownTask> = Task::new(Countdown(2, 7), Header::new("table"), &sender);
    let counted = task.clone();
    let mut dst = Poll::Ready(Ok(8));
    let raw = task.into_raw();
    drop(task);
    assert_eq!(Arc::strong_count(&counted), 2);
    let (raw, read) = raw.try_read_output(
        &mut dst,
        |future: &mut Countdown| {
            assert_eq!(Arc::strong_count(&counted), 2);
            count(future)
        },
        'j',
    );
    assert_eq!(read, Ok(()));
    assert!(matches!(dst, Poll::Pending));
    assert_eq!(Arc::strong_count(&counted), 2);
    let (raw, read) = raw.try_read_output(&mut dst, count, 'j');
    assert_eq!(read, Ok(()));
    assert!(matches!(dst, Poll::Ready(Ok(7))));
    let (raw, read) = raw.try_read_output(&mut dst, never, 'j');
    assert_eq!(read, Err(ReadError::Consumed));
    assert!(Arc::ptr_eq(raw.as_task(), &counted));
    assert_eq!(Arc::strong_count(&counted), 2);
    drop(raw);
    assert_eq!(Arc::strong_count(&counted), 1);
}

#[test]
fn poll_hands_the_task_itself_to_the_waker() {
    let (sender, _receiver) = unbounded();
    let task: Arc<CountdownTask> = Task::new(Countdown(5, 7), Header::new("table"), &sender);
    let same = task.clone();
    let report = task.poll(|_: &mut Countdown, waking: Arc<CountdownTask>| {
        assert!(Arc::ptr_eq(&waking, &same));
        Poll::Pending
    });
    assert_eq!(report, Ok((PollReport::Polled, None)));
}

#[test]
fn spawn_onto_a_bare_queue() {
    let (sender, end) = unbounded();
    let mut receiver = TaskReceiver::new(end);
    let mut handle: JoinHandle<Countdown, u32, Table, Waker> =
        Task::spawn(Countdown(1, 7), Header::new("table"), &sender);
    assert_eq!(receiver.recv().unwrap().poll(count_and_wake), Ok((PollReport::Polled, None)));
    assert!(matches!(handle.poll(never, 'j'), Ok(Poll::Ready(Ok(7)))));
}

#[test]
fn run_starts_then_joins_every_worker() {
    let executor: Executor = MiniTokio::new();
    let mut run = executor.run(3);
    let _handle = executor.spawn(Countdown(3, 7), Header::new("table"));
    for _ in 0..3 {
        match run.next() {
            RunAction::StartWorker(mut worker) => {
                assert_eq!(worker.work(poll_raw), Some(Ok((PollReport::Polled, None))));
            }
            _ => panic!("a worker is to be started"),
        }
    }
    assert!(matches!(run.next(), RunAction::JoinWorker(0)));
    assert!(matches!(run.next(), RunAction::JoinWorker(1)));
    assert!(matches!(run.next(), RunAction::JoinWorker(2)));
    assert!(matches!(run.next(), RunAction::Finish));
    assert!(matches!(run.next(), RunAction::Finish));
}

#[test]
fn run_without_workers_finishes_at_once() {
    let executor: Executor = MiniTokio::new();
    assert!(matches!(executor.run(0).next(), RunAction::Finish));
}

#[test]
fn run_logs() {
    assert_eq!(join_error_line("Any { .. }"), "Error joining worker thread: Any { .. }");
    assert_eq!(finished_line(), "All workers finished!");
}
