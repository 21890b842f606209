//! The lock round what a task holds.
use crate::sync::{guards, made_round, new_mutex, poisoned, with_lock};
use crate::task_cell::TaskCell;
use crate::task_future::JoinResult;
use crate::task_state::{Poll, PollReport, TaskState};
use std::sync::Mutex;
use vstd::prelude::*;

verus! {

/// A [`TaskCell`] that one thread at a time polls or reads.
#[verifier::reject_recursive_types(F)]
#[verifier::reject_recursive_types(T)]
#[verifier::reject_recursive_types(W)]
pub struct TaskLock<F, T, W> {
    mutex: Mutex<TaskCell<F, T, W>>,
}

impl<F, T, W> TaskLock<F, T, W> {
    /// The mutex round the cell.
    pub closed spec fn mutex(self) -> Mutex<TaskCell<F, T, W>> {
        self.mutex
    }

    /// Locks up a task that has yet to run `future`, and that nobody awaits.
    pub fn new(future: F) -> (r: TaskLock<F, T, W>)
        ensures
            exists|cell: TaskCell<F, T, W>| #[trigger]
                made_round(r.mutex(), cell) && cell@.state == TaskState::<F, T>::Pending(
                    Box::new(future),
                ) && cell@.joiner is None,
    {
        let cell = TaskCell::new(future);
        let ghost made = cell;
        let r = TaskLock { mutex: new_mutex(cell) };
        assert(made_round(r.mutex(), made));
        r
    }

    /// Polls the task while holding the lock, as [`TaskCell::poll`] does; `None` where the lock is
    /// poisoned. `poll_future` and what goes `along` are for one poll, whose outcome is returned.
    pub fn poll<A, P: FnOnce(&mut F, A) -> Poll<T>>(&self, poll_future: P, along: A) -> (r: Option<
        (PollReport, Option<W>),
    >)
        requires
            forall|fut: &mut F| #[trigger] poll_future.requires((fut, along)),
        ensures
            r is None ==> poisoned(self.mutex()),
            r is Some ==> exists|content: &mut TaskCell<F, T, W>, lent: &mut TaskCell<F, T, W>|
                #[trigger] guards(self.mutex(), content) && *lent == *content && *final(lent)
                    == *final(content) && #[trigger] call_ensures(
                    TaskCell::<F, T, W>::poll::<A, P>,
                    (lent, poll_future, along),
                    r->0,
                ),
    {
        assert(self.mutex() == self.mutex);
        with_lock(
            &self.mutex,
            (poll_future, along),
            |content: &mut TaskCell<F, T, W>, with: (P, A)| -> (outcome: (PollReport, Option<W>))
                requires
                    forall|fut: &mut F| #[trigger] with.0.requires((fut, with.1)),
                ensures
                    exists|lent: &mut TaskCell<F, T, W>|
                        *lent == *old(content) && *final(lent) == *final(content)
                            && #[trigger] call_ensures(
                            TaskCell::<F, T, W>::poll::<A, P>,
                            (lent, with.0, with.1),
                            outcome,
                        )
                { content.poll(with.0, with.1) },
        )
    }

    /// Reads the output while holding the lock, as [`TaskCell::read`] does; `None` where the lock
    /// is poisoned. `poll_future` and `waker` are for one read, whose answer is returned.
    pub fn read<P: FnOnce(&mut F) -> Poll<T>>(&self, poll_future: P, waker: W) -> (r: Option<
        Option<Poll<JoinResult<T>>>,
    >)
        requires
            forall|fut: &mut F| #[trigger] poll_future.requires((fut,)),
        ensures
            r is None ==> poisoned(self.mutex()),
            r is Some ==> exists|content: &mut TaskCell<F, T, W>, lent: &mut TaskCell<F, T, W>|
                #[trigger] guards(self.mutex(), content) && *lent == *content && *final(lent)
                    == *final(content) && #[trigger] call_ensures(
                    TaskCell::<F, T, W>::read::<P>,
                    (lent, poll_future, waker),
                    r->0,
                ),
    {
        assert(self.mutex() == self.mutex);
        with_lock(
            &self.mutex,
            (poll_future, waker),
            |content: &mut TaskCell<F, T, W>, with: (P, W)| -> (read: Option<Poll<JoinResult<T>>>)
                requires
                    forall|fut: &mut F| #[trigger] with.0.requires((fut,)),
                ensures
                    exists|lent: &mut TaskCell<F, T, W>|
                        *lent == *old(content) && *final(lent) == *final(content)
                            && #[trigger] call_ensures(
                            TaskCell::<F, T, W>::read::<P>,
                            (lent, with.0, with.1),
                            read,
                        )
                { content.read(with.0, with.1) },
        )
    }
}

} // verus!
