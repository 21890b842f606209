//! The executor: a run queue, the futures spawned onto it and the workers that drain it.
use crate::channel::{
    connected, gave_out, handed_over, unbounded, ReceivingEnd, TaskReceiver, TaskSender,
};
use crate::join_handle::JoinHandle;
use crate::raw_task::{Header, RawTask};
use crate::task::Task;
use vstd::prelude::*;
use vstd::string::StringExecFns;

verus! {

/// An executor of futures. Clones share one run queue.
#[verifier::reject_recursive_types(F)]
#[verifier::reject_recursive_types(T)]
#[verifier::reject_recursive_types(V)]
#[verifier::reject_recursive_types(W)]
pub struct MiniTokio<F, T, V, W> {
    scheduled: ReceivingEnd<F, T, V, W>,
    sender: TaskSender<F, T, V, W>,
}

impl<F, T, V, W> MiniTokio<F, T, V, W> {
    /// The end of the run queue that workers receive from.
    pub closed spec fn scheduled(self) -> ReceivingEnd<F, T, V, W> {
        self.scheduled
    }

    /// The end of the run queue that tasks are sent to.
    pub closed spec fn sender(self) -> TaskSender<F, T, V, W> {
        self.sender
    }

    /// The two ends are those of one queue.
    #[verifier::type_invariant]
    spec fn is_connected(self) -> bool {
        connected(self.sender, self.scheduled)
    }

    /// An executor with an empty run queue.
    pub fn new() -> (r: MiniTokio<F, T, V, W>)
        ensures
            connected(r.sender(), r.scheduled()),
    {
        let (sender, scheduled) = unbounded();
        MiniTokio { scheduled, sender }
    }

    /// Begins a run of the executor with `num_threads` worker threads.
    pub fn run<'a>(&'a self, num_threads: usize) -> (r: Run<'a, F, T, V, W>)
        ensures
            r.executor() == *self,
            r.num_threads() == num_threads,
            r.steps_taken() == 0,
        opens_invariants none
    {
        Run { executor: self, num_threads, started: 0, joined: 0 }
    }
}

/// Spawning hands a task over to the threads of the workers, so the output has to be fit for that.
/// It takes nothing out of the queue: it lacks the bounds that receiving asks for.
impl<F, T: Send + 'static, V, W> MiniTokio<F, T, V, W> {
    /// Spawns a future onto the executor.
    ///
    /// The future is wrapped into a task and pushed into the run queue. It is executed once a
    /// worker of this executor gets to it.
    pub fn spawn(&self, future: F, header: Header<V>) -> (r: JoinHandle<F, T, V, W>)
        ensures
            r.task().is_new(future, header, self.sender()),
            r.task().was_scheduled(),
            connected(r.task().executor(), self.scheduled()),
    {
        proof {
            use_type_invariant(self);
        }
        Task::spawn(future, header, &self.sender)
    }
}

/// A worker is for another thread, and wakers go there with it.
impl<F, T, V, W: Send + 'static> MiniTokio<F, T, V, W> {
    /// A worker for this executor's run queue.
    pub fn worker(&self) -> (r: Worker<F, T, V, W>)
        ensures
            r.scheduled() == self.scheduled(),
            r.taken() == Seq::<RawTask<F, T, V, W>>::empty(),
            connected(self.sender(), r.scheduled()),
    {
        proof {
            use_type_invariant(self);
        }
        Worker { receiver: TaskReceiver::new(self.scheduled.clone()) }
    }
}

impl<F, T, V, W: Send + 'static> Clone for MiniTokio<F, T, V, W> {
    /// Another handle on the same executor.
    fn clone(&self) -> (r: Self)
        ensures
            r == *self,
    {
        proof {
            use_type_invariant(self);
        }
        MiniTokio { scheduled: self.scheduled.clone(), sender: self.sender.clone() }
    }
}

impl<F, T, V, W> Default for MiniTokio<F, T, V, W> {
    /// An executor with an empty run queue.
    fn default() -> (r: Self)
        ensures
            connected(r.sender(), r.scheduled()),
    {
        Self::new()
    }
}

/// One of those who drain a run queue. It only receives: workers alone do not keep a queue open.
#[verifier::reject_recursive_types(F)]
#[verifier::reject_recursive_types(T)]
#[verifier::reject_recursive_types(V)]
#[verifier::reject_recursive_types(W)]
pub struct Worker<F, T, V, W> {
    receiver: TaskReceiver<F, T, V, W>,
}

impl<F, T, V, W> Worker<F, T, V, W> {
    /// The end of the run queue that the worker receives from.
    pub closed spec fn scheduled(self) -> ReceivingEnd<F, T, V, W> {
        self.receiver.end()
    }

    /// The tasks that the worker has taken so far, in the order in which they came.
    pub closed spec fn taken(self) -> Seq<RawTask<F, T, V, W>> {
        self.receiver.taken()
    }
}

/// Working takes tasks over from another thread, so their outputs and tables have to be fit for
/// that.
impl<F, T: Send + 'static, V: Send + 'static, W> Worker<F, T, V, W> {
    /// One turn of the worker: waits for the next scheduled task, takes it and calls `poll` on it.
    /// `None` says that the queue is empty and can no longer be fed, so that the worker is done.
    pub fn work<R, D: FnOnce(RawTask<F, T, V, W>) -> R>(&mut self, poll: D) -> (r: Option<R>)
        requires
            forall|raw: RawTask<F, T, V, W>| #[trigger] poll.requires((raw,)),
        ensures
            final(self).scheduled() == old(self).scheduled(),
            r is None ==> gave_out(old(self).scheduled(), None) && final(self).taken()
                == old(self).taken(),
            r is Some ==> {
                let raw = final(self).taken().last();
                &&& final(self).taken() == old(self).taken().push(raw)
                &&& gave_out(old(self).scheduled(), Some(raw))
                &&& connected(raw.task().executor(), old(self).scheduled())
                &&& handed_over(raw.task().executor(), raw)
                &&& poll.ensures((raw,), r->0)
            },
    {
        match self.receiver.recv() {
            Some(raw) => {
                assert(self.taken().last() == raw);
                Some(poll(raw))
            },
            None => None,
        }
    }
}

/// What running an executor asks for next.
#[verifier::reject_recursive_types(F)]
#[verifier::reject_recursive_types(T)]
#[verifier::reject_recursive_types(V)]
#[verifier::reject_recursive_types(W)]
pub enum RunAction<F, T, V, W> {
    /// Start a thread that lets the worker work until it is done.
    StartWorker(Worker<F, T, V, W>),
    /// Wait for the thread that was started as number `0`, `1`, ...
    JoinWorker(usize),
    /// Every thread has finished.
    Finish,
}

impl<F, T, V, W> RunAction<F, T, V, W> {
    /// The action without what it carries along.
    pub open spec fn step(self) -> RunStep {
        match self {
            RunAction::StartWorker(_) => RunStep::Start,
            RunAction::JoinWorker(worker) => RunStep::Join(worker as nat),
            RunAction::Finish => RunStep::Finish,
        }
    }
}

/// The kinds of steps that a run is made of.
pub enum RunStep {
    /// A worker is started.
    Start,
    /// The worker that was started as number `0`, `1`, ... is waited for.
    Join(nat),
    /// There is nothing left to do.
    Finish,
}

/// What comes `index` steps into a run with `num_threads` workers: first every worker is started,
/// then every worker is waited for, in the order of the starts.
pub open spec fn run_step(num_threads: nat, index: nat) -> RunStep {
    if index < num_threads {
        RunStep::Start
    } else if index < 2 * num_threads {
        RunStep::Join((index - num_threads) as nat)
    } else {
        RunStep::Finish
    }
}

/// The course of a run of an executor, which lives at least as long as the run.
#[verifier::reject_recursive_types(F)]
#[verifier::reject_recursive_types(T)]
#[verifier::reject_recursive_types(V)]
#[verifier::reject_recursive_types(W)]
pub struct Run<'a, F, T, V, W> {
    executor: &'a MiniTokio<F, T, V, W>,
    num_threads: usize,
    started: usize,
    joined: usize,
}

impl<'a, F, T, V, W> Run<'a, F, T, V, W> {
    /// The executor that is run.
    pub closed spec fn executor(self) -> MiniTokio<F, T, V, W> {
        *self.executor
    }

    /// How many worker threads the run is for.
    pub closed spec fn num_threads(self) -> nat {
        self.num_threads as nat
    }

    /// How many steps have been taken.
    pub closed spec fn steps_taken(self) -> nat {
        (self.started + self.joined) as nat
    }

    /// No worker is waited for before all have been started.
    #[verifier::type_invariant]
    spec fn in_order(self) -> bool {
        &&& self.joined <= self.started <= self.num_threads
        &&& self.joined > 0 ==> self.started == self.num_threads
    }
}

/// A run gives workers out to other threads, and wakers go there with them.
impl<'a, F, T, V, W: Send + 'static> Run<'a, F, T, V, W> {
    /// The next thing to do.
    pub fn next(&mut self) -> (r: RunAction<F, T, V, W>)
        ensures
            r.step() == run_step(old(self).num_threads(), old(self).steps_taken()),
            r is StartWorker ==> r->StartWorker_0.scheduled() == old(self).executor().scheduled()
                && r->StartWorker_0.taken() == Seq::<RawTask<F, T, V, W>>::empty(),
            final(self).executor() == old(self).executor(),
            final(self).num_threads() == old(self).num_threads(),
            final(self).steps_taken() == if r is Finish {
                old(self).steps_taken()
            } else {
                old(self).steps_taken() + 1
            },
    {
        proof {
            use_type_invariant(&*self);
        }
        if self.started < self.num_threads {
            self.started = self.started + 1;
            RunAction::StartWorker(self.executor.worker())
        } else if self.joined < self.started {
            let worker: usize = self.joined;
            self.joined = self.joined + 1;
            RunAction::JoinWorker(worker)
        } else {
            RunAction::Finish
        }
    }
}

/// The line to log when a worker thread that was waited for has panicked; `error` is what it
/// panicked with.
pub fn join_error_line(error: &str) -> (r: String)
    ensures
        r@ == "Error joining worker thread: "@ + error@,
{
    "Error joining worker thread: ".to_owned().concat(error)
}

/// The line to log at the end of a run.
pub fn finished_line() -> (r: &'static str)
    ensures
        r@ == "All workers finished!"@,
{
    "All workers finished!"
}

} // verus!
