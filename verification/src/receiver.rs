//! Taking tasks out of a run queue.
//!
//! A [`TaskReceiver`] keeps a record of what it has taken. Only a receive adds to the record, and
//! nothing done here takes anything off it: the record is out of reach.
use crate::channel::{connected, crossbeam_recv, gave_out, handed_over, TaskReceiver};
use crate::raw_task::RawTask;
use vstd::prelude::*;

verus! {

/// What is received comes from another thread, so the output and the table have to be fit for that.
/// What has no such bounds cannot take anything out of a queue.
impl<F, T: Send + 'static, V: Send + 'static, W> TaskReceiver<F, T, V, W> {
    /// Waits for the next task; `None` once the queue is empty and can no longer be fed.
    pub fn recv(&mut self) -> (r: Option<RawTask<F, T, V, W>>)
        ensures
            final(self).end() == old(self).end(),
            gave_out(old(self).end(), r),
            r is None ==> final(self).taken() == old(self).taken(),
            r is Some ==> final(self).taken() == old(self).taken().push(r->0),
            r is Some ==> connected(r->0.task().executor(), old(self).end()),
            r is Some ==> handed_over(r->0.task().executor(), r->0),
    {
        crossbeam_recv(self)
    }
}

} // verus!
