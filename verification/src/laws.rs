//! The guarantees of the supervisor, stated over its spec-level transitions
//! and proved once and for all.

use vstd::prelude::*;
use crate::supervisor::start_next;
use crate::supervisor::status_of;
use crate::supervisor::stop_next;
use crate::supervisor::ProcessStatus;

verus! {

/// At most one child is ever active: once a pid is tracked, a further start
/// leaves exactly that pid tracked, whatever a spawn would have returned.
/// (And no spawn is issued at all: `start` only consults the collaborator
/// when its decision half reports no tracked child.)
pub proof fn lemma_at_most_one_active(pid: u32, spawned: Result<u32, String>)
    ensures
        start_next(Some(pid), spawned) == Some(pid),
{
}

/// A stop from any prior state leaves the supervisor idle, so a stop while
/// nothing is tracked changes nothing.
pub proof fn lemma_stop_always_idles(prior: Option<u32>)
    ensures
        stop_next(prior) == None::<u32>,
        prior is None ==> stop_next(prior) == prior,
{
}

/// After a successful start from idle, status reports the child alive under
/// exactly the pid the spawn collaborator returned.
pub proof fn lemma_status_after_start(pid: u32)
    ensures
        status_of(start_next(None, Ok(pid))) == (ProcessStatus {
            alive: true,
            pid: Some(pid),
        }),
{
}

/// After a stop, status reports no live child and no pid.
pub proof fn lemma_status_after_stop(prior: Option<u32>)
    ensures
        status_of(stop_next(prior)) == (ProcessStatus { alive: false, pid: None }),
{
}

/// A failed spawn stores nothing: status after a failed start from idle
/// still reports no live child and no pid.
pub proof fn lemma_status_after_failed_start(cause: String)
    ensures
        start_next(None, Err(cause)) == None::<u32>,
        status_of(start_next(None, Err(cause))) == (ProcessStatus { alive: false, pid: None }),
{
}

} // verus!
