//! The supervisor proper: one optional child-process slot, a spec-level
//! model of its transitions, and the operations that drive it.

use vstd::prelude::*;
use vstd::string::StringExecFns;

verus! {

/// What a status query reports: whether a child is believed alive, and its
/// pid when one is tracked.
#[derive(Clone, Copy, Debug, PartialEq, Eq)]
pub struct ProcessStatus {
    pub alive: bool,
    pub pid: Option<u32>,
}

/// The status that a supervisor tracking `pid` reports.
pub open spec fn status_of(pid: Option<u32>) -> ProcessStatus {
    ProcessStatus { alive: pid is Some, pid: pid }
}

/// The slot after a start operation: an already tracked child is kept
/// untouched; otherwise a successful spawn is recorded and a failed one
/// leaves the slot empty.
pub open spec fn start_next(pid: Option<u32>, spawned: Result<u32, String>) -> Option<u32> {
    if pid is Some {
        pid
    } else if spawned is Ok {
        Some(spawned->Ok_0)
    } else {
        None
    }
}

/// The slot after a stop operation: always empty. The handle is taken out
/// before the kill request, so even a failed kill leaves nothing tracked.
pub open spec fn stop_next(pid: Option<u32>) -> Option<u32> {
    None
}

/// Everything a lifecycle operation can fail with. Idempotent no-ops (start
/// when already running, stop when idle) are successes, never errors.
#[derive(Debug, PartialEq, Eq)]
pub enum SupervisorError {
    /// The lock guarding the supervisor was poisoned by a panic elsewhere.
    LockPoisoned(String),
    /// The spawn collaborator could not create the child process.
    SpawnFailed(String),
    /// The child was tracked but the kill request failed; the slot is
    /// cleared regardless, so the child may be orphaned.
    KillFailed(String),
}

impl SupervisorError {
    /// The underlying cause, as the collaborator or lock reported it.
    pub closed spec fn spec_cause(self) -> Seq<char> {
        match self {
            SupervisorError::LockPoisoned(c) => c@,
            SupervisorError::SpawnFailed(c) => c@,
            SupervisorError::KillFailed(c) => c@,
        }
    }

    /// A human-readable message naming the failure and its cause.
    pub fn message(&self) -> (m: String)
        ensures
            self is LockPoisoned ==> m@ == "lock poisoned: "@ + self.spec_cause(),
            self is SpawnFailed ==> m@ == "spawn failed: "@ + self.spec_cause(),
            self is KillFailed ==> m@ == "kill failed: "@ + self.spec_cause(),
    {
        match self {
            SupervisorError::LockPoisoned(c) => {
                String::from_str("lock poisoned: ").concat(c.as_str())
            },
            SupervisorError::SpawnFailed(c) => {
                String::from_str("spawn failed: ").concat(c.as_str())
            },
            SupervisorError::KillFailed(c) => {
                String::from_str("kill failed: ").concat(c.as_str())
            },
        }
    }
}

/// Tracks at most one child process, identified by the pid the spawn
/// collaborator assigned to it.
pub struct ProcessSupervisor {
    child: Option<u32>,
    sidecar: String,
}

/// Resolves a logical executable name to a runnable child process and can
/// later terminate it. The host implements this; the supervisor depends on
/// nothing else from the platform.
pub trait SpawnCollaborator {
    /// Spawn the executable named `name`; return the platform-assigned pid,
    /// or a human-readable cause on failure.
    fn spawn_sidecar(&mut self, name: &str) -> Result<u32, String>;

    /// Terminate the child previously spawned under `pid`; return a
    /// human-readable cause on failure.
    fn kill(&mut self, pid: u32) -> Result<(), String>;
}

impl ProcessSupervisor {
    /// The pid of the child believed alive, if any.
    pub closed spec fn spec_pid(self) -> Option<u32> {
        self.child
    }

    /// The logical executable name this supervisor was configured with.
    pub closed spec fn spec_sidecar(self) -> Seq<char> {
        self.sidecar@
    }

    /// A fresh supervisor tracks no child.
    pub fn new(sidecar: String) -> (sup: Self)
        ensures
            sup.spec_pid() is None,
            sup.spec_sidecar() == sidecar@,
    {
        ProcessSupervisor { child: None, sidecar }
    }

    /// The executable name handed to the spawn collaborator.
    pub fn sidecar_name(&self) -> (name: &str)
        ensures
            name@ == self.spec_sidecar(),
    {
        self.sidecar.as_str()
    }

    /// Whether a child is currently tracked.
    pub fn is_running(&self) -> (running: bool)
        ensures
            running <==> self.spec_pid() is Some,
    {
        self.child.is_some()
    }

    /// Report the last known tracking state: alive with the stored pid when a
    /// child is tracked, idle otherwise.
    pub fn status(&self) -> (st: ProcessStatus)
        ensures
            st == status_of(self.spec_pid()),
    {
        match self.child {
            Some(pid) => ProcessStatus { alive: true, pid: Some(pid) },
            None => ProcessStatus { alive: false, pid: None },
        }
    }

    /// The first half of a start: decide whether a spawn is needed. Returns
    /// the "already running" reply when a child is tracked, `None` when the
    /// caller should go on and spawn.
    pub fn start_begin(&self) -> (reply: Option<String>)
        ensures
            reply is Some <==> self.spec_pid() is Some,
            reply is Some ==> reply->0@ == "already running"@,
    {
        if self.child.is_some() {
            Some(String::from_str("already running"))
        } else {
            None
        }
    }

    /// The second half of a start: record the spawn collaborator's outcome.
    /// A returned pid is stored and acknowledged with "started"; a failure
    /// leaves the supervisor untouched and is surfaced with its cause.
    pub fn start_finish(&mut self, spawned: Result<u32, String>) -> (reply: Result<
        String,
        SupervisorError,
    >)
        requires
            old(self).spec_pid() is None,
        ensures
            final(self).spec_pid() == start_next(old(self).spec_pid(), spawned),
            final(self).spec_sidecar() == old(self).spec_sidecar(),
            spawned is Err ==> *final(self) == *old(self),
            spawned is Ok ==> reply is Ok && reply->Ok_0@ == "started"@,
            spawned matches Err(cause) ==> reply matches Err(SupervisorError::SpawnFailed(c))
                && c@ == cause@,
    {
        match spawned {
            Ok(pid) => {
                self.child = Some(pid);
                Ok(String::from_str("started"))
            },
            Err(cause) => Err(SupervisorError::SpawnFailed(cause)),
        }
    }

    /// Start the child if none is tracked; a second start is an idempotent
    /// no-op acknowledged with "already running". On spawn failure nothing is
    /// stored and the cause is surfaced, never panicked on.
    pub fn start<C: SpawnCollaborator>(&mut self, launcher: &mut C) -> (reply: Result<
        String,
        SupervisorError,
    >)
        ensures
            final(self).spec_sidecar() == old(self).spec_sidecar(),
            old(self).spec_pid() is Some ==> *final(self) == *old(self) && (reply matches Ok(m)
                && m@ == "already running"@),
            old(self).spec_pid() is None && reply is Ok ==> final(self).spec_pid() is Some
                && reply->Ok_0@ == "started"@,
            old(self).spec_pid() is None && reply is Err ==> *final(self) == *old(self)
                && reply->Err_0 is SpawnFailed,
    {
        match self.start_begin() {
            Some(m) => Ok(m),
            None => {
                let spawned = launcher.spawn_sidecar(self.sidecar.as_str());
                self.start_finish(spawned)
            },
        }
    }

    /// The first half of a stop: take the tracked pid out of the slot, if
    /// any. After this the supervisor is idle whatever the kill does.
    pub fn stop_begin(&mut self) -> (taken: Option<u32>)
        ensures
            taken == old(self).spec_pid(),
            final(self).spec_pid() == stop_next(old(self).spec_pid()),
            final(self).spec_sidecar() == old(self).spec_sidecar(),
            old(self).spec_pid() is None ==> *final(self) == *old(self),
    {
        self.child.take()
    }

    /// The second half of a stop: turn the kill outcome into the caller's
    /// reply. Success is acknowledged with "stopped"; a failure is surfaced
    /// with its cause (the child may be orphaned).
    pub fn stop_finish(killed: Result<(), String>) -> (reply: Result<String, SupervisorError>)
        ensures
            killed is Ok ==> reply is Ok && reply->Ok_0@ == "stopped"@,
            killed matches Err(cause) ==> reply matches Err(SupervisorError::KillFailed(c))
                && c@ == cause@,
    {
        match killed {
            Ok(()) => Ok(String::from_str("stopped")),
            Err(cause) => Err(SupervisorError::KillFailed(cause)),
        }
    }

    /// Stop the tracked child if there is one; a stop while idle is an
    /// idempotent no-op acknowledged with "not running". The slot is cleared
    /// before the kill request, so the supervisor is always idle afterwards.
    pub fn stop<C: SpawnCollaborator>(&mut self, launcher: &mut C) -> (reply: Result<
        String,
        SupervisorError,
    >)
        ensures
            final(self).spec_pid() is None,
            final(self).spec_sidecar() == old(self).spec_sidecar(),
            old(self).spec_pid() is None ==> *final(self) == *old(self) && (reply matches Ok(m)
                && m@ == "not running"@),
            old(self).spec_pid() is Some ==> (reply is Ok ==> reply->Ok_0@ == "stopped"@) && (
            reply is Err ==> reply->Err_0 is KillFailed),
    {
        match self.stop_begin() {
            None => Ok(String::from_str("not running")),
            Some(pid) => Self::stop_finish(launcher.kill(pid)),
        }
    }

    /// Best-effort start for the host's launch path: failures are returned
    /// as a message for a logging sink, never as an error, and never panic.
    /// A child already tracked is left untouched.
    pub fn auto_start<C: SpawnCollaborator>(&mut self, launcher: &mut C) -> (log: Option<String>)
        ensures
            final(self).spec_sidecar() == old(self).spec_sidecar(),
            old(self).spec_pid() is Some ==> *final(self) == *old(self) && log is None,
            log is None && old(self).spec_pid() is None ==> final(self).spec_pid() is Some,
            log is Some ==> old(self).spec_pid() is None && *final(self) == *old(self),
    {
        match self.start(launcher) {
            Ok(_) => None,
            Err(e) => Some(e.message()),
        }
    }
}

} // verus!
