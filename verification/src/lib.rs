//! A process supervisor: a state machine that tracks at most one spawned
//! child process and offers idempotent start and stop operations plus a
//! status query on it. Spawning and killing are delegated to a host-supplied
//! collaborator, and the host serializes callers behind a lock; the
//! supervisor owns the bookkeeping and its guarantees.

pub mod greeting;
pub mod laws;
pub mod supervisor;

pub use supervisor::ProcessStatus;
pub use supervisor::ProcessSupervisor;
pub use supervisor::SpawnCollaborator;
pub use supervisor::SupervisorError;
