//! The worker dispatcher: one unit of work, one thread, one joined result.
//!
//! Spawning and joining the thread is the caller's part. This module holds
//! the description of a unit of work and the rule that turns what the join
//! observed into a result: a worker that panicked yields an error value like
//! any other failure, and nothing is ever dropped.

use crate::error::{ErrorKind, SwarmyTauriError};
use vstd::prelude::*;
use vstd::string::StringExecFns;

verus! {

/// The kinds of work that are dispatched.
#[derive(Debug, Clone, Copy, PartialEq, Eq, Hash, Structural)]
pub enum WorkKind {
    /// Scan of the replay directory by the export library.
    BasicScan,
    /// Export of the replay directory into the snapshot.
    Optimize,
    /// Aggregation of the whole snapshot.
    SnapshotMetadata,
    /// Aggregation scoped to a map.
    MapStats,
}

/// One unit of work: a path and a small set of flags.
#[derive(Debug, PartialEq, Eq)]
pub struct WorkUnit {
    pub kind: WorkKind,
    pub replay_path: String,
    pub disable_parallel_scans: bool,
}

/// Mathematical content of a `WorkUnit`.
pub struct WorkUnitView {
    pub kind: WorkKind,
    pub replay_path: Seq<char>,
    pub disable_parallel_scans: bool,
}

impl View for WorkUnit {
    type V = WorkUnitView;

    open spec fn view(&self) -> WorkUnitView {
        WorkUnitView {
            kind: self.kind,
            replay_path: self.replay_path@,
            disable_parallel_scans: self.disable_parallel_scans,
        }
    }
}

/// What joining the worker thread observed: the value that the work
/// returned, or the message of the panic that ended it.
#[derive(Debug, PartialEq, Eq)]
pub enum JoinOutcome<T> {
    Finished(T),
    Panicked(String),
}

/// The cause reported for a worker that panicked.
pub open spec fn panic_cause(message: Seq<char>) -> Seq<char> {
    "worker panicked: "@ + message
}

/// The result of a dispatch: that of the work where the worker finished, an
/// error of class `Other` that names the panic where it did not.
pub fn settle<T>(joined: JoinOutcome<Result<T, SwarmyTauriError>>) -> (r: Result<
    T,
    SwarmyTauriError,
>)
    ensures
        match joined {
            JoinOutcome::Finished(result) => r == result,
            JoinOutcome::Panicked(message) => r matches Err(e) && e.spec_kind()
                == ErrorKind::Other && e.spec_detail() == panic_cause(message@),
        },
{
    match joined {
        JoinOutcome::Finished(result) => result,
        JoinOutcome::Panicked(message) => Err(
            SwarmyTauriError::Other(
                String::from_str("worker panicked: ").concat(message.as_str()),
            ),
        ),
    }
}

} // verus!
