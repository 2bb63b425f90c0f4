//! The export of a replay directory into its snapshot: what is decided
//! around the call of the export routine.

use crate::error::SwarmyTauriError;
use crate::snapshot::SNAPSHOT_DIR;
use crate::text::chars_of;
use vstd::prelude::*;
use vstd::string::StringExecFns;

verus! {

/// Limits of one export run.
#[derive(Debug, Clone, Copy, PartialEq, Eq, Structural)]
pub struct WriteArrowIpcProps {
    /// Number of files to scan at most.
    pub scan_max_files: usize,
    /// Number of files to process at most.
    pub process_max_files: usize,
    /// Depth of subdirectories to descend at most.
    pub traverse_max_depth: usize,
    /// Oldest protocol version to accept, if any bound.
    pub min_version: Option<u32>,
    /// Newest protocol version to accept, if any bound.
    pub max_version: Option<u32>,
}

impl WriteArrowIpcProps {
    /// The limits that every export runs with: ten thousand files to scan
    /// and to process, eight levels of directories, any version.
    pub open spec fn spec_standard() -> WriteArrowIpcProps {
        WriteArrowIpcProps {
            scan_max_files: 10000,
            process_max_files: 10000,
            traverse_max_depth: 8,
            min_version: None,
            max_version: None,
        }
    }

    pub fn standard() -> (props: WriteArrowIpcProps)
        ensures
            props == Self::spec_standard(),
    {
        WriteArrowIpcProps {
            scan_max_files: 10000,
            process_max_files: 10000,
            traverse_max_depth: 8,
            min_version: None,
            max_version: None,
        }
    }
}

/// The path of an entry `name` inside the directory `base`: the two joined
/// by one slash, which is left out where `base` is empty or ends in a slash.
pub open spec fn spec_join_path(base: Seq<char>, name: Seq<char>) -> Seq<char> {
    if base.len() == 0 || base.last() == '/' {
        base + name
    } else {
        base + "/"@ + name
    }
}

/// The path of the snapshot subdirectory that an export writes to.
pub open spec fn spec_destination(replay_path: Seq<char>) -> Seq<char> {
    spec_join_path(replay_path, SNAPSHOT_DIR@)
}

/// Joins a directory and the name of an entry inside it.
pub fn join_path(base: &str, name: &str) -> (path: String)
    ensures
        path@ == spec_join_path(base@, name@),
{
    let chars = chars_of(base);
    if chars.len() == 0 || chars[chars.len() - 1] == '/' {
        String::from_str(base).concat(name)
    } else {
        String::from_str(base).concat("/").concat(name)
    }
}

/// What an export is to do.
#[derive(Debug, PartialEq, Eq)]
pub struct ExportPlan {
    /// The replay directory to read.
    pub source: String,
    /// The snapshot subdirectory to write.
    pub destination: String,
    /// Whether the snapshot subdirectory has to be created first.
    pub create_destination: bool,
    pub props: WriteArrowIpcProps,
    pub disable_parallel_scans: bool,
}

/// Plans an export: the snapshot subdirectory below the replay directory is
/// the destination and is created where it does not exist yet; the limits
/// are the standard ones.
pub fn plan_export(replay_path: &str, destination_exists: bool, disable_parallel_scans: bool) -> (plan:
    ExportPlan)
    ensures
        plan.source@ == replay_path@,
        plan.destination@ == spec_destination(replay_path@),
        plan.create_destination == !destination_exists,
        plan.props == WriteArrowIpcProps::spec_standard(),
        plan.disable_parallel_scans == disable_parallel_scans,
{
    ExportPlan {
        source: replay_path.to_owned(),
        destination: join_path(replay_path, SNAPSHOT_DIR),
        create_destination: !destination_exists,
        props: WriteArrowIpcProps::standard(),
        disable_parallel_scans,
    }
}

/// The text that reports a finished export.
pub open spec fn export_done_text() -> Seq<char> {
    "Optimization completed successfully."@
}

/// The payload for the end of an export: the fixed text of a success, and
/// the failure as it is.
pub fn export_outcome(exported: Result<(), SwarmyTauriError>) -> (r: Result<
    String,
    SwarmyTauriError,
>)
    ensures
        match exported {
            Ok(_) => r matches Ok(text) && text@ == export_done_text(),
            Err(e) => r == Err::<String, SwarmyTauriError>(e),
        },
{
    match exported {
        Ok(_) => Ok(String::from_str("Optimization completed successfully.")),
        Err(e) => Err(e),
    }
}

} // verus!
