//! The command gateway: what is decided before a unit of work is dispatched
//! and after it was joined.
//!
//! Every operation that takes a path rejects the empty path on the spot,
//! without a thread, and every operation ends in a complete envelope or a
//! typed value: a failure never leaves the gateway in any other form.

use crate::dispatch::{panic_cause, settle, JoinOutcome, WorkKind, WorkUnit, WorkUnitView};
use crate::error::{ErrorKind, SwarmyTauriError};
use crate::response::{ApiResponse, ApiResponseView, ResponseMeta, ResponseMetaBuilder};
use crate::settings::store::SettingsStore;
use crate::settings::{is_loaded_from, load_app_settings_from_store, AppSettings};
use crate::snapshot::SnapshotProbe;
use vstd::prelude::*;
use vstd::string::StringExecFns;

verus! {

/// The words that introduce the failure of each kind of work.
pub open spec fn spec_failure_context(kind: WorkKind) -> Seq<char> {
    match kind {
        WorkKind::BasicScan => "Error scanning replays directory"@,
        WorkKind::Optimize => "Error optimizing replays"@,
        WorkKind::SnapshotMetadata => "Error getting snapshot metadata"@,
        WorkKind::MapStats => "Error querying map stats"@,
    }
}

/// The message of a failure: the words for the kind of work, a colon, and
/// the single-string form of the error.
pub open spec fn failure_text(kind: WorkKind, e: SwarmyTauriError) -> Seq<char> {
    spec_failure_context(kind) + ": "@ + e.spec_message()
}

/// The cause given for an empty path.
pub open spec fn empty_path_cause() -> Seq<char> {
    "Replay path is empty."@
}

/// The message of the envelope that rejects an empty path.
pub open spec fn rejection_text(kind: WorkKind) -> Seq<char> {
    spec_failure_context(kind) + ": "@ + "Other Error: "@ + empty_path_cause()
}

/// Whether the path and the flag are persisted before this kind of work is
/// dispatched: they are for a scan and for an export.
pub open spec fn spec_persists_settings(kind: WorkKind) -> bool {
    kind == WorkKind::BasicScan || kind == WorkKind::Optimize
}

pub fn failure_context(kind: WorkKind) -> (words: &'static str)
    ensures
        words@ == spec_failure_context(kind),
{
    match kind {
        WorkKind::BasicScan => "Error scanning replays directory",
        WorkKind::Optimize => "Error optimizing replays",
        WorkKind::SnapshotMetadata => "Error getting snapshot metadata",
        WorkKind::MapStats => "Error querying map stats",
    }
}

pub fn persists_settings(kind: WorkKind) -> (b: bool)
    ensures
        b == spec_persists_settings(kind),
{
    match kind {
        WorkKind::BasicScan => true,
        WorkKind::Optimize => true,
        _ => false,
    }
}

/// The message for a failure of a kind of work.
pub fn failure_message(kind: WorkKind, e: &SwarmyTauriError) -> (text: String)
    ensures
        text@ == failure_text(kind, *e),
{
    let message = e.message();
    String::from_str(failure_context(kind)).concat(": ").concat(message.as_str())
}

/// Validates the path of an invocation: the empty path is the one that is
/// refused.
pub fn validate_replay_path(replay_path: &str) -> (r: Result<(), SwarmyTauriError>)
    ensures
        r is Err <==> replay_path@.len() == 0,
        r matches Err(e) ==> e.spec_kind() == ErrorKind::Other && e.spec_detail()
            == empty_path_cause(),
{
    if replay_path.is_empty() {
        Err(SwarmyTauriError::Other(String::from_str("Replay path is empty.")))
    } else {
        Ok(())
    }
}

/// What the gateway decided on an invocation before any thread exists.
#[derive(Debug, PartialEq, Eq)]
pub enum Intake {
    /// The input was refused; this envelope is the answer.
    Rejected(ApiResponse),
    /// The unit of work to dispatch, and whether path and flag are to be
    /// persisted before the thread is spawned.
    Dispatched { unit: WorkUnit, persist: bool },
}

/// Decides on an invocation. An empty path is answered at once by a failed,
/// complete envelope; every other path is dispatched as it stands.
pub fn intake(kind: WorkKind, replay_path: &str, disable_parallel_scans: bool) -> (r: Intake)
    ensures
        replay_path@.len() == 0 ==> (r matches Intake::Rejected(response) && response@ == (
        ApiResponseView {
            meta: ResponseMeta::terminal(false, 0),
            message: rejection_text(kind),
        })),
        replay_path@.len() > 0 ==> (r matches Intake::Dispatched { unit, persist } && unit@ == (
        WorkUnitView { kind, replay_path: replay_path@, disable_parallel_scans }) && persist
            == spec_persists_settings(kind)),
{
    match validate_replay_path(replay_path) {
        Err(e) => {
            let message = failure_message(kind, &e);
            proof {
                assert(e.spec_message() == "Other Error: "@ + empty_path_cause());
                assert(message@ =~= rejection_text(kind));
            }
            Intake::Rejected(
                ApiResponse::new(ResponseMetaBuilder::new(false).duration_ms(0).build(), message),
            )
        },
        Ok(()) => Intake::Dispatched {
            unit: WorkUnit {
                kind,
                replay_path: replay_path.to_owned(),
                disable_parallel_scans,
            },
            persist: persists_settings(kind),
        },
    }
}

/// `response` is the envelope for the result of a kind of work that took
/// `duration_ms`: complete in every case, successful with the payload as
/// its message for a success, failed with the failure message for an error.
pub open spec fn is_envelope_of(
    response: ApiResponseView,
    kind: WorkKind,
    result: Result<String, SwarmyTauriError>,
    duration_ms: u64,
) -> bool {
    match result {
        Ok(payload) => response == (ApiResponseView {
            meta: ResponseMeta::terminal(true, duration_ms),
            message: payload@,
        }),
        Err(e) => response == (ApiResponseView {
            meta: ResponseMeta::terminal(false, duration_ms),
            message: failure_text(kind, e),
        }),
    }
}

/// Wraps the result of a unit of work.
pub fn respond(kind: WorkKind, result: Result<String, SwarmyTauriError>, duration_ms: u64) -> (response:
    ApiResponse)
    ensures
        is_envelope_of(response@, kind, result, duration_ms),
        response.meta.is_complete,
        response.meta.success == (result is Ok),
{
    match result {
        Ok(payload) => ApiResponse::new(
            ResponseMetaBuilder::new(true).duration_ms(duration_ms).build(),
            payload,
        ),
        Err(e) => {
            let message = failure_message(kind, &e);
            ApiResponse::new(
                ResponseMetaBuilder::new(false).duration_ms(duration_ms).build(),
                message,
            )
        },
    }
}

/// Ends an invocation: the envelope for what the join observed. The message
/// is the serialized payload of a success; a failure and a panic both give a
/// failed envelope with a description.
pub fn conclude(
    kind: WorkKind,
    joined: JoinOutcome<Result<String, SwarmyTauriError>>,
    duration_ms: u64,
) -> (response: ApiResponse)
    ensures
        response.meta == ResponseMeta::terminal(joined matches JoinOutcome::Finished(Ok(_)), duration_ms),
        match joined {
            JoinOutcome::Finished(Ok(payload)) => response.message@ == payload@,
            JoinOutcome::Finished(Err(e)) => response.message@ == failure_text(kind, e),
            JoinOutcome::Panicked(message) => response.message@ == spec_failure_context(kind)
                + ": "@ + "Other Error: "@ + panic_cause(message@),
        },
{
    let ghost observed = joined;
    let result = settle(joined);
    let ghost settled = result;
    let response = respond(kind, result, duration_ms);
    proof {
        if let JoinOutcome::Panicked(message) = observed {
            let e = settled->Err_0;
            assert(e.spec_message() == "Other Error: "@ + panic_cause(message@));
            assert(response.message@ =~= spec_failure_context(kind) + ": "@ + "Other Error: "@
                + panic_cause(message@));
        }
    }
    response
}

/// Ends a basic scan, which answers with the scan statistics themselves:
/// the statistics of a success, the failure message of an error or a panic.
pub fn conclude_scan<T>(joined: JoinOutcome<Result<T, SwarmyTauriError>>) -> (r: Result<T, String>)
    ensures
        match joined {
            JoinOutcome::Finished(Ok(stats)) => r == Ok::<T, String>(stats),
            JoinOutcome::Finished(Err(e)) => r matches Err(text) && text@ == failure_text(
                WorkKind::BasicScan,
                e,
            ),
            JoinOutcome::Panicked(message) => r matches Err(text) && text@ == spec_failure_context(
                WorkKind::BasicScan,
            ) + ": "@ + "Other Error: "@ + panic_cause(message@),
        },
{
    let ghost observed = joined;
    match settle(joined) {
        Ok(stats) => Ok(stats),
        Err(e) => {
            let text = failure_message(WorkKind::BasicScan, &e);
            proof {
                if let JoinOutcome::Panicked(message) = observed {
                    assert(e.spec_message() == "Other Error: "@ + panic_cause(message@));
                    assert(text@ =~= spec_failure_context(WorkKind::BasicScan) + ": "@
                        + "Other Error: "@ + panic_cause(message@));
                }
            }
            Err(text)
        },
    }
}

/// The words that introduce a settings store that cannot be opened.
pub open spec fn store_failure_text(e: SwarmyTauriError) -> Seq<char> {
    "Error building store: "@ + e.spec_message()
}

/// Answers the request for the current configuration. A store that cannot
/// be opened is the one failure; a settings file that does not exist yet is
/// none, it is handed in as the empty document and gives the defaults.
pub fn get_current_app_config(
    store: &Result<SettingsStore, SwarmyTauriError>,
    snapshot: Option<&SnapshotProbe>,
) -> (r: Result<AppSettings, String>)
    ensures
        match *store {
            Ok(opened) => r matches Ok(settings) && is_loaded_from(
                settings@,
                opened@,
                match snapshot {
                    Some(p) => Some(*p),
                    None => None,
                },
            ),
            Err(e) => r matches Err(text) && text@ == store_failure_text(e),
        },
{
    match store {
        Ok(opened) => Ok(load_app_settings_from_store(opened, snapshot)),
        Err(e) => {
            let message = e.message();
            Err(String::from_str("Error building store: ").concat(message.as_str()))
        },
    }
}

} // verus!
