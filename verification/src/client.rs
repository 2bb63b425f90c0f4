//! The calling side of the commands: what the scan view holds and how a
//! trigger and the reply to it change it.
//!
//! Sending a request and waiting for its reply is the caller's part. Each
//! trigger says whether a request is to be sent and with which settings;
//! each reply is handed back in as a plain value.

use crate::response::{ApiResponse, ApiResponseView, ResponseMeta};
use crate::scan::{is_table_of, SC2ReplaysDirStats, SC2ReplaysDirStatsTable};
use crate::settings::{AppSettings, AppSettingsView};
use crate::snapshot_stats::SnapshotStats;
use vstd::prelude::*;
use vstd::string::StringExecFns;

verus! {

/// What the scan view holds.
#[derive(Debug, PartialEq, Eq)]
pub struct ScanView {
    pub app_settings: AppSettings,
    pub optimize_button_enabled: bool,
    /// The last answer of the backend, or the pending marker while a
    /// request is on its way.
    pub backend_response: ApiResponse,
    pub table: SC2ReplaysDirStatsTable,
}

/// The pending marker.
pub open spec fn pending() -> ApiResponseView {
    ApiResponseView { meta: ResponseMeta::spec_incomplete(), message: Seq::<char>::empty() }
}

/// The message shown where the reply to an export request cannot be read.
pub open spec fn unreadable_reply_text(cause: Seq<char>) -> Seq<char> {
    "Error invoking optimize_replay_path: "@ + cause
}

impl ScanView {
    /// The view before anything was loaded: default settings, the export
    /// button disabled, the pending marker, an empty table.
    pub fn new() -> (view: ScanView)
        ensures
            view.backend_response@ == pending(),
            !view.optimize_button_enabled,
            view.app_settings@ == (AppSettingsView {
                disable_parallel_scans: false,
                replay_path: Seq::<char>::empty(),
                arrow_ipc_stats: SnapshotStats::spec_default(),
            }),
            view.table.total_files == 0,
            view.table.total_supported_replays == 0,
            view.table.ability_supported_replays == 0,
            view.table.top_10_players@.len() == 0,
            view.table.top_10_maps@.len() == 0,
    {
        ScanView {
            app_settings: AppSettings::default(),
            optimize_button_enabled: false,
            backend_response: ApiResponse::new_incomplete(),
            table: SC2ReplaysDirStatsTable::from(SC2ReplaysDirStats::default()),
        }
    }

    /// Whether the failure of the last answer is to be shown: it is for an
    /// answer that is complete and not successful.
    pub fn shows_failure(&self) -> (b: bool)
        ensures
            b == (!self.backend_response.meta.success && self.backend_response.meta.is_complete),
    {
        !self.backend_response.meta.success && self.backend_response.meta.is_complete
    }

    /// Whether the directory counts as optimized: it does once its snapshot
    /// has a size.
    pub fn is_optimized(&self) -> (b: bool)
        ensures
            b == (self.app_settings.arrow_ipc_stats.directory_size > 0),
    {
        self.app_settings.arrow_ipc_stats.directory_size > 0
    }

    /// Whether the warning that the directory is not optimized is to be
    /// shown, together with the table of the scan: it is once a scan found
    /// files while the snapshot has no size. It never shows beside the note
    /// that the directory is optimized.
    pub fn shows_unoptimized(&self) -> (b: bool)
        ensures
            b == (self.table.total_files > 0
                && self.app_settings.arrow_ipc_stats.directory_size == 0),
            b ==> !(self.app_settings.arrow_ipc_stats.directory_size > 0),
    {
        self.table.total_files > 0 && self.app_settings.arrow_ipc_stats.directory_size == 0
    }

    /// The reply to the request for the current configuration arrived. A
    /// reply that could be read replaces the settings; in either case the
    /// export button is enabled.
    pub fn config_loaded(&mut self, reply: Result<AppSettings, String>)
        ensures
            final(self).optimize_button_enabled,
            final(self).backend_response == old(self).backend_response,
            final(self).table == old(self).table,
            match reply {
                Ok(config) => final(self).app_settings == config,
                Err(_) => final(self).app_settings == old(self).app_settings,
            },
    {
        match reply {
            Ok(config) => {
                self.app_settings = config;
            },
            Err(_) => {},
        }
        self.optimize_button_enabled = true;
    }

    /// The user edited the replay directory: the path is taken over, and
    /// the export button is enabled exactly for a path that is not empty.
    pub fn replay_dir_edited(&mut self, value: String)
        ensures
            final(self).app_settings.replay_path == value,
            final(self).app_settings.disable_parallel_scans == old(self).app_settings.disable_parallel_scans,
            final(self).app_settings.arrow_ipc_stats == old(self).app_settings.arrow_ipc_stats,
            final(self).optimize_button_enabled == (value@.len() > 0),
            final(self).backend_response == old(self).backend_response,
            final(self).table == old(self).table,
    {
        self.optimize_button_enabled = !value.as_str().is_empty();
        self.app_settings.replay_path = value;
    }
}

/// The user asked for an export. The last answer is replaced by the pending
/// marker. With an empty path that is all, and no request is sent; else the
/// export button is disabled and the request goes out with the settings of
/// the view.
pub fn trigger_optimize_replay_path(view: &mut ScanView) -> (request: Option<AppSettings>)
    ensures
        final(view).backend_response@ == pending(),
        final(view).app_settings == old(view).app_settings,
        final(view).table == old(view).table,
        old(view).app_settings@.replay_path.len() == 0 ==> request is None && final(view).optimize_button_enabled == old(view).optimize_button_enabled,
        old(view).app_settings@.replay_path.len() > 0 ==> !final(view).optimize_button_enabled && (
        request matches Some(settings) && settings@ == old(view).app_settings@),
{
    view.backend_response = ApiResponse::new_incomplete();
    if view.app_settings.replay_path.as_str().is_empty() {
        return None;
    }
    view.optimize_button_enabled = false;
    Some(view.app_settings.clone())
}

/// The reply to an export request arrived. An envelope that could be read
/// becomes the last answer as it is; a reply that could not be read becomes
/// a failed, complete envelope that says so. The export button is enabled
/// again in either case.
pub fn optimize_replied(view: &mut ScanView, reply: Result<ApiResponse, String>)
    ensures
        final(view).optimize_button_enabled,
        final(view).app_settings == old(view).app_settings,
        final(view).table == old(view).table,
        match reply {
            Ok(response) => final(view).backend_response == response,
            Err(cause) => final(view).backend_response@ == (ApiResponseView {
                meta: ResponseMeta::terminal(false, 0),
                message: unreadable_reply_text(cause@),
            }),
        },
{
    match reply {
        Ok(response) => {
            view.backend_response = response;
        },
        Err(cause) => {
            view.backend_response = ApiResponse {
                meta: ResponseMeta { success: false, duration_ms: 0, is_complete: true },
                message: String::from_str("Error invoking optimize_replay_path: ").concat(
                    cause.as_str(),
                ),
            };
        },
    }
    view.optimize_button_enabled = true;
}

/// The user asked for a basic scan. The last answer is replaced by the
/// pending marker; the request goes out with the settings of the view
/// unless the path is empty.
pub fn trigger_basic_scan_replay_path(view: &mut ScanView) -> (request: Option<AppSettings>)
    ensures
        final(view).backend_response@ == pending(),
        final(view).app_settings == old(view).app_settings,
        final(view).table == old(view).table,
        final(view).optimize_button_enabled == old(view).optimize_button_enabled,
        old(view).app_settings@.replay_path.len() == 0 ==> request is None,
        old(view).app_settings@.replay_path.len() > 0 ==> (request matches Some(settings)
            && settings@ == old(view).app_settings@),
{
    view.backend_response = ApiResponse::new_incomplete();
    if view.app_settings.replay_path.as_str().is_empty() {
        return None;
    }
    Some(view.app_settings.clone())
}

/// The reply to a scan request arrived. Statistics that could be read
/// replace the table, counts and lines alike; anything else leaves the view
/// as it is.
pub fn basic_scan_replied(view: &mut ScanView, reply: Result<SC2ReplaysDirStats, String>)
    ensures
        final(view).app_settings == old(view).app_settings,
        final(view).backend_response == old(view).backend_response,
        final(view).optimize_button_enabled == old(view).optimize_button_enabled,
        match reply {
            Ok(stats) => is_table_of(final(view).table, stats),
            Err(_) => final(view).table == old(view).table,
        },
{
    match reply {
        Ok(stats) => {
            view.table = SC2ReplaysDirStatsTable::from(stats);
        },
        Err(_) => {},
    }
}

} // verus!
