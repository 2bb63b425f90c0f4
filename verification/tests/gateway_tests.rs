use swarmy_core::dispatch::{settle, JoinOutcome, WorkKind, WorkUnit};
use swarmy_core::engine::try_get_snapshot_metadata;
use swarmy_core::error::SwarmyTauriError;
use swarmy_core::gateway::{
    conclude, conclude_scan, failure_context, failure_message, get_current_app_config, intake,
    persists_settings, respond, validate_replay_path, Intake,
};
use swarmy_core::response::ResponseMeta;
use swarmy_core::scan::SC2ReplaysDirStats;
use swarmy_core::settings::store::{SettingsStore, StoredValue};
use swarmy_core::settings::AppSettings;
use swarmy_core::snapshot::{PrimaryProbe, SnapshotProbe};

const KINDS: [WorkKind; 4] =
    [WorkKind::BasicScan, WorkKind::Optimize, WorkKind::SnapshotMetadata, WorkKind::MapStats];

fn terminal(success: bool, duration_ms: u64) -> ResponseMeta {
    ResponseMeta { success, duration_ms, is_complete: true }
}

#[test]
fn empty_path_is_rejected() {
    let e = validate_replay_path("").unwrap_err();
    assert_eq!(e, SwarmyTauriError::Other("Replay path is empty.".to_string()));
    assert_eq!(validate_replay_path("/replays"), Ok(()));
    assert_eq!(validate_replay_path(" "), Ok(()));
}

#[test]
fn intake_rejects_empty_path_with_a_complete_envelope() {
    for kind in KINDS {
        match intake(kind, "", true) {
            Intake::Rejected(response) => {
                assert_eq!(response.meta, terminal(false, 0));
                assert_eq!(
                    response.message,
                    format!("{}: Other Error: Replay path is empty.", failure_context(kind))
                );
            }
            Intake::Dispatched { .. } => panic!("an empty path was dispatched"),
        }
    }
}

#[test]
fn intake_dispatches_the_unit_as_given() {
    for kind in KINDS {
        for serial in [true, false] {
            let expected = Intake::Dispatched {
                unit: WorkUnit {
                    kind,
                    replay_path: "/replays".to_string(),
                    disable_parallel_scans: serial,
                },
                persist: kind == WorkKind::BasicScan || kind == WorkKind::Optimize,
            };
            assert_eq!(intake(kind, "/replays", serial), expected);
        }
    }
}

#[test]
fn settings_are_persisted_for_scan_and_export_only() {
    assert!(persists_settings(WorkKind::BasicScan));
    assert!(persists_settings(WorkKind::Optimize));
    assert!(!persists_settings(WorkKind::SnapshotMetadata));
    assert!(!persists_settings(WorkKind::MapStats));
}

#[test]
fn words_for_each_kind_of_failure() {
    assert_eq!(failure_context(WorkKind::BasicScan), "Error scanning replays directory");
    assert_eq!(failure_context(WorkKind::Optimize), "Error optimizing replays");
    assert_eq!(failure_context(WorkKind::SnapshotMetadata), "Error getting snapshot metadata");
    assert_eq!(failure_context(WorkKind::MapStats), "Error querying map stats");
    assert_eq!(
        failure_message(WorkKind::Optimize, &SwarmyTauriError::S2ProtoErr("bad replay".into())),
        "Error optimizing replays: S2proto Error: bad replay"
    );
}

#[test]
fn settle_keeps_the_result_of_finished_work() {
    assert_eq!(settle(JoinOutcome::Finished(Ok::<u8, SwarmyTauriError>(3))), Ok(3));
    let e = SwarmyTauriError::StdIo("x".to_string());
    assert_eq!(settle(JoinOutcome::Finished(Err::<u8, _>(e))), Err(SwarmyTauriError::StdIo("x".to_string())));
}

#[test]
fn settle_turns_a_panic_into_an_error() {
    let joined: JoinOutcome<Result<u8, SwarmyTauriError>> =
        JoinOutcome::Panicked("index out of bounds".to_string());
    assert_eq!(
        settle(joined),
        Err(SwarmyTauriError::Other("worker panicked: index out of bounds".to_string()))
    );
}

#[test]
fn respond_wraps_success_and_failure() {
    let ok = respond(WorkKind::SnapshotMetadata, Ok("{\"num_games\":4}".to_string()), 12);
    assert_eq!(ok.meta, terminal(true, 12));
    assert_eq!(ok.message, "{\"num_games\":4}");
    let failed = respond(
        WorkKind::SnapshotMetadata,
        Err(SwarmyTauriError::Polars("corrupt".to_string())),
        34,
    );
    assert_eq!(failed.meta, terminal(false, 34));
    assert_eq!(failed.message, "Error getting snapshot metadata: Polars Error: corrupt");
}

#[test]
fn conclude_gives_a_complete_envelope_in_every_case() {
    let done = conclude(WorkKind::Optimize, JoinOutcome::Finished(Ok("done".to_string())), 5);
    assert_eq!(done.meta, terminal(true, 5));
    assert_eq!(done.message, "done");
    let failed = conclude(
        WorkKind::Optimize,
        JoinOutcome::Finished(Err(SwarmyTauriError::StdIo("denied".to_string()))),
        6,
    );
    assert_eq!(failed.meta, terminal(false, 6));
    assert_eq!(failed.message, "Error optimizing replays: StdIoError: denied");
    let panicked = conclude(WorkKind::MapStats, JoinOutcome::Panicked("oops".to_string()), 7);
    assert_eq!(panicked.meta, terminal(false, 7));
    assert_eq!(panicked.message, "Error querying map stats: Other Error: worker panicked: oops");
}

#[test]
fn metadata_of_a_missing_subdirectory_fails_with_an_io_message() {
    let probe = SnapshotProbe::Unlisted("No such file or directory (os error 2)".to_string());
    let result = try_get_snapshot_metadata(&probe).map(|_| String::from("unused"));
    let response = conclude(WorkKind::SnapshotMetadata, JoinOutcome::Finished(result), 3);
    assert!(!response.meta.success);
    assert!(response.meta.is_complete);
    assert_eq!(
        response.message,
        "Error getting snapshot metadata: StdIoError: No such file or directory (os error 2)"
    );
}

#[test]
fn metadata_of_a_missing_primary_file_fails_the_same_way() {
    let probe = SnapshotProbe::Listed {
        entry_sizes: vec![10, 20],
        primary: PrimaryProbe::Missing("No such file or directory (os error 2)".to_string()),
    };
    let result = try_get_snapshot_metadata(&probe).map(|_| String::from("unused"));
    let response = conclude(WorkKind::SnapshotMetadata, JoinOutcome::Finished(result), 3);
    assert!(!response.meta.success);
    assert!(response.meta.is_complete);
    assert_eq!(
        response.message,
        "Error getting snapshot metadata: StdIoError: No such file or directory (os error 2)"
    );
}

#[test]
fn conclude_scan_answers_with_the_statistics() {
    let stats = SC2ReplaysDirStats { total_files: 3, ..SC2ReplaysDirStats::default() };
    let answered = conclude_scan(JoinOutcome::Finished(Ok(stats))).unwrap();
    assert_eq!(answered.total_files, 3);
    let failed = conclude_scan(JoinOutcome::Finished(Err::<SC2ReplaysDirStats, _>(
        SwarmyTauriError::S2ProtoErr("no replays".to_string()),
    )));
    assert_eq!(
        failed,
        Err("Error scanning replays directory: S2proto Error: no replays".to_string())
    );
    let panicked =
        conclude_scan(JoinOutcome::<Result<SC2ReplaysDirStats, SwarmyTauriError>>::Panicked(
            "boom".to_string(),
        ));
    assert_eq!(
        panicked,
        Err("Error scanning replays directory: Other Error: worker panicked: boom".to_string())
    );
}

#[test]
fn two_scans_keep_their_own_paths_and_results() {
    let first = intake(WorkKind::BasicScan, "/replays/a", false);
    let second = intake(WorkKind::BasicScan, "/replays/b", true);
    let path_of = |i: &Intake| match i {
        Intake::Dispatched { unit, .. } => (unit.replay_path.clone(), unit.disable_parallel_scans),
        Intake::Rejected(_) => panic!("rejected"),
    };
    assert_eq!(path_of(&first), ("/replays/a".to_string(), false));
    assert_eq!(path_of(&second), ("/replays/b".to_string(), true));
    let stats_a = SC2ReplaysDirStats { total_files: 10, ..SC2ReplaysDirStats::default() };
    let stats_b = SC2ReplaysDirStats { total_files: 20, ..SC2ReplaysDirStats::default() };
    let b = conclude_scan(JoinOutcome::Finished(Ok(stats_b))).unwrap();
    let a = conclude_scan(JoinOutcome::Finished(Ok(stats_a))).unwrap();
    assert_eq!(a.total_files, 10);
    assert_eq!(b.total_files, 20);
}

#[test]
fn current_configuration_of_an_opened_store() {
    let mut store = SettingsStore::new();
    store.set("disable_parallel_scans", StoredValue::Bool(true));
    store.set("replay_path", StoredValue::Text("/replays".to_string()));
    let config = get_current_app_config(&Ok(store), None).unwrap();
    assert!(config.disable_parallel_scans);
    assert_eq!(config.replay_path, "/replays");
}

#[test]
fn current_configuration_without_a_settings_file_is_the_default() {
    let config = get_current_app_config(&Ok(SettingsStore::new()), None).unwrap();
    assert_eq!(config, AppSettings::default());
}

#[test]
fn current_configuration_of_a_store_that_cannot_be_opened() {
    let failed = get_current_app_config(
        &Err(SwarmyTauriError::StdErr("store is locked".to_string())),
        None,
    );
    assert_eq!(failed, Err("Error building store: StdError: store is locked".to_string()));
}
