use swarmy_core::aggregate::{
    aggregate, apply_filter, count_distinct_games, execute, same_group, take_first_group,
};
use swarmy_core::dates::CalendarDate;
use swarmy_core::engine::{
    measure, try_get_map_list, try_get_snapshot_metadata, try_query_map_stats,
};
use swarmy_core::map_stats::MapStatsQuery;
use swarmy_core::error::{ErrorKind, SwarmyTauriError};
use swarmy_core::plan::{QueryPlan, StageKind};
use swarmy_core::records::{read_records, DetailsRow, GameRecord};
use swarmy_core::snapshot::{
    directory_size, games_played, primary_file, snapshot_dir, PrimaryProbe, SnapshotProbe,
    DETAILS_IPC, INIT_DATA_IPC, SNAPSHOT_DIR, UNIT_BORN_IPC,
};
use swarmy_core::snapshot_stats::{ModifiedTime, SnapshotStats};

fn ymd(year: i32, month: u32, day: u32) -> CalendarDate {
    CalendarDate { year, month, day }
}

fn row(date: &str, fs_id: u64, player: &str, title: &str, cache_handles: &str) -> DetailsRow {
    DetailsRow {
        ext_date: date.to_string(),
        ext_fs_id: fs_id,
        player: player.to_string(),
        title: title.to_string(),
        cache_handles: cache_handles.to_string(),
    }
}

fn modified() -> ModifiedTime {
    ModifiedTime { secs_since_epoch: 1_700_000_000, nanos_since_epoch: 5 }
}

fn listed(entry_sizes: Vec<u64>, rows: Vec<DetailsRow>) -> SnapshotProbe {
    SnapshotProbe::Listed {
        entry_sizes,
        primary: PrimaryProbe::Rows { date_modified: modified(), rows },
    }
}

fn three_games() -> Vec<DetailsRow> {
    vec![
        row("2024-01-01", 1, "Serral", "Goldenaura", "aa"),
        row("2024-01-02", 2, "Maru", "Goldenaura", "aa"),
        row("2024-01-03", 3, "Serral", "Oceanborn", "bb"),
    ]
}

#[test]
fn fixed_names_of_the_snapshot() {
    assert_eq!(SNAPSHOT_DIR, "ipcs");
    assert_eq!(DETAILS_IPC, "details.ipc");
    assert_eq!(INIT_DATA_IPC, "init_data.ipc");
    assert_eq!(UNIT_BORN_IPC, "unit_born.ipc");
}

#[test]
fn paths_below_the_replay_directory() {
    assert_eq!(snapshot_dir("/tmp/r"), "/tmp/r/ipcs/");
    assert_eq!(primary_file("/tmp/r"), "/tmp/r/ipcs/details.ipc");
}

#[test]
fn directory_size_is_the_exact_sum() {
    assert_eq!(directory_size(&vec![]), Some(0));
    assert_eq!(directory_size(&vec![900]), Some(900));
    assert_eq!(directory_size(&vec![300, 250, 350]), Some(900));
    assert_eq!(directory_size(&vec![u64::MAX - 1, 1]), Some(u64::MAX));
    assert_eq!(directory_size(&vec![0, 0, 0]), Some(0));
}

#[test]
fn directory_size_beyond_64_bits_is_none() {
    assert_eq!(directory_size(&vec![u64::MAX, 1]), None);
    assert_eq!(directory_size(&vec![u64::MAX, 1, 5]), None);
    assert_eq!(directory_size(&vec![1 << 63, 1 << 63]), None);
}

#[test]
fn games_played_adds_one() {
    assert_eq!(games_played(0), 1);
    assert_eq!(games_played(3), 4);
    assert_eq!(games_played(usize::MAX), (usize::MAX as u64).saturating_add(1));
}

#[test]
fn whole_snapshot_of_three_games() {
    let probe = listed(vec![300, 250, 350], three_games());
    let stats = try_get_snapshot_metadata(&probe).unwrap();
    assert_eq!(
        stats,
        SnapshotStats {
            directory_size: 900,
            date_modified: modified(),
            num_games: 4,
            num_maps: 0,
            min_date: ymd(2024, 1, 1),
            max_date: ymd(2024, 1, 3),
        }
    );
}

#[test]
fn whole_snapshot_counts_distinct_file_sets() {
    let mut rows = three_games();
    rows.push(row("2024-01-02", 2, "Clem", "Goldenaura", "aa"));
    rows.push(row("2023-12-31", 1, "Reynor", "Goldenaura", "aa"));
    let stats = try_get_snapshot_metadata(&listed(vec![10], rows)).unwrap();
    assert_eq!(stats.num_games, 4);
    assert_eq!(stats.min_date, ymd(2023, 12, 31));
    assert_eq!(stats.max_date, ymd(2024, 1, 3));
    assert_eq!(stats.directory_size, 10);
}

#[test]
fn empty_snapshot_gives_defaults() {
    let stats = try_get_snapshot_metadata(&listed(vec![], vec![])).unwrap();
    assert_eq!(stats.directory_size, 0);
    assert_eq!(stats.num_games, 0);
    assert_eq!(stats.num_maps, 0);
    assert_eq!(stats.min_date, ymd(1970, 1, 1));
    assert_eq!(stats.max_date, ymd(1970, 1, 1));
    assert_eq!(stats.date_modified, modified());
}

#[test]
fn missing_subdirectory_is_an_io_error() {
    let probe = SnapshotProbe::Unlisted("No such file or directory (os error 2)".to_string());
    let e = try_get_snapshot_metadata(&probe).unwrap_err();
    assert_eq!(e, SwarmyTauriError::StdIo("No such file or directory (os error 2)".to_string()));
    assert_eq!(e.kind(), ErrorKind::Io);
    assert_eq!(try_get_map_list(&probe, "").unwrap_err(), e);
}

#[test]
fn missing_primary_file_is_an_io_error() {
    let probe = SnapshotProbe::Listed {
        entry_sizes: vec![1, 2],
        primary: PrimaryProbe::Missing("No such file or directory (os error 2)".to_string()),
    };
    let e = try_get_snapshot_metadata(&probe).unwrap_err();
    assert_eq!(e.kind(), ErrorKind::Io);
    assert_eq!(e.detail(), "No such file or directory (os error 2)");
    assert_eq!(try_get_map_list(&probe, "x").unwrap_err(), e);
}

#[test]
fn unreadable_primary_file_is_a_query_engine_error() {
    let probe = SnapshotProbe::Listed {
        entry_sizes: vec![1, 2],
        primary: PrimaryProbe::Unreadable("not an arrow file".to_string()),
    };
    let e = try_get_snapshot_metadata(&probe).unwrap_err();
    assert_eq!(e, SwarmyTauriError::Polars("not an arrow file".to_string()));
    assert_eq!(try_get_map_list(&probe, "").unwrap_err(), e);
}

#[test]
fn oversized_directory_is_refused_where_the_primary_file_is_there() {
    let too_large = SwarmyTauriError::Other("snapshot directory size exceeds 64 bits".to_string());
    let with_rows = listed(vec![u64::MAX, 1], three_games());
    assert_eq!(try_get_snapshot_metadata(&with_rows).unwrap_err(), too_large);
    assert_eq!(try_get_map_list(&with_rows, "").unwrap_err(), too_large);
    let unreadable = SnapshotProbe::Listed {
        entry_sizes: vec![u64::MAX, 1],
        primary: PrimaryProbe::Unreadable("not an arrow file".to_string()),
    };
    assert_eq!(try_get_snapshot_metadata(&unreadable).unwrap_err(), too_large);
}

#[test]
fn missing_primary_file_is_an_io_error_whatever_the_sizes() {
    let probe = SnapshotProbe::Listed {
        entry_sizes: vec![u64::MAX, 1],
        primary: PrimaryProbe::Missing("gone".to_string()),
    };
    let e = try_get_snapshot_metadata(&probe).unwrap_err();
    assert_eq!(e, SwarmyTauriError::StdIo("gone".to_string()));
    assert_eq!(try_get_map_list(&probe, "x").unwrap_err(), e);
}

#[test]
fn measure_reads_the_rows() {
    let measured = measure(&listed(vec![4, 5], three_games())).ok().unwrap();
    assert_eq!(measured.directory_size, 9);
    assert_eq!(measured.date_modified, modified());
    assert_eq!(measured.records.len(), 3);
    assert_eq!(measured.records[2].date, ymd(2024, 1, 3));
}

#[test]
fn malformed_date_counts_as_epoch() {
    let mut rows = three_games();
    rows.push(row("garbage", 9, "Serral", "Goldenaura", "aa"));
    let stats = try_get_snapshot_metadata(&listed(vec![1], rows)).unwrap();
    assert_eq!(stats.min_date, ymd(1970, 1, 1));
    assert_eq!(stats.max_date, ymd(2024, 1, 3));
    assert_eq!(stats.num_games, 5);
}

#[test]
fn date_range_is_ordered() {
    let rows = vec![
        row("2024-05-05", 1, "a", "m", "c"),
        row("2021-01-09", 2, "b", "m", "c"),
        row("2022-12-31", 3, "c", "m", "c"),
    ];
    let stats = try_get_snapshot_metadata(&listed(vec![], rows)).unwrap();
    assert!(stats.min_date.is_not_after(&stats.max_date));
    assert_eq!(stats.min_date, ymd(2021, 1, 9));
    assert_eq!(stats.max_date, ymd(2024, 5, 5));
}

#[test]
fn read_records_keeps_order_and_fields() {
    let records = read_records(&three_games());
    assert_eq!(
        records[1],
        GameRecord {
            date: ymd(2024, 1, 2),
            fs_id: 2,
            player: "Maru".to_string(),
            title: "Goldenaura".to_string(),
            cache_handles: "aa".to_string(),
        }
    );
    assert_eq!(records.len(), 3);
    assert_eq!(GameRecord::from_row(&three_games()[0]), records[0]);
}

#[test]
fn plan_of_whole_snapshot_only_aggregates() {
    let plan = QueryPlan::whole_snapshot();
    assert_eq!(plan.player_filter, None);
    assert!(!plan.group_by_map);
    assert_eq!(plan.stages(), vec![StageKind::Aggregate]);
}

#[test]
fn plan_of_map_scope_filters_only_for_a_name() {
    let with_name = QueryPlan::map_scoped("Serral");
    assert_eq!(with_name.player_filter, Some("Serral".to_string()));
    assert!(with_name.group_by_map);
    assert_eq!(
        with_name.stages(),
        vec![StageKind::Filter, StageKind::Group, StageKind::Aggregate]
    );
    let without_name = QueryPlan::map_scoped("");
    assert_eq!(without_name.player_filter, None);
    assert_eq!(without_name.stages(), vec![StageKind::Group, StageKind::Aggregate]);
}

#[test]
fn filter_keeps_matching_players_in_order() {
    let records = read_records(&three_games());
    let kept = apply_filter(&records, &Some("Serral".to_string()));
    assert_eq!(kept.len(), 2);
    assert_eq!(kept[0].fs_id, 1);
    assert_eq!(kept[1].fs_id, 3);
    assert_eq!(apply_filter(&records, &None), records);
    assert_eq!(apply_filter(&records, &Some("serral".to_string())).len(), 0);
    assert_eq!(apply_filter(&records, &Some("ar".to_string())).len(), 1);
}

#[test]
fn first_group_shares_the_identity_of_the_first_record() {
    let rows = vec![
        row("2024-01-01", 1, "Serral", "Goldenaura", "aa"),
        row("2024-01-01", 1, "Maru", "Goldenaura", "aa"),
        row("2024-01-01", 1, "Clem", "Goldenaura", "other"),
        row("2024-01-02", 1, "Clem", "Goldenaura", "aa"),
        row("2024-01-01", 2, "Clem", "Goldenaura", "aa"),
        row("2024-01-01", 1, "Dark", "Oceanborn", "aa"),
        row("2024-01-01", 1, "Reynor", "Goldenaura", "aa"),
    ];
    let records = read_records(&rows);
    let group = take_first_group(&records);
    let players: Vec<&str> = group.iter().map(|r| r.player.as_str()).collect();
    assert_eq!(players, vec!["Serral", "Maru", "Reynor"]);
    assert!(same_group(&records[0], &records[1]));
    assert!(!same_group(&records[0], &records[2]));
    assert!(!same_group(&records[0], &records[3]));
    assert!(!same_group(&records[0], &records[4]));
    assert!(!same_group(&records[0], &records[5]));
    assert_eq!(take_first_group(&Vec::new()).len(), 0);
}

#[test]
fn distinct_games_are_counted_once() {
    let rows = vec![
        row("2024-01-01", 5, "a", "m", "c"),
        row("2024-01-01", 5, "b", "m", "c"),
        row("2024-01-01", 7, "c", "m", "c"),
        row("2024-01-01", 5, "d", "m", "c"),
        row("2024-01-01", 0, "e", "m", "c"),
    ];
    assert_eq!(count_distinct_games(&read_records(&rows)), 3);
    assert_eq!(count_distinct_games(&Vec::new()), 0);
}

#[test]
fn aggregate_of_records() {
    let found = aggregate(&read_records(&three_games())).unwrap();
    assert_eq!(found.min_date, ymd(2024, 1, 1));
    assert_eq!(found.max_date, ymd(2024, 1, 3));
    assert_eq!(found.distinct_games, 3);
    assert_eq!(found.title, "Goldenaura");
    assert_eq!(found.cache_handles, "aa");
    assert_eq!(aggregate(&Vec::new()), None);
}

#[test]
fn execute_runs_the_stages_in_order() {
    let records = read_records(&three_games());
    let whole = execute(&QueryPlan::whole_snapshot(), &records).unwrap();
    assert_eq!(whole.distinct_games, 3);
    let maru = execute(&QueryPlan::map_scoped("Maru"), &records).unwrap();
    assert_eq!(maru.distinct_games, 1);
    assert_eq!(maru.min_date, ymd(2024, 1, 2));
    assert_eq!(maru.max_date, ymd(2024, 1, 2));
    assert_eq!(execute(&QueryPlan::map_scoped("Nobody"), &records), None);
}

#[test]
fn map_list_of_a_player() {
    let rows = vec![
        row("2024-01-01", 1, "Maru", "Goldenaura", "aa"),
        row("2024-01-05", 2, "<Clan>Serral", "Oceanborn", "bb"),
        row("2024-01-05", 2, "Serral (2)", "Oceanborn", "bb"),
        row("2024-01-09", 3, "Serral", "Oceanborn", "cc"),
    ];
    let stats = try_get_map_list(&listed(vec![100, 200], rows), "Serral").unwrap();
    assert_eq!(stats.directory_size, 300);
    assert_eq!(stats.date_modified, modified());
    assert_eq!(stats.title, "Oceanborn");
    assert_eq!(stats.cache_handles, "bb");
    assert_eq!(stats.min_date, ymd(2024, 1, 5));
    assert_eq!(stats.max_date, ymd(2024, 1, 5));
    assert_eq!(stats.num_games, 2);
}

#[test]
fn map_list_without_a_name_takes_the_first_group() {
    let stats = try_get_map_list(&listed(vec![1], three_games()), "").unwrap();
    assert_eq!(stats.title, "Goldenaura");
    assert_eq!(stats.cache_handles, "aa");
    assert_eq!(stats.min_date, ymd(2024, 1, 1));
    assert_eq!(stats.num_games, 2);
}

#[test]
fn map_list_without_a_match_is_an_unknown_map() {
    let stats = try_get_map_list(&listed(vec![7], three_games()), "Nobody").unwrap();
    assert_eq!(stats.directory_size, 7);
    assert_eq!(stats.num_games, 0);
    assert_eq!(stats.title, "Unknown Map");
    assert_eq!(stats.cache_handles, "");
    assert_eq!(stats.min_date, ymd(1970, 1, 1));
    assert_eq!(stats.max_date, ymd(1970, 1, 1));
}

#[test]
fn player_filter_never_adds_games() {
    let rows = vec![
        row("2024-01-01", 1, "Maru", "A", "a"),
        row("2024-01-02", 2, "Serral", "B", "b"),
        row("2024-01-03", 3, "Serral", "B", "b"),
        row("2024-01-04", 4, "Clem", "C", "c"),
    ];
    for name in ["Maru", "Serral", "Clem", "Nobody", "e", "a"] {
        let unfiltered = try_get_map_list(&listed(vec![], rows.clone()), "").unwrap();
        let filtered = try_get_map_list(&listed(vec![], rows.clone()), name).unwrap();
        assert!(filtered.num_games <= unfiltered.num_games);
        let records = read_records(&rows);
        let all = execute(&QueryPlan::whole_snapshot(), &records).unwrap().distinct_games;
        let plan = QueryPlan { player_filter: Some(name.to_string()), group_by_map: false };
        let some = execute(&plan, &records).map(|a| a.distinct_games).unwrap_or(0);
        assert!(some <= all);
    }
}

fn query(player_name: &str) -> MapStatsQuery {
    MapStatsQuery {
        replay_path: "/replays".to_string(),
        map_title: "Some other title".to_string(),
        player_name: player_name.to_string(),
    }
}

#[test]
fn map_stats_query_runs_the_map_scoped_aggregation() {
    let rows = vec![
        row("2024-01-01", 1, "Maru", "Goldenaura", "aa"),
        row("2024-01-05", 2, "<Clan>Serral", "Oceanborn", "bb"),
        row("2024-01-05", 2, "Serral (2)", "Oceanborn", "bb"),
        row("2024-01-09", 3, "Serral", "Oceanborn", "cc"),
    ];
    let stats = try_query_map_stats(&query("Serral"), &listed(vec![100, 200], rows)).unwrap();
    assert_eq!(stats.directory_size, 300);
    assert_eq!(stats.date_modified, modified());
    assert_eq!(stats.title, "Oceanborn");
    assert_eq!(stats.cache_handles, "bb");
    assert_eq!(stats.min_date, ymd(2024, 1, 5));
    assert_eq!(stats.max_date, ymd(2024, 1, 5));
    assert_eq!(stats.num_games, 2);
}

#[test]
fn map_stats_query_agrees_with_the_map_list() {
    for name in ["", "Serral", "Maru", "Nobody"] {
        let by_query = try_query_map_stats(&query(name), &listed(vec![9], three_games()));
        let by_list = try_get_map_list(&listed(vec![9], three_games()), name);
        assert_eq!(by_query, by_list);
    }
}

#[test]
fn map_stats_query_never_creates_a_missing_snapshot() {
    let absent = SnapshotProbe::Unlisted("No such file or directory (os error 2)".to_string());
    let e = try_query_map_stats(&query("Serral"), &absent).unwrap_err();
    assert_eq!(e.kind(), ErrorKind::Io);
    assert_eq!(e.detail(), "No such file or directory (os error 2)");
    let unreadable = SnapshotProbe::Listed {
        entry_sizes: vec![1],
        primary: PrimaryProbe::Unreadable("not an arrow file".to_string()),
    };
    assert_eq!(
        try_query_map_stats(&query(""), &unreadable),
        Err(SwarmyTauriError::Polars("not an arrow file".to_string()))
    );
}

#[test]
fn rows_of_cells_without_values() {
    let full = DetailsRow::from_cells(
        Some("2024-01-02".to_string()),
        Some(7),
        Some("Maru".to_string()),
        Some("Goldenaura".to_string()),
        Some("aa".to_string()),
    );
    assert_eq!(full, row("2024-01-02", 7, "Maru", "Goldenaura", "aa"));
    let empty = DetailsRow::from_cells(None, None, None, None, None);
    assert_eq!(empty, row("1970-01-01", 0, "", "Unknown Map", ""));
    let mixed = DetailsRow::from_cells(None, Some(3), None, Some("M".to_string()), None);
    assert_eq!(mixed, row("1970-01-01", 3, "", "M", ""));
    assert_eq!(GameRecord::from_row(&empty).date, ymd(1970, 1, 1));
}
