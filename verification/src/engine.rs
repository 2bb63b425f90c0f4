//! The snapshot aggregation engine: from what was found on disk to the
//! statistics of the snapshot or of a map.

use crate::aggregate::{execute, is_earliest, is_latest};
use crate::dates::CalendarDate;
use crate::error::{ErrorKind, SwarmyTauriError};
use crate::laws::{lemma_date_range_ordered, lemma_scope_is_part};
use crate::map_stats::{MapStats, MapStatsQuery};
use crate::plan::{scope, QueryPlan, QueryPlanView};
use crate::records::{dates_in_range, read_records, record_views, GameRecord, GameRecordView};
use crate::snapshot::{
    directory_size, games_played, is_map_stats_of, is_snapshot_stats_of, oversize_cause,
    total_size, PrimaryProbe, SnapshotProbe,
};
use crate::snapshot_stats::{ModifiedTime, SnapshotStats};
use vstd::prelude::*;
use vstd::string::StringExecFns;

verus! {

/// What a probe without failure gives: the directory size, the modification
/// time of the primary file, and its records.
pub struct Measured {
    pub directory_size: u64,
    pub date_modified: ModifiedTime,
    pub records: Vec<GameRecord>,
}

/// Resolves the snapshot subdirectory, sums the sizes of its entries, takes
/// the modification time of the primary file and reads its rows, in this
/// order. What the system reported decides first, a missing subdirectory
/// or primary file; then a size beyond 64 bits; then a primary file that
/// the query engine cannot read.
pub fn measure(probe: &SnapshotProbe) -> (r: Result<Measured, SwarmyTauriError>)
    ensures
        match probe.failure() {
            Some((kind, cause)) => r matches Err(e) && e.spec_kind() == kind && e.spec_detail()
                == cause,
            None => r matches Ok(m) && m.directory_size == total_size(probe.entry_sizes())
                && m.date_modified == probe.date_modified() && record_views(m.records@)
                == probe.records() && dates_in_range(record_views(m.records@)),
        },
{
    match probe {
        SnapshotProbe::Unlisted(cause) => Err(SwarmyTauriError::StdIo(cause.clone())),
        SnapshotProbe::Listed { entry_sizes, primary } => {
            let size = directory_size(entry_sizes);
            match primary {
                PrimaryProbe::Missing(cause) => Err(SwarmyTauriError::StdIo(cause.clone())),
                PrimaryProbe::Unreadable(cause) => match size {
                    None => Err(oversize()),
                    Some(_) => Err(SwarmyTauriError::Polars(cause.clone())),
                },
                PrimaryProbe::Rows { date_modified, rows } => match size {
                    None => Err(oversize()),
                    Some(size) => Ok(
                        Measured {
                            directory_size: size,
                            date_modified: *date_modified,
                            records: read_records(rows),
                        },
                    ),
                },
            }
        },
    }
}

/// The error for a directory whose size does not fit in 64 bits.
fn oversize() -> (e: SwarmyTauriError)
    ensures
        e.spec_kind() == ErrorKind::Other,
        e.spec_detail() == oversize_cause(),
{
    SwarmyTauriError::Other(String::from_str("snapshot directory size exceeds 64 bits"))
}

/// The statistics of a whole snapshot.
///
/// Fails with an I/O error where the snapshot subdirectory or the primary
/// file is missing, and with a query-engine error where the primary file
/// cannot be read; a directory whose size does not fit in 64 bits is
/// refused. With the rows at hand it does not fail on their content: a
/// malformed date counts as the epoch, and no rows at all give zero games
/// and the epoch as both dates.
pub fn try_get_snapshot_metadata(probe: &SnapshotProbe) -> (r: Result<
    SnapshotStats,
    SwarmyTauriError,
>)
    ensures
        match probe.failure() {
            Some((kind, cause)) => r matches Err(e) && e.spec_kind() == kind && e.spec_detail()
                == cause,
            None => {
                let reached = scope(probe.records(), QueryPlanView::whole_snapshot());
                r matches Ok(stats) && is_snapshot_stats_of(
                    stats,
                    total_size(probe.entry_sizes()),
                    probe.date_modified(),
                    reached,
                )
            },
        },
        r matches Ok(stats) ==> stats.min_date.not_after(stats.max_date),
        r matches Ok(stats) ==> (probe.date_modified().wf() ==> stats.wf()),
{
    let measured = match measure(probe) {
        Ok(m) => m,
        Err(e) => {
            return Err(e);
        },
    };
    let plan = QueryPlan::whole_snapshot();
    let ghost reached = scope(record_views(measured.records@), plan@);
    proof {
        lemma_scope_is_part(record_views(measured.records@), plan@);
    }
    match execute(&plan, &measured.records) {
        None => Ok(
            SnapshotStats {
                directory_size: measured.directory_size,
                date_modified: measured.date_modified,
                num_games: 0,
                num_maps: 0,
                min_date: CalendarDate::epoch(),
                max_date: CalendarDate::epoch(),
            },
        ),
        Some(found) => {
            proof {
                lemma_date_range_ordered(found.min_date, found.max_date, reached);
                lemma_extreme_dates_in_range(found.min_date, found.max_date, reached);
            }
            let num_games = games_played(found.distinct_games);
            Ok(
                SnapshotStats {
                    directory_size: measured.directory_size,
                    date_modified: measured.date_modified,
                    num_games,
                    num_maps: 0,
                    min_date: found.min_date,
                    max_date: found.max_date,
                },
            )
        },
    }
}

/// The earliest and the latest date of records whose dates are calendar
/// dates are calendar dates.
proof fn lemma_extreme_dates_in_range(
    min_date: CalendarDate,
    max_date: CalendarDate,
    reached: Seq<GameRecordView>,
)
    requires
        dates_in_range(reached),
        is_earliest(min_date, reached),
        is_latest(max_date, reached),
    ensures
        min_date.in_calendar_range(),
        max_date.in_calendar_range(),
{
    let i = choose|i: int| 0 <= i < reached.len() && (#[trigger] reached[i]).date == min_date;
    let j = choose|j: int| 0 <= j < reached.len() && (#[trigger] reached[j]).date == max_date;
    assert(reached[i].date.in_calendar_range());
    assert(reached[j].date.in_calendar_range());
}

/// The statistics of the first map among the games of a player.
///
/// The rows are narrowed to those whose player contains `player_name`,
/// unless the name is empty; they are grouped by date, file-set identifier,
/// title and cache handles; the first group is aggregated. Fails as
/// `try_get_snapshot_metadata` does. No matching row gives zero games, the
/// epoch as both dates and the title of an unknown map.
pub fn try_get_map_list(probe: &SnapshotProbe, player_name: &str) -> (r: Result<
    MapStats,
    SwarmyTauriError,
>)
    ensures
        match probe.failure() {
            Some((kind, cause)) => r matches Err(e) && e.spec_kind() == kind && e.spec_detail()
                == cause,
            None => {
                let reached = scope(probe.records(), QueryPlanView::map_scoped(player_name@));
                r matches Ok(stats) && is_map_stats_of(
                    stats@,
                    total_size(probe.entry_sizes()),
                    probe.date_modified(),
                    reached,
                )
            },
        },
        r matches Ok(stats) ==> stats.min_date.not_after(stats.max_date),
        r matches Ok(stats) ==> (probe.date_modified().wf() ==> stats@.wf()),
{
    let measured = match measure(probe) {
        Ok(m) => m,
        Err(e) => {
            return Err(e);
        },
    };
    let plan = QueryPlan::map_scoped(player_name);
    let ghost reached = scope(record_views(measured.records@), plan@);
    proof {
        lemma_scope_is_part(record_views(measured.records@), plan@);
    }
    match execute(&plan, &measured.records) {
        None => Ok(
            MapStats {
                directory_size: measured.directory_size,
                date_modified: measured.date_modified,
                num_games: 0,
                title: String::from_str("Unknown Map"),
                cache_handles: String::new(),
                min_date: CalendarDate::epoch(),
                max_date: CalendarDate::epoch(),
            },
        ),
        Some(found) => {
            proof {
                lemma_date_range_ordered(found.min_date, found.max_date, reached);
                lemma_extreme_dates_in_range(found.min_date, found.max_date, reached);
            }
            let num_games = games_played(found.distinct_games);
            Ok(
                MapStats {
                    directory_size: measured.directory_size,
                    date_modified: measured.date_modified,
                    num_games,
                    title: found.title,
                    cache_handles: found.cache_handles,
                    min_date: found.min_date,
                    max_date: found.max_date,
                },
            )
        },
    }
}

/// The statistics of the map that a query asks for: the map-scoped
/// aggregation of the snapshot below the replay path of the query, narrowed
/// to the games of the player of the query unless that name is empty.
///
/// `probe` is what was found of the snapshot below `query.replay_path`. A
/// query reads the snapshot and never creates it: a missing subdirectory or
/// primary file is an I/O error, as for every other aggregation. The map
/// title of the query takes no part in any stage.
pub fn try_query_map_stats(query: &MapStatsQuery, probe: &SnapshotProbe) -> (r: Result<
    MapStats,
    SwarmyTauriError,
>)
    ensures
        match probe.failure() {
            Some((kind, cause)) => r matches Err(e) && e.spec_kind() == kind && e.spec_detail()
                == cause,
            None => {
                let reached = scope(
                    probe.records(),
                    QueryPlanView::map_scoped(query@.player_name),
                );
                r matches Ok(stats) && is_map_stats_of(
                    stats@,
                    total_size(probe.entry_sizes()),
                    probe.date_modified(),
                    reached,
                )
            },
        },
        r matches Ok(stats) ==> stats.min_date.not_after(stats.max_date),
        r matches Ok(stats) ==> (probe.date_modified().wf() ==> stats@.wf()),
{
    try_get_map_list(probe, query.player_name.as_str())
}

} // verus!
