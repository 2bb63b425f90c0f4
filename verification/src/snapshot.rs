//! What was found on disk for a snapshot, and the statistics that follow
//! from it.

use crate::aggregate::{game_ids, is_earliest, is_latest};
use crate::dates::CalendarDate;
use crate::error::ErrorKind;
use crate::map_stats::MapStatsView;
use crate::records::{row_records, DetailsRow, GameRecordView};
use crate::snapshot_stats::{ModifiedTime, SnapshotStats};
use vstd::prelude::*;
use vstd::string::StringExecFns;

verus! {

/// Name of the snapshot subdirectory below the replay directory.
pub const SNAPSHOT_DIR: &'static str = "ipcs";

/// Name of the primary snapshot file, the per-game metadata.
pub const DETAILS_IPC: &'static str = "details.ipc";

/// Name of the initial-state snapshot file.
pub const INIT_DATA_IPC: &'static str = "init_data.ipc";

/// Name of the per-unit snapshot file.
pub const UNIT_BORN_IPC: &'static str = "unit_born.ipc";

/// The path of the snapshot subdirectory of a replay directory.
pub open spec fn spec_snapshot_dir(replay_path: Seq<char>) -> Seq<char> {
    replay_path + "/"@ + SNAPSHOT_DIR@ + "/"@
}

/// The path of the primary snapshot file of a replay directory.
pub open spec fn spec_primary_file(replay_path: Seq<char>) -> Seq<char> {
    spec_snapshot_dir(replay_path) + DETAILS_IPC@
}

/// The path of the snapshot subdirectory: the replay directory, a slash,
/// the fixed name and a closing slash.
pub fn snapshot_dir(replay_path: &str) -> (path: String)
    ensures
        path@ == spec_snapshot_dir(replay_path@),
{
    String::from_str(replay_path).concat("/").concat(SNAPSHOT_DIR).concat("/")
}

/// The path of the primary snapshot file inside the snapshot subdirectory.
pub fn primary_file(replay_path: &str) -> (path: String)
    ensures
        path@ == spec_primary_file(replay_path@),
{
    snapshot_dir(replay_path).concat(DETAILS_IPC)
}

/// The sum of a list of byte lengths.
pub open spec fn total_size(sizes: Seq<u64>) -> nat
    decreases sizes.len(),
{
    if sizes.len() == 0 {
        0
    } else {
        total_size(sizes.drop_last()) + sizes.last() as nat
    }
}

/// A prefix of a list of byte lengths sums to no more than the list.
pub proof fn lemma_total_size_prefix(sizes: Seq<u64>, n: int)
    requires
        0 <= n <= sizes.len(),
    ensures
        total_size(sizes.take(n)) <= total_size(sizes),
    decreases sizes.len() - n,
{
    if n < sizes.len() {
        lemma_total_size_prefix(sizes, n + 1);
        assert(sizes.take(n + 1).drop_last() =~= sizes.take(n));
    } else {
        assert(sizes.take(n) =~= sizes);
    }
}

/// The size of a directory: the exact sum of the byte lengths of its
/// entries, or `None` where the sum does not fit in 64 bits.
pub fn directory_size(entry_sizes: &Vec<u64>) -> (r: Option<u64>)
    ensures
        match r {
            Some(total) => total == total_size(entry_sizes@),
            None => total_size(entry_sizes@) > u64::MAX,
        },
{
    let mut total: u64 = 0;
    let mut i: usize = 0;
    while i < entry_sizes.len()
        invariant
            i <= entry_sizes.len(),
            total == total_size(entry_sizes@.take(i as int)),
        decreases entry_sizes.len() - i,
    {
        proof {
            assert(entry_sizes@.take(i + 1).drop_last() =~= entry_sizes@.take(i as int));
        }
        match total.checked_add(entry_sizes[i]) {
            Some(sum) => {
                total = sum;
            },
            None => {
                proof {
                    lemma_total_size_prefix(entry_sizes@, i + 1);
                }
                return None;
            },
        }
        i += 1;
    }
    assert(entry_sizes@.take(entry_sizes@.len() as int) =~= entry_sizes@);
    Some(total)
}

/// What was found of the primary snapshot file.
#[derive(Debug, PartialEq, Eq)]
pub enum PrimaryProbe {
    /// The file is missing or its metadata cannot be read; the cause as the
    /// system described it.
    Missing(String),
    /// The file is there and the query engine cannot read it; the cause as
    /// the engine described it.
    Unreadable(String),
    /// The modification time of the file and its rows.
    Rows { date_modified: ModifiedTime, rows: Vec<DetailsRow> },
}

/// What was found of the snapshot subdirectory.
#[derive(Debug, PartialEq, Eq)]
pub enum SnapshotProbe {
    /// The subdirectory is absent or cannot be listed; the cause as the
    /// system described it.
    Unlisted(String),
    /// The byte lengths of the entries directly inside the subdirectory,
    /// and what was found of the primary file.
    Listed { entry_sizes: Vec<u64>, primary: PrimaryProbe },
}

/// The cause reported for a directory whose size does not fit in 64 bits.
pub open spec fn oversize_cause() -> Seq<char> {
    "snapshot directory size exceeds 64 bits"@
}

impl SnapshotProbe {
    /// The failure that the probe stands for, with its class and cause: an
    /// I/O error for a subdirectory that is not listed or a primary file that
    /// is missing, a query-engine error for a primary file that cannot be
    /// read. What the system reported comes first: a directory whose size
    /// does not fit in 64 bits is refused only where the primary file is
    /// there. `None` where the rows are at hand.
    pub open spec fn failure(self) -> Option<(ErrorKind, Seq<char>)> {
        match self {
            SnapshotProbe::Unlisted(cause) => Some((ErrorKind::Io, cause@)),
            SnapshotProbe::Listed { entry_sizes, primary } => {
                match primary {
                    PrimaryProbe::Missing(cause) => Some((ErrorKind::Io, cause@)),
                    PrimaryProbe::Unreadable(cause) => {
                        if total_size(entry_sizes@) > u64::MAX {
                            Some((ErrorKind::Other, oversize_cause()))
                        } else {
                            Some((ErrorKind::Polars, cause@))
                        }
                    },
                    PrimaryProbe::Rows { .. } => {
                        if total_size(entry_sizes@) > u64::MAX {
                            Some((ErrorKind::Other, oversize_cause()))
                        } else {
                            None
                        }
                    },
                }
            },
        }
    }

    /// The byte lengths of the listed entries.
    pub open spec fn entry_sizes(self) -> Seq<u64> {
        match self {
            SnapshotProbe::Listed { entry_sizes, .. } => entry_sizes@,
            _ => Seq::<u64>::empty(),
        }
    }

    /// The modification time of the primary file.
    pub open spec fn date_modified(self) -> ModifiedTime {
        match self {
            SnapshotProbe::Listed { primary: PrimaryProbe::Rows { date_modified, .. }, .. } => {
                date_modified
            },
            _ => ModifiedTime::spec_unix_epoch(),
        }
    }

    /// The records of the primary file.
    pub open spec fn records(self) -> Seq<GameRecordView> {
        match self {
            SnapshotProbe::Listed { primary: PrimaryProbe::Rows { rows, .. }, .. } => {
                row_records(rows@)
            },
            _ => Seq::<GameRecordView>::empty(),
        }
    }
}

/// The game count reported for the records that reached the aggregate
/// stage: zero for none, else the number of distinct file-set identifiers
/// plus one.
pub open spec fn games_counted(reached: Seq<GameRecordView>) -> nat {
    if reached.len() == 0 {
        0
    } else {
        game_ids(reached).len() + 1
    }
}

/// The game count as the statistics hold it: the count itself, and the
/// largest 64-bit number in place of a count beyond it.
pub open spec fn games_reported(reached: Seq<GameRecordView>) -> u64 {
    if games_counted(reached) > u64::MAX {
        u64::MAX
    } else {
        games_counted(reached) as u64
    }
}

/// `stats` are the statistics of a snapshot with the given directory size
/// and modification time whose aggregate stage was reached by `reached`:
/// for no record zero games and the epoch as both dates; else the game
/// count and the earliest and latest date of the records.
pub open spec fn is_snapshot_stats_of(
    stats: SnapshotStats,
    directory_size: nat,
    date_modified: ModifiedTime,
    reached: Seq<GameRecordView>,
) -> bool {
    &&& stats.directory_size == directory_size
    &&& stats.date_modified == date_modified
    &&& stats.num_maps == 0
    &&& stats.num_games == games_reported(reached)
    &&& if reached.len() == 0 {
        &&& stats.min_date == CalendarDate::spec_epoch()
        &&& stats.max_date == CalendarDate::spec_epoch()
    } else {
        &&& is_earliest(stats.min_date, reached)
        &&& is_latest(stats.max_date, reached)
    }
}

/// The title reported where no record reached the aggregate stage.
pub open spec fn unknown_map_title() -> Seq<char> {
    "Unknown Map"@
}

/// `stats` are the statistics of the map whose records are `reached`: as
/// for a snapshot, with the title and cache handles of the first record; for
/// no record the title of an unknown map and empty cache handles.
pub open spec fn is_map_stats_of(
    stats: MapStatsView,
    directory_size: nat,
    date_modified: ModifiedTime,
    reached: Seq<GameRecordView>,
) -> bool {
    &&& stats.directory_size == directory_size
    &&& stats.date_modified == date_modified
    &&& stats.num_games == games_reported(reached)
    &&& if reached.len() == 0 {
        &&& stats.min_date == CalendarDate::spec_epoch()
        &&& stats.max_date == CalendarDate::spec_epoch()
        &&& stats.title == unknown_map_title()
        &&& stats.cache_handles == Seq::<char>::empty()
    } else {
        &&& is_earliest(stats.min_date, reached)
        &&& is_latest(stats.max_date, reached)
        &&& stats.title == reached[0].title
        &&& stats.cache_handles == reached[0].cache_handles
    }
}

/// The game count for a number of distinct file-set identifiers among at
/// least one record: that number plus one, and the largest 64-bit number
/// where that does not fit.
pub fn games_played(distinct_games: usize) -> (n: u64)
    ensures
        n == (if distinct_games + 1 > u64::MAX {
            u64::MAX
        } else {
            (distinct_games + 1) as u64
        }),
{
    let distinct: u64 = distinct_games as u64;
    match distinct.checked_add(1) {
        Some(n) => n,
        None => u64::MAX,
    }
}

} // verus!
