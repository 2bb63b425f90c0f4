//! Statistics of a whole snapshot.

use crate::dates::CalendarDate;
use vstd::prelude::*;

verus! {

/// A modification time as whole seconds and nanoseconds since the start of
/// 1970 (UTC).
#[derive(Debug, Clone, Copy, PartialEq, Eq, Hash, Structural)]
pub struct ModifiedTime {
    pub secs_since_epoch: u64,
    pub nanos_since_epoch: u32,
}

impl ModifiedTime {
    /// The nanoseconds stay below one second.
    pub open spec fn wf(self) -> bool {
        self.nanos_since_epoch < 1_000_000_000
    }

    pub open spec fn spec_unix_epoch() -> ModifiedTime {
        ModifiedTime { secs_since_epoch: 0, nanos_since_epoch: 0 }
    }

    pub fn unix_epoch() -> (t: ModifiedTime)
        ensures
            t == Self::spec_unix_epoch(),
            t.wf(),
    {
        ModifiedTime { secs_since_epoch: 0, nanos_since_epoch: 0 }
    }
}

/// The size of the snapshot files, the modification time of the primary
/// file, the number of games and maps, and the range of dates covered.
#[derive(Debug, Clone, Copy, PartialEq, Eq, Structural)]
pub struct SnapshotStats {
    /// Total byte length of the entries directly inside the snapshot
    /// directory.
    pub directory_size: u64,
    /// Modification time of the primary snapshot file.
    pub date_modified: ModifiedTime,
    pub num_games: u64,
    pub num_maps: u32,
    pub min_date: CalendarDate,
    pub max_date: CalendarDate,
}

impl SnapshotStats {
    /// The date range is ordered and made of calendar dates, and the
    /// modification time is well formed.
    pub open spec fn wf(self) -> bool {
        &&& self.min_date.not_after(self.max_date)
        &&& self.min_date.in_calendar_range()
        &&& self.max_date.in_calendar_range()
        &&& self.date_modified.wf()
    }

    /// The statistics of nothing: zero counts, the epoch for every time.
    pub open spec fn spec_default() -> SnapshotStats {
        SnapshotStats {
            directory_size: 0,
            date_modified: ModifiedTime::spec_unix_epoch(),
            num_games: 0,
            num_maps: 0,
            min_date: CalendarDate::spec_epoch(),
            max_date: CalendarDate::spec_epoch(),
        }
    }
}

impl Default for SnapshotStats {
    fn default() -> (s: Self)
        ensures
            s == SnapshotStats::spec_default(),
            s.wf(),
    {
        SnapshotStats {
            directory_size: 0,
            date_modified: ModifiedTime::unix_epoch(),
            num_games: 0,
            num_maps: 0,
            min_date: CalendarDate::epoch(),
            max_date: CalendarDate::epoch(),
        }
    }
}

} // verus!
