//! Statistics scoped to one map, and the query that asks for them.

use crate::dates::CalendarDate;
use crate::snapshot_stats::ModifiedTime;
use vstd::prelude::*;

verus! {

/// Statistics of one map. Two maps with the same title and different cache
/// handles are different maps, for instance two versions of one map.
#[derive(Debug, Clone, PartialEq, Eq)]
pub struct MapStats {
    pub directory_size: u64,
    pub date_modified: ModifiedTime,
    pub num_games: u64,
    pub title: String,
    /// Opaque identity of the map's assets.
    pub cache_handles: String,
    pub min_date: CalendarDate,
    pub max_date: CalendarDate,
}

/// Mathematical content of a `MapStats`.
pub struct MapStatsView {
    pub directory_size: u64,
    pub date_modified: ModifiedTime,
    pub num_games: u64,
    pub title: Seq<char>,
    pub cache_handles: Seq<char>,
    pub min_date: CalendarDate,
    pub max_date: CalendarDate,
}

impl View for MapStats {
    type V = MapStatsView;

    open spec fn view(&self) -> MapStatsView {
        MapStatsView {
            directory_size: self.directory_size,
            date_modified: self.date_modified,
            num_games: self.num_games,
            title: self.title@,
            cache_handles: self.cache_handles@,
            min_date: self.min_date,
            max_date: self.max_date,
        }
    }
}

impl MapStatsView {
    /// The date range is ordered and made of calendar dates, and the
    /// modification time is well formed.
    pub open spec fn wf(self) -> bool {
        &&& self.min_date.not_after(self.max_date)
        &&& self.min_date.in_calendar_range()
        &&& self.max_date.in_calendar_range()
        &&& self.date_modified.wf()
    }

    /// The statistics of nothing.
    pub open spec fn empty() -> MapStatsView {
        MapStatsView {
            directory_size: 0,
            date_modified: ModifiedTime::spec_unix_epoch(),
            num_games: 0,
            title: Seq::<char>::empty(),
            cache_handles: Seq::<char>::empty(),
            min_date: CalendarDate::spec_epoch(),
            max_date: CalendarDate::spec_epoch(),
        }
    }
}

impl Default for MapStats {
    fn default() -> (s: Self)
        ensures
            s@ == MapStatsView::empty(),
            s@.wf(),
    {
        MapStats {
            directory_size: 0,
            date_modified: ModifiedTime::unix_epoch(),
            num_games: 0,
            title: String::new(),
            cache_handles: String::new(),
            min_date: CalendarDate::epoch(),
            max_date: CalendarDate::epoch(),
        }
    }
}

/// The filter of a map-scoped aggregation. An empty `player_name` means that
/// games are not filtered by player.
#[derive(Debug, Clone, PartialEq, Eq)]
pub struct MapStatsQuery {
    /// The root directory of the replays.
    pub replay_path: String,
    pub map_title: String,
    /// A player that must have played in a game for it to count.
    pub player_name: String,
}

/// Mathematical content of a `MapStatsQuery`.
pub struct MapStatsQueryView {
    pub replay_path: Seq<char>,
    pub map_title: Seq<char>,
    pub player_name: Seq<char>,
}

impl View for MapStatsQuery {
    type V = MapStatsQueryView;

    open spec fn view(&self) -> MapStatsQueryView {
        MapStatsQueryView {
            replay_path: self.replay_path@,
            map_title: self.map_title@,
            player_name: self.player_name@,
        }
    }
}

impl MapStatsQuery {
    /// Whether the query narrows the games to those of one player.
    pub fn filters_by_player(&self) -> (b: bool)
        ensures
            b == (self@.player_name.len() > 0),
    {
        !self.player_name.as_str().is_empty()
    }
}

impl Default for MapStatsQuery {
    fn default() -> (q: Self)
        ensures
            q@.replay_path.len() == 0,
            q@.map_title.len() == 0,
            q@.player_name.len() == 0,
    {
        MapStatsQuery {
            replay_path: String::new(),
            map_title: String::new(),
            player_name: String::new(),
        }
    }
}

/// One line of a list of maps: the title, the number of games played on the
/// map, and the identity of its assets.
#[derive(Debug, Clone, PartialEq, Eq)]
pub struct MapListEntry {
    pub title: String,
    pub count: usize,
    pub cache_stats: String,
}

} // verus!
