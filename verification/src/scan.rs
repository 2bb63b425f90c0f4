//! The result of a directory scan and the table that shows it.

use crate::text::{remove_literal, split_at_first, split_once, without_literal};
use vstd::prelude::*;

verus! {

/// What a scan of the replay directory found: the number of files, of
/// replays that could be read, of replays with ability data, and the ten
/// most frequent players and maps with their number of games.
#[derive(Debug, PartialEq, Eq)]
pub struct SC2ReplaysDirStats {
    pub total_files: usize,
    pub total_supported_replays: usize,
    pub ability_supported_replays: usize,
    /// Player names, each with a clan tag and the separator `<sp/>` in front
    /// where the player has a clan.
    pub top_10_players: Vec<(String, usize)>,
    pub top_10_maps: Vec<(String, usize)>,
}

impl SC2ReplaysDirStats {
    /// The result of a scan that found nothing.
    pub open spec fn found_nothing(self) -> bool {
        &&& self.total_files == 0
        &&& self.total_supported_replays == 0
        &&& self.ability_supported_replays == 0
        &&& self.top_10_players@.len() == 0
        &&& self.top_10_maps@.len() == 0
    }
}

impl Default for SC2ReplaysDirStats {
    fn default() -> (s: Self)
        ensures
            s.found_nothing(),
    {
        SC2ReplaysDirStats {
            total_files: 0,
            total_supported_replays: 0,
            ability_supported_replays: 0,
            top_10_players: Vec::new(),
            top_10_maps: Vec::new(),
        }
    }
}

/// One line of the table of players.
#[derive(Debug, PartialEq, Eq)]
pub struct SC2ReplaysDirPlayerEntry {
    /// Rank in the table, counted from 1.
    pub idx: usize,
    pub clan: String,
    pub name: String,
    pub count: usize,
}

/// One line of the table of maps.
#[derive(Debug, PartialEq, Eq)]
pub struct SC2ReplaysDirMapEntry {
    /// Rank in the table, counted from 1.
    pub idx: usize,
    pub title: String,
    pub count: usize,
}

/// The scan result as it is shown.
#[derive(Debug, PartialEq, Eq)]
pub struct SC2ReplaysDirStatsTable {
    pub total_files: usize,
    pub total_supported_replays: usize,
    pub ability_supported_replays: usize,
    pub top_10_players: Vec<SC2ReplaysDirPlayerEntry>,
    pub top_10_maps: Vec<SC2ReplaysDirMapEntry>,
}

/// Mathematical content of a line of the table of players.
pub struct PlayerEntryView {
    pub idx: int,
    pub clan: Seq<char>,
    pub name: Seq<char>,
    pub count: usize,
}

/// Mathematical content of a line of the table of maps.
pub struct MapEntryView {
    pub idx: int,
    pub title: Seq<char>,
    pub count: usize,
}

impl View for SC2ReplaysDirPlayerEntry {
    type V = PlayerEntryView;

    open spec fn view(&self) -> PlayerEntryView {
        PlayerEntryView {
            idx: self.idx as int,
            clan: self.clan@,
            name: self.name@,
            count: self.count,
        }
    }
}

impl View for SC2ReplaysDirMapEntry {
    type V = MapEntryView;

    open spec fn view(&self) -> MapEntryView {
        MapEntryView { idx: self.idx as int, title: self.title@, count: self.count }
    }
}

/// The separator between clan tag and name.
pub open spec fn clan_separator() -> Seq<char> {
    "<sp/>"@
}

/// A clan tag without its escaped angle brackets.
pub open spec fn clean_clan(tag: Seq<char>) -> Seq<char> {
    without_literal(without_literal(tag, "&gt;"@), "&lt;"@)
}

/// The clan and the name of a player as the scan reports them: split at the
/// first separator, the clan cleaned of escaped angle brackets; no clan
/// where there is no separator.
pub open spec fn clan_and_name(reported: Seq<char>) -> (Seq<char>, Seq<char>) {
    match split_at_first(reported, clan_separator()) {
        Some((tag, name)) => (clean_clan(tag), name),
        None => (Seq::<char>::empty(), reported),
    }
}

/// The line of the table of players for the player at a position of the
/// scan result.
pub open spec fn player_entry_at(players: Seq<(String, usize)>, i: int) -> PlayerEntryView {
    PlayerEntryView {
        idx: i + 1,
        clan: clan_and_name(players[i].0@).0,
        name: clan_and_name(players[i].0@).1,
        count: players[i].1,
    }
}

/// The line of the table of maps for the map at a position of the scan
/// result.
pub open spec fn map_entry_at(maps: Seq<(String, usize)>, i: int) -> MapEntryView {
    MapEntryView { idx: i + 1, title: maps[i].0@, count: maps[i].1 }
}

/// Splits a reported player name into clan and name.
pub fn split_clan(reported: &str) -> (r: (String, String))
    ensures
        r.0@ == clan_and_name(reported@).0,
        r.1@ == clan_and_name(reported@).1,
{
    match split_once(reported, "<sp/>") {
        Some((tag, name)) => {
            let without_gt = remove_literal(tag.as_str(), "&gt;");
            let clan = remove_literal(without_gt.as_str(), "&lt;");
            (clan, name)
        },
        None => (String::new(), reported.to_owned()),
    }
}

/// The table of players of a scan result: one line for each player, in the
/// order of the result, ranked from 1.
pub fn player_entries(players: &Vec<(String, usize)>) -> (entries: Vec<SC2ReplaysDirPlayerEntry>)
    ensures
        entries@.len() == players@.len(),
        forall|i: int|
            0 <= i < players@.len() ==> (#[trigger] entries@[i])@ == player_entry_at(players@, i),
{
    let mut entries: Vec<SC2ReplaysDirPlayerEntry> = Vec::new();
    let mut i: usize = 0;
    while i < players.len()
        invariant
            i <= players.len(),
            entries@.len() == i,
            forall|j: int| 0 <= j < i ==> (#[trigger] entries@[j])@ == player_entry_at(players@, j),
        decreases players.len() - i,
    {
        let (clan, name) = split_clan(players[i].0.as_str());
        entries.push(SC2ReplaysDirPlayerEntry { idx: i + 1, clan, name, count: players[i].1 });
        i += 1;
    }
    entries
}

/// The table of maps of a scan result: one line for each map, in the order
/// of the result, ranked from 1.
pub fn map_entries(maps: &Vec<(String, usize)>) -> (entries: Vec<SC2ReplaysDirMapEntry>)
    ensures
        entries@.len() == maps@.len(),
        forall|i: int|
            0 <= i < maps@.len() ==> (#[trigger] entries@[i])@ == map_entry_at(maps@, i),
{
    let mut entries: Vec<SC2ReplaysDirMapEntry> = Vec::new();
    let mut i: usize = 0;
    while i < maps.len()
        invariant
            i <= maps.len(),
            entries@.len() == i,
            forall|j: int| 0 <= j < i ==> (#[trigger] entries@[j])@ == map_entry_at(maps@, j),
        decreases maps.len() - i,
    {
        entries.push(
            SC2ReplaysDirMapEntry { idx: i + 1, title: maps[i].0.clone(), count: maps[i].1 },
        );
        i += 1;
    }
    entries
}

/// `table` shows the scan result `stats`: the same three counts, and the
/// lines of both tables for the players and maps of the result.
pub open spec fn is_table_of(table: SC2ReplaysDirStatsTable, stats: SC2ReplaysDirStats) -> bool {
    &&& table.total_files == stats.total_files
    &&& table.total_supported_replays == stats.total_supported_replays
    &&& table.ability_supported_replays == stats.ability_supported_replays
    &&& table.top_10_players@.len() == stats.top_10_players@.len()
    &&& forall|i: int|
        0 <= i < stats.top_10_players@.len() ==> (#[trigger] table.top_10_players@[i])@
            == player_entry_at(stats.top_10_players@, i)
    &&& table.top_10_maps@.len() == stats.top_10_maps@.len()
    &&& forall|i: int|
        0 <= i < stats.top_10_maps@.len() ==> (#[trigger] table.top_10_maps@[i])@ == map_entry_at(
            stats.top_10_maps@,
            i,
        )
}

impl From<SC2ReplaysDirStats> for SC2ReplaysDirStatsTable {
    /// The table that shows a scan result.
    fn from(stats: SC2ReplaysDirStats) -> (table: SC2ReplaysDirStatsTable)
        ensures
            is_table_of(table, stats),
    {
        SC2ReplaysDirStatsTable {
            total_files: stats.total_files,
            total_supported_replays: stats.total_supported_replays,
            ability_supported_replays: stats.ability_supported_replays,
            top_10_players: player_entries(&stats.top_10_players),
            top_10_maps: map_entries(&stats.top_10_maps),
        }
    }
}

impl vstd::std_specs::convert::FromSpecImpl<SC2ReplaysDirStats> for SC2ReplaysDirStatsTable {
    /// The conversion is stated by `is_table_of`, in the `ensures` of
    /// `from`, and not as one chosen value.
    open spec fn obeys_from_spec() -> bool {
        false
    }

    open spec fn from_spec(stats: SC2ReplaysDirStats) -> SC2ReplaysDirStatsTable {
        arbitrary()
    }
}

} // verus!
