//! The rows of the primary snapshot file, as handed over by whoever read the
//! file, and the game records that the aggregation works on.

use crate::dates::{date_of_text, date_or_epoch, CalendarDate};
use vstd::prelude::*;
use vstd::string::StringExecFns;

verus! {

/// One row of the primary snapshot file: the event time formatted as
/// `YYYY-MM-DD`, the file-set identifier of the game, the player, the map
/// title and the identity of the map's assets.
#[derive(Debug, PartialEq, Eq)]
pub struct DetailsRow {
    pub ext_date: String,
    pub ext_fs_id: u64,
    pub player: String,
    pub title: String,
    pub cache_handles: String,
}

/// A row whose date has been read.
#[derive(Debug, PartialEq, Eq)]
pub struct GameRecord {
    pub date: CalendarDate,
    pub fs_id: u64,
    pub player: String,
    pub title: String,
    pub cache_handles: String,
}

/// Mathematical content of a `GameRecord`.
pub struct GameRecordView {
    pub date: CalendarDate,
    pub fs_id: u64,
    pub player: Seq<char>,
    pub title: Seq<char>,
    pub cache_handles: Seq<char>,
}

impl View for GameRecord {
    type V = GameRecordView;

    open spec fn view(&self) -> GameRecordView {
        GameRecordView {
            date: self.date,
            fs_id: self.fs_id,
            player: self.player@,
            title: self.title@,
            cache_handles: self.cache_handles@,
        }
    }
}

impl Clone for GameRecord {
    fn clone(&self) -> (r: Self)
        ensures
            r@ == self@,
    {
        GameRecord {
            date: self.date,
            fs_id: self.fs_id,
            player: self.player.clone(),
            title: self.title.clone(),
            cache_handles: self.cache_handles.clone(),
        }
    }
}

impl Clone for DetailsRow {
    fn clone(&self) -> (r: Self)
        ensures
            r.record() == self.record(),
            r.ext_date@ == self.ext_date@,
    {
        DetailsRow {
            ext_date: self.ext_date.clone(),
            ext_fs_id: self.ext_fs_id,
            player: self.player.clone(),
            title: self.title.clone(),
            cache_handles: self.cache_handles.clone(),
        }
    }
}

/// The text of a cell of the primary file: its own text, or the given text
/// where the cell holds no value.
pub open spec fn cell_text(cell: Option<String>, missing: Seq<char>) -> Seq<char> {
    match cell {
        Some(text) => text@,
        None => missing,
    }
}

/// The text of a cell, with a fixed text in place of a cell without a value.
fn text_of_cell(cell: Option<String>, missing: &str) -> (text: String)
    ensures
        text@ == cell_text(cell, missing@),
{
    match cell {
        Some(text) => text,
        None => String::from_str(missing),
    }
}

impl DetailsRow {
    /// Makes a row of the cells that were read, any of which may hold no
    /// value. A date without a value is the epoch, a file-set identifier
    /// without a value is zero, a title without a value is that of an
    /// unknown map, and a player or cache handles without a value are empty.
    pub fn from_cells(
        ext_date: Option<String>,
        ext_fs_id: Option<u64>,
        player: Option<String>,
        title: Option<String>,
        cache_handles: Option<String>,
    ) -> (row: DetailsRow)
        ensures
            row.ext_date@ == cell_text(ext_date, "1970-01-01"@),
            row.ext_fs_id == (match ext_fs_id {
                Some(id) => id,
                None => 0,
            }),
            row.player@ == cell_text(player, Seq::<char>::empty()),
            row.title@ == cell_text(title, "Unknown Map"@),
            row.cache_handles@ == cell_text(cache_handles, Seq::<char>::empty()),
    {
        let ext_fs_id: u64 = match ext_fs_id {
            Some(id) => id,
            None => 0,
        };
        let player = match player {
            Some(text) => text,
            None => String::new(),
        };
        let cache_handles = match cache_handles {
            Some(text) => text,
            None => String::new(),
        };
        DetailsRow {
            ext_date: text_of_cell(ext_date, "1970-01-01"),
            ext_fs_id,
            player,
            title: text_of_cell(title, "Unknown Map"),
            cache_handles,
        }
    }

    /// The record that the row stands for: its date is the date that the
    /// text reads as, or the epoch where the text is malformed.
    pub open spec fn record(self) -> GameRecordView {
        GameRecordView {
            date: date_of_text(self.ext_date@),
            fs_id: self.ext_fs_id,
            player: self.player@,
            title: self.title@,
            cache_handles: self.cache_handles@,
        }
    }
}

impl GameRecord {
    /// Puts an already read date together with the other fields of a row.
    pub fn with_date(date: CalendarDate, row: &DetailsRow) -> (r: GameRecord)
        ensures
            r@ == (GameRecordView {
                date,
                fs_id: row.ext_fs_id,
                player: row.player@,
                title: row.title@,
                cache_handles: row.cache_handles@,
            }),
    {
        GameRecord {
            date,
            fs_id: row.ext_fs_id,
            player: row.player.clone(),
            title: row.title.clone(),
            cache_handles: row.cache_handles.clone(),
        }
    }

    /// Reads the date of a row. A malformed date does not fail the row: it
    /// becomes the epoch.
    pub fn from_row(row: &DetailsRow) -> (r: GameRecord)
        ensures
            r@ == row.record(),
            r.date.in_calendar_range(),
    {
        let date = date_or_epoch(row.ext_date.as_str());
        GameRecord::with_date(date, row)
    }
}

/// The contents of a list of records.
pub open spec fn record_views(records: Seq<GameRecord>) -> Seq<GameRecordView> {
    records.map_values(|r: GameRecord| r@)
}

/// The records that a list of rows stands for.
pub open spec fn row_records(rows: Seq<DetailsRow>) -> Seq<GameRecordView> {
    rows.map_values(|r: DetailsRow| r.record())
}

/// Every date of the records is a calendar date.
pub open spec fn dates_in_range(records: Seq<GameRecordView>) -> bool {
    forall|i: int| 0 <= i < records.len() ==> (#[trigger] records[i]).date.in_calendar_range()
}

/// Reads the dates of all rows, in order.
pub fn read_records(rows: &Vec<DetailsRow>) -> (records: Vec<GameRecord>)
    ensures
        record_views(records@) == row_records(rows@),
        dates_in_range(record_views(records@)),
{
    let mut records: Vec<GameRecord> = Vec::new();
    let mut i: usize = 0;
    while i < rows.len()
        invariant
            i <= rows.len(),
            records.len() == i,
            forall|j: int| 0 <= j < i ==> (#[trigger] records@[j])@ == rows@[j].record(),
            forall|j: int| 0 <= j < i ==> (#[trigger] records@[j]).date.in_calendar_range(),
        decreases rows.len() - i,
    {
        let record = GameRecord::from_row(&rows[i]);
        records.push(record);
        i += 1;
    }
    assert(record_views(records@) =~= row_records(rows@));
    records
}

} // verus!
