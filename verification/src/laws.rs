//! What holds of every aggregation, proved from the meaning of the stages.

use crate::aggregate::{fs_ids, game_ids, is_earliest, is_latest};
use crate::dates::CalendarDate;
use crate::dispatch::WorkKind;
use crate::error::{ErrorKind, SwarmyTauriError};
use crate::gateway::{is_envelope_of, spec_failure_context};
use crate::response::ApiResponseView;
use crate::plan::{first_group, keeps, kept, same_map_identity, scope, QueryPlanView};
use crate::records::{dates_in_range, GameRecordView};
use crate::snapshot::{
    games_counted, games_reported, is_snapshot_stats_of, total_size, PrimaryProbe,
    SnapshotProbe,
};
use crate::snapshot_stats::{ModifiedTime, SnapshotStats};
use vstd::prelude::*;

verus! {

/// Whenever at least one record reaches the aggregate stage, the earliest
/// date is not after the latest.
pub proof fn lemma_date_range_ordered(
    min_date: CalendarDate,
    max_date: CalendarDate,
    reached: Seq<GameRecordView>,
)
    requires
        reached.len() >= 1,
        is_earliest(min_date, reached),
        is_latest(max_date, reached),
    ensures
        min_date.not_after(max_date),
{
    let first = reached[0];
    assert(min_date.not_after(first.date));
    assert(first.date.not_after(max_date));
}

/// The earliest date of a list of records is one date only, and so is the
/// latest.
pub proof fn lemma_extremes_unique(
    a: CalendarDate,
    b: CalendarDate,
    reached: Seq<GameRecordView>,
)
    ensures
        is_earliest(a, reached) && is_earliest(b, reached) ==> a == b,
        is_latest(a, reached) && is_latest(b, reached) ==> a == b,
{
    if is_earliest(a, reached) && is_earliest(b, reached) {
        let i = choose|i: int| 0 <= i < reached.len() && (#[trigger] reached[i]).date == a;
        let j = choose|j: int| 0 <= j < reached.len() && (#[trigger] reached[j]).date == b;
        assert(a.not_after(reached[j].date));
        assert(b.not_after(reached[i].date));
    }
    if is_latest(a, reached) && is_latest(b, reached) {
        let i = choose|i: int| 0 <= i < reached.len() && (#[trigger] reached[i]).date == a;
        let j = choose|j: int| 0 <= j < reached.len() && (#[trigger] reached[j]).date == b;
        assert(reached[j].date.not_after(a));
        assert(reached[i].date.not_after(b));
    }
}

/// The statistics of a snapshot are determined by its directory size, its
/// modification time and the records that reached the aggregate stage.
pub proof fn lemma_snapshot_stats_unique(
    a: SnapshotStats,
    b: SnapshotStats,
    directory_size: nat,
    date_modified: ModifiedTime,
    reached: Seq<GameRecordView>,
)
    requires
        is_snapshot_stats_of(a, directory_size, date_modified, reached),
        is_snapshot_stats_of(b, directory_size, date_modified, reached),
    ensures
        a == b,
{
    lemma_extremes_unique(a.min_date, b.min_date, reached);
    lemma_extremes_unique(a.max_date, b.max_date, reached);
}

/// Without a filter stage every record passes, in its place.
pub proof fn lemma_no_filter_keeps_all(records: Seq<GameRecordView>)
    ensures
        kept(records, None) == records,
    decreases records.len(),
{
    reveal(Seq::filter);
    if records.len() > 0 {
        lemma_no_filter_keeps_all(records.drop_last());
        assert(records.drop_last().push(records.last()) =~= records);
    }
}

/// A whole-snapshot plan aggregates all records.
pub proof fn lemma_whole_snapshot_scope(records: Seq<GameRecordView>)
    ensures
        scope(records, QueryPlanView::whole_snapshot()) == records,
{
    lemma_no_filter_keeps_all(records);
}

/// Every record that reaches the aggregate stage is one of the records that
/// the plan was run on.
pub proof fn lemma_scope_is_part(records: Seq<GameRecordView>, plan: QueryPlanView)
    ensures
        forall|i: int|
            0 <= i < scope(records, plan).len() ==> records.contains(
                #[trigger] scope(records, plan)[i],
            ),
        dates_in_range(records) ==> dates_in_range(scope(records, plan)),
{
    let passed = kept(records, plan.player_filter);
    let reached = scope(records, plan);
    assert forall|i: int| 0 <= i < reached.len() implies records.contains(
        #[trigger] reached[i],
    ) by {
        let r = reached[i];
        if plan.group_by_map {
            if passed.len() > 0 {
                passed.lemma_filter_contains_rev(
                    |x: GameRecordView| same_map_identity(x, passed[0]),
                    r,
                );
            }
        }
        assert(passed.contains(r));
        records.lemma_filter_contains_rev(|x: GameRecordView| keeps(plan.player_filter, x), r);
    }
    if dates_in_range(records) {
        assert forall|i: int| 0 <= i < reached.len() implies (
        #[trigger] reached[i]).date.in_calendar_range() by {
            let r = reached[i];
            assert(records.contains(r));
            let k = choose|k: int| 0 <= k < records.len() && records[k] == r;
            assert(records[k].date.in_calendar_range());
        }
    }
}

/// The identifiers of a part of the records are among the identifiers of
/// the records, so they are no more in number.
pub proof fn lemma_part_has_no_more_games(part: Seq<GameRecordView>, whole: Seq<GameRecordView>)
    requires
        forall|i: int| 0 <= i < part.len() ==> whole.contains(#[trigger] part[i]),
    ensures
        game_ids(part).subset_of(game_ids(whole)),
        game_ids(part).len() <= game_ids(whole).len(),
{
    assert forall|id: u64| game_ids(part).contains(id) implies game_ids(whole).contains(id) by {
        let i = choose|i: int| 0 <= i < fs_ids(part).len() && fs_ids(part)[i] == id;
        assert(whole.contains(part[i]));
        let k = choose|k: int| 0 <= k < whole.len() && whole[k] == part[i];
        assert(fs_ids(whole)[k] == id);
    }
    vstd::seq_lib::seq_to_set_is_finite(fs_ids(whole));
    vstd::set_lib::lemma_len_subset(game_ids(part), game_ids(whole));
}

/// The first group holds its first record and has one file-set identifier.
pub proof fn lemma_first_group_is_one_game(records: Seq<GameRecordView>)
    requires
        records.len() > 0,
    ensures
        first_group(records).len() > 0,
        first_group(records)[0] == records[0],
        game_ids(first_group(records)) == set![records[0].fs_id],
        game_ids(first_group(records)).len() == 1,
{
    let same = |r: GameRecordView| same_map_identity(r, records[0]);
    let group = first_group(records);
    lemma_first_passing_leads(records, same);
    assert forall|i: int| 0 <= i < group.len() implies (#[trigger] group[i]).fs_id
        == records[0].fs_id by {
        records.lemma_filter_pred(same, i);
    }
    assert(fs_ids(group)[0] == records[0].fs_id);
    assert(game_ids(group) =~= set![records[0].fs_id]) by {
        assert forall|id: u64| game_ids(group).contains(id) implies id == records[0].fs_id by {
            let i = choose|i: int| 0 <= i < fs_ids(group).len() && fs_ids(group)[i] == id;
            assert(group[i].fs_id == records[0].fs_id);
        }
    }
}

/// Where the first element passes a filter, it is the first of what passes.
pub proof fn lemma_first_passing_leads(
    records: Seq<GameRecordView>,
    pred: spec_fn(GameRecordView) -> bool,
)
    requires
        records.len() > 0,
        pred(records[0]),
    ensures
        records.filter(pred).len() > 0,
        records.filter(pred)[0] == records[0],
    decreases records.len(),
{
    reveal(Seq::filter);
    if records.len() > 1 {
        lemma_first_passing_leads(records.drop_last(), pred);
    } else {
        assert(records.drop_last().filter(pred) =~= Seq::<GameRecordView>::empty());
    }
}

/// A filter by player never increases the game count: for every list of
/// records and every plan with a filter stage, the count is no larger than
/// that of the same plan without the filter stage, as a number and as the
/// statistics hold it.
pub proof fn lemma_filter_never_adds_games(records: Seq<GameRecordView>, plan: QueryPlanView)
    ensures
        games_counted(scope(records, plan)) <= games_counted(scope(records, plan.unfiltered())),
        games_reported(scope(records, plan)) <= games_reported(
            scope(records, plan.unfiltered()),
        ),
{
    let filtered = kept(records, plan.player_filter);
    lemma_no_filter_keeps_all(records);
    assert forall|i: int| 0 <= i < filtered.len() implies records.contains(
        #[trigger] filtered[i],
    ) by {
        records.lemma_filter_contains_rev(
            |x: GameRecordView| keeps(plan.player_filter, x),
            filtered[i],
        );
    }
    if plan.group_by_map {
        if filtered.len() > 0 {
            assert(records.contains(filtered[0]));
            lemma_first_group_is_one_game(filtered);
            lemma_first_group_is_one_game(records);
        } else {
            assert(first_group(filtered).len() == 0);
        }
    } else {
        lemma_part_has_no_more_games(filtered, records);
        if filtered.len() > 0 {
            assert(records.contains(filtered[0]));
        }
    }
}

/// The snapshot subdirectory is absent, or it is there and the primary file
/// is missing, whatever else the subdirectory holds; `cause` is what the
/// system said of it.
pub open spec fn is_missing(probe: SnapshotProbe, cause: Seq<char>) -> bool {
    match probe {
        SnapshotProbe::Unlisted(c) => c@ == cause,
        SnapshotProbe::Listed { primary: PrimaryProbe::Missing(c), .. } => c@ == cause,
        _ => false,
    }
}

/// A query on a snapshot whose subdirectory or primary file is missing is
/// answered by a complete envelope that is not successful and whose message
/// names the I/O error: for every error `e` that the engine may return for
/// such a probe, and every envelope that the gateway may build for it.
pub proof fn lemma_missing_snapshot_is_an_io_failure(
    probe: SnapshotProbe,
    cause: Seq<char>,
    e: SwarmyTauriError,
    kind: WorkKind,
    duration_ms: u64,
    response: ApiResponseView,
)
    requires
        is_missing(probe, cause),
        probe.failure() matches Some((class, detail)) && e.spec_kind() == class && e.spec_detail()
            == detail,
        is_envelope_of(response, kind, Err(e), duration_ms),
    ensures
        probe.failure() == Some((ErrorKind::Io, cause)),
        !response.meta.success,
        response.meta.is_complete,
        response.meta.duration_ms == duration_ms,
        response.message == spec_failure_context(kind) + ": "@ + ("StdIoError: "@ + cause),
{
}

/// The primary file of the probe is there and its rows were read.
pub open spec fn has_rows(probe: SnapshotProbe) -> bool {
    probe matches SnapshotProbe::Listed { primary: PrimaryProbe::Rows { .. }, .. }
}

/// For every snapshot subdirectory whose primary file was read and whose
/// entries sum to a size of 64 bits, the query owes statistics, and their
/// directory size is the exact sum of the byte lengths of the entries.
pub proof fn lemma_directory_size_is_the_exact_sum(probe: SnapshotProbe, stats: SnapshotStats)
    requires
        has_rows(probe),
        total_size(probe.entry_sizes()) <= u64::MAX,
        is_snapshot_stats_of(
            stats,
            total_size(probe.entry_sizes()),
            probe.date_modified(),
            scope(probe.records(), QueryPlanView::whole_snapshot()),
        ),
    ensures
        probe.failure() is None,
        stats.directory_size == total_size(probe.entry_sizes()),
{
}

} // verus!
