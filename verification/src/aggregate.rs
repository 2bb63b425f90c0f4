//! The stages of a plan, run over records held in memory.

use crate::dates::CalendarDate;
use crate::plan::{first_group, keeps, kept, same_map_identity, scope, QueryPlan};
use crate::records::{record_views, GameRecord, GameRecordView};
use crate::text::{chars_of, contains_chars};
use vstd::prelude::*;

verus! {

/// What the aggregate stage yields for the records that reach it.
#[derive(Debug, PartialEq, Eq)]
pub struct Aggregate {
    pub min_date: CalendarDate,
    pub max_date: CalendarDate,
    /// Number of distinct file-set identifiers.
    pub distinct_games: usize,
    /// Map title of the first record.
    pub title: String,
    /// Cache handles of the first record.
    pub cache_handles: String,
}

/// Mathematical content of an `Aggregate`.
pub struct AggregateView {
    pub min_date: CalendarDate,
    pub max_date: CalendarDate,
    pub distinct_games: nat,
    pub title: Seq<char>,
    pub cache_handles: Seq<char>,
}

impl View for Aggregate {
    type V = AggregateView;

    open spec fn view(&self) -> AggregateView {
        AggregateView {
            min_date: self.min_date,
            max_date: self.max_date,
            distinct_games: self.distinct_games as nat,
            title: self.title@,
            cache_handles: self.cache_handles@,
        }
    }
}

/// The file-set identifiers of the records, in their order.
pub open spec fn fs_ids(records: Seq<GameRecordView>) -> Seq<u64> {
    records.map_values(|r: GameRecordView| r.fs_id)
}

/// The set of file-set identifiers that occur among the records.
pub open spec fn game_ids(records: Seq<GameRecordView>) -> Set<u64> {
    fs_ids(records).to_set()
}

/// `d` is the date of one of the records, and no record has an earlier one.
pub open spec fn is_earliest(d: CalendarDate, records: Seq<GameRecordView>) -> bool {
    &&& exists|i: int| 0 <= i < records.len() && (#[trigger] records[i]).date == d
    &&& forall|j: int| 0 <= j < records.len() ==> d.not_after((#[trigger] records[j]).date)
}

/// `d` is the date of one of the records, and no record has a later one.
pub open spec fn is_latest(d: CalendarDate, records: Seq<GameRecordView>) -> bool {
    &&& exists|i: int| 0 <= i < records.len() && (#[trigger] records[i]).date == d
    &&& forall|j: int| 0 <= j < records.len() ==> (#[trigger] records[j]).date.not_after(d)
}

/// `a` is the aggregate of a list of records that is not empty.
pub open spec fn is_aggregate_of(a: AggregateView, records: Seq<GameRecordView>) -> bool {
    &&& records.len() > 0
    &&& is_earliest(a.min_date, records)
    &&& is_latest(a.max_date, records)
    &&& a.distinct_games == game_ids(records).len()
    &&& a.title == records[0].title
    &&& a.cache_handles == records[0].cache_handles
}

/// The view of a filter stage's name.
pub open spec fn filter_view(filter: Option<String>) -> Option<Seq<char>> {
    match filter {
        Some(name) => Some(name@),
        None => None,
    }
}

/// The filter stage: the records whose player contains the name, in their
/// order; all records where there is no filter stage.
pub fn apply_filter(records: &Vec<GameRecord>, filter: &Option<String>) -> (out: Vec<GameRecord>)
    ensures
        record_views(out@) == kept(record_views(records@), filter_view(*filter)),
{
    let ghost views = record_views(records@);
    let ghost fv = filter_view(*filter);
    let needle: Vec<char> = match filter {
        Some(name) => chars_of(name.as_str()),
        None => Vec::new(),
    };
    let mut out: Vec<GameRecord> = Vec::new();
    let mut i: usize = 0;
    proof {
        reveal(Seq::filter);
        assert(views.take(0) =~= Seq::<GameRecordView>::empty());
        assert(record_views(out@) =~= kept(views.take(0), fv));
    }
    while i < records.len()
        invariant
            i <= records.len(),
            views == record_views(records@),
            fv == filter_view(*filter),
            filter matches Some(name) ==> needle@ == name@,
            record_views(out@) == kept(views.take(i as int), fv),
        decreases records.len() - i,
    {
        let passes = match filter {
            Some(_) => contains_chars(records[i].player.as_str(), &needle),
            None => true,
        };
        let ghost before = record_views(out@);
        proof {
            let next = views.take(i + 1);
            reveal(Seq::filter);
            assert(next.drop_last() =~= views.take(i as int));
            assert(next.last() == views[i as int]);
            assert(views[i as int] == records@[i as int]@);
            assert(passes == keeps(fv, views[i as int]));
        }
        if passes {
            out.push(records[i].clone());
            assert(record_views(out@) =~= before.push(views[i as int]));
        }
        i += 1;
    }
    assert(views.take(records@.len() as int) =~= views);
    out
}

/// Whether two records belong to one group.
pub fn same_group(a: &GameRecord, b: &GameRecord) -> (same: bool)
    ensures
        same == same_map_identity(a@, b@),
{
    a.date == b.date && a.fs_id == b.fs_id && a.title == b.title && a.cache_handles
        == b.cache_handles
}

/// The group stage, then the choice of the first group: the records that
/// share the identity of the first record, in their order.
pub fn take_first_group(records: &Vec<GameRecord>) -> (out: Vec<GameRecord>)
    ensures
        record_views(out@) == first_group(record_views(records@)),
{
    let ghost views = record_views(records@);
    let mut out: Vec<GameRecord> = Vec::new();
    if records.len() == 0 {
        assert(record_views(out@) =~= views);
        return out;
    }
    let ghost same = |r: GameRecordView| same_map_identity(r, views[0]);
    let mut i: usize = 0;
    proof {
        reveal(Seq::filter);
        assert(views.take(0) =~= Seq::<GameRecordView>::empty());
        assert(record_views(out@) =~= views.take(0).filter(same));
    }
    while i < records.len()
        invariant
            i <= records.len(),
            records.len() > 0,
            views == record_views(records@),
            same == |r: GameRecordView| same_map_identity(r, views[0]),
            record_views(out@) == views.take(i as int).filter(same),
        decreases records.len() - i,
    {
        let joins = same_group(&records[i], &records[0]);
        let ghost before = record_views(out@);
        proof {
            let next = views.take(i + 1);
            reveal(Seq::filter);
            assert(next.drop_last() =~= views.take(i as int));
            assert(next.last() == views[i as int]);
            assert(views[i as int] == records@[i as int]@);
            assert(views[0] == records@[0]@);
            assert(joins == same(views[i as int]));
        }
        if joins {
            out.push(records[i].clone());
            assert(record_views(out@) =~= before.push(views[i as int]));
        }
        i += 1;
    }
    assert(views.take(records@.len() as int) =~= views);
    out
}

/// Whether `id` is among `seen`.
fn has_id(seen: &Vec<u64>, id: u64) -> (found: bool)
    ensures
        found == seen@.contains(id),
{
    let mut k: usize = 0;
    while k < seen.len()
        invariant
            k <= seen.len(),
            forall|j: int| 0 <= j < k ==> seen@[j] != id,
        decreases seen.len() - k,
    {
        if seen[k] == id {
            return true;
        }
        k += 1;
    }
    false
}

/// The number of distinct file-set identifiers among the records.
pub fn count_distinct_games(records: &Vec<GameRecord>) -> (n: usize)
    ensures
        n == game_ids(record_views(records@)).len(),
        n <= records@.len(),
{
    let ghost ids = fs_ids(record_views(records@));
    let mut seen: Vec<u64> = Vec::new();
    let mut i: usize = 0;
    assert(seen@.to_set() =~= ids.take(0).to_set());
    while i < records.len()
        invariant
            i <= records.len(),
            ids == fs_ids(record_views(records@)),
            seen.len() <= i,
            seen@.no_duplicates(),
            seen@.to_set() == ids.take(i as int).to_set(),
        decreases records.len() - i,
    {
        let id: u64 = records[i].fs_id;
        proof {
            assert(ids[i as int] == id);
            assert(ids.take(i + 1) =~= ids.take(i as int).push(id));
            ids.take(i as int).lemma_push_to_set_commute(id);
        }
        if has_id(&seen, id) {
            assert(seen@.to_set().insert(id) =~= seen@.to_set());
        } else {
            proof {
                seen@.lemma_push_to_set_commute(id);
            }
            seen.push(id);
        }
        i += 1;
    }
    proof {
        assert(ids.take(records@.len() as int) =~= ids);
        seen@.unique_seq_to_set();
    }
    seen.len()
}

/// The aggregate stage: `None` for no records, else the earliest and latest
/// date, the number of distinct file-set identifiers, and the title and
/// cache handles of the first record.
pub fn aggregate(records: &Vec<GameRecord>) -> (r: Option<Aggregate>)
    ensures
        r is None <==> records@.len() == 0,
        r matches Some(a) ==> is_aggregate_of(a@, record_views(records@)),
{
    if records.len() == 0 {
        return None;
    }
    let ghost views = record_views(records@);
    let mut min_date = records[0].date;
    let mut max_date = records[0].date;
    let mut i: usize = 1;
    assert(views.take(1)[0] == views[0]);
    while i < records.len()
        invariant
            1 <= i <= records.len(),
            views == record_views(records@),
            is_earliest(min_date, views.take(i as int)),
            is_latest(max_date, views.take(i as int)),
        decreases records.len() - i,
    {
        let d = records[i].date;
        let ghost old_min = min_date;
        let ghost old_max = max_date;
        min_date = min_date.earlier_of(d);
        max_date = max_date.later_of(d);
        proof {
            let before = views.take(i as int);
            let next = views.take(i + 1);
            assert(next[i as int].date == d);
            let k_min = choose|k: int| 0 <= k < before.len() && (#[trigger] before[k]).date == old_min;
            let k_max = choose|k: int| 0 <= k < before.len() && (#[trigger] before[k]).date == old_max;
            assert(next[k_min] == before[k_min]);
            assert(next[k_max] == before[k_max]);
            assert forall|j: int| 0 <= j < next.len() implies min_date.not_after(
                (#[trigger] next[j]).date,
            ) by {
                if j < i {
                    assert(next[j] == before[j]);
                }
            }
            assert forall|j: int| 0 <= j < next.len() implies (#[trigger] next[j]).date.not_after(
                max_date,
            ) by {
                if j < i {
                    assert(next[j] == before[j]);
                }
            }
        }
        i += 1;
    }
    assert(views.take(records@.len() as int) =~= views);
    let distinct_games = count_distinct_games(records);
    Some(
        Aggregate {
            min_date,
            max_date,
            distinct_games,
            title: records[0].title.clone(),
            cache_handles: records[0].cache_handles.clone(),
        },
    )
}

/// Runs a plan over records: filter stage, group stage with the choice of
/// the first group, aggregate stage. `None` means that no record reached
/// the aggregate stage.
pub fn execute(plan: &QueryPlan, records: &Vec<GameRecord>) -> (r: Option<Aggregate>)
    ensures
        r is None <==> scope(record_views(records@), plan@).len() == 0,
        r matches Some(a) ==> is_aggregate_of(a@, scope(record_views(records@), plan@)),
{
    let passed = apply_filter(records, &plan.player_filter);
    if plan.group_by_map {
        let group = take_first_group(&passed);
        aggregate(&group)
    } else {
        aggregate(&passed)
    }
}

} // verus!
