//! The aggregation query plan: an ordered list of stages, held as a value
//! that can be inspected apart from whatever runs it.

use crate::records::GameRecordView;
use crate::text::contains_literal;
use vstd::prelude::*;

verus! {

/// The kinds of stage of a plan, in the order in which they run.
#[derive(Debug, Clone, Copy, PartialEq, Eq, Hash, Structural)]
pub enum StageKind {
    /// Keep the rows whose player contains the requested name.
    Filter,
    /// Group by event date, file-set identifier, map title and cache
    /// handles.
    Group,
    /// Earliest and latest date, number of distinct file-set identifiers,
    /// first-observed title and cache handles.
    Aggregate,
}

/// A plan: the optional filter stage, the optional group stage, and the
/// aggregate stage, which every plan has.
#[derive(Debug, PartialEq, Eq)]
pub struct QueryPlan {
    /// The player name of the filter stage; `None` where the plan has no
    /// filter stage.
    pub player_filter: Option<String>,
    /// Whether the plan has the group stage.
    pub group_by_map: bool,
}

/// Mathematical content of a `QueryPlan`.
pub struct QueryPlanView {
    pub player_filter: Option<Seq<char>>,
    pub group_by_map: bool,
}

impl View for QueryPlan {
    type V = QueryPlanView;

    open spec fn view(&self) -> QueryPlanView {
        QueryPlanView {
            player_filter: match self.player_filter {
                Some(name) => Some(name@),
                None => None,
            },
            group_by_map: self.group_by_map,
        }
    }
}

impl QueryPlanView {
    /// A filter stage never carries the empty name: the empty name means
    /// "no filter" and is planned as no stage at all.
    pub open spec fn wf(self) -> bool {
        self.player_filter matches Some(name) ==> name.len() > 0
    }

    /// The plan of a whole-snapshot query: the aggregate stage alone.
    pub open spec fn whole_snapshot() -> QueryPlanView {
        QueryPlanView { player_filter: None, group_by_map: false }
    }

    /// The plan of a map-scoped query for a player name: the filter stage
    /// where the name is not empty, then the group and aggregate stages.
    pub open spec fn map_scoped(player_name: Seq<char>) -> QueryPlanView {
        QueryPlanView {
            player_filter: if player_name.len() > 0 {
                Some(player_name)
            } else {
                None
            },
            group_by_map: true,
        }
    }

    /// The same plan without its filter stage.
    pub open spec fn unfiltered(self) -> QueryPlanView {
        QueryPlanView { player_filter: None, group_by_map: self.group_by_map }
    }

    /// The stages of the plan in running order.
    pub open spec fn stages(self) -> Seq<StageKind> {
        let filter = if self.player_filter is Some {
            seq![StageKind::Filter]
        } else {
            Seq::<StageKind>::empty()
        };
        let group = if self.group_by_map {
            seq![StageKind::Group]
        } else {
            Seq::<StageKind>::empty()
        };
        filter + group + seq![StageKind::Aggregate]
    }
}

/// Whether the filter stage keeps a record: it does when the player of the
/// record contains the name as a literal substring. Without a filter stage
/// every record is kept.
pub open spec fn keeps(filter: Option<Seq<char>>, r: GameRecordView) -> bool {
    match filter {
        Some(name) => contains_literal(r.player, name),
        None => true,
    }
}

/// The records that pass the filter stage, in their order.
pub open spec fn kept(records: Seq<GameRecordView>, filter: Option<Seq<char>>) -> Seq<
    GameRecordView,
> {
    records.filter(|r: GameRecordView| keeps(filter, r))
}

/// Two records belong to one group: same date, file-set identifier, title
/// and cache handles.
pub open spec fn same_map_identity(a: GameRecordView, b: GameRecordView) -> bool {
    &&& a.date == b.date
    &&& a.fs_id == b.fs_id
    &&& a.title == b.title
    &&& a.cache_handles == b.cache_handles
}

/// The group of the first record: the records of its identity, in their
/// order. Groups come in the order in which their first record was seen, so
/// this is the first group.
pub open spec fn first_group(records: Seq<GameRecordView>) -> Seq<GameRecordView> {
    if records.len() == 0 {
        records
    } else {
        records.filter(|r: GameRecordView| same_map_identity(r, records[0]))
    }
}

/// The records that reach the aggregate stage of a plan.
pub open spec fn scope(records: Seq<GameRecordView>, plan: QueryPlanView) -> Seq<GameRecordView> {
    let passed = kept(records, plan.player_filter);
    if plan.group_by_map {
        first_group(passed)
    } else {
        passed
    }
}

impl QueryPlan {
    /// Plans a whole-snapshot query.
    pub fn whole_snapshot() -> (plan: QueryPlan)
        ensures
            plan@ == QueryPlanView::whole_snapshot(),
            plan@.wf(),
    {
        QueryPlan { player_filter: None, group_by_map: false }
    }

    /// Plans a map-scoped query. The filter stage is planned only for a
    /// name that is not empty.
    pub fn map_scoped(player_name: &str) -> (plan: QueryPlan)
        ensures
            plan@ == QueryPlanView::map_scoped(player_name@),
            plan@.wf(),
    {
        let player_filter = if player_name.is_empty() {
            None
        } else {
            Some(player_name.to_owned())
        };
        QueryPlan { player_filter, group_by_map: true }
    }

    /// The stages of the plan in running order.
    pub fn stages(&self) -> (stages: Vec<StageKind>)
        ensures
            stages@ == self@.stages(),
    {
        let mut stages: Vec<StageKind> = Vec::new();
        if self.player_filter.is_some() {
            stages.push(StageKind::Filter);
        }
        if self.group_by_map {
            stages.push(StageKind::Group);
        }
        stages.push(StageKind::Aggregate);
        assert(stages@ =~= self@.stages());
        stages
    }
}

/// Every plan ends with the aggregate stage, filters before it groups, and
/// has each stage at most once.
pub proof fn lemma_stage_order(plan: QueryPlanView)
    ensures
        plan.stages().len() >= 1,
        plan.stages().last() == StageKind::Aggregate,
        forall|i: int, j: int|
            0 <= i < j < plan.stages().len() ==> {
                &&& plan.stages()[i] != plan.stages()[j]
                &&& plan.stages()[j] != StageKind::Filter
                &&& plan.stages()[i] != StageKind::Aggregate
            },
{
}

} // verus!
