//! The life of one invocation of the gateway, as a state machine.
//!
//! `Idle → Validating → (rejected → Idle) | Dispatched → Running →
//! Completed | Failed → Idle`. There is no cancellation and no timeout:
//! once dispatched, the work runs to its end, and the only way back to
//! `Idle` leads through `Completed` or `Failed`.

use crate::dispatch::JoinOutcome;
use crate::error::SwarmyTauriError;
use crate::gateway::Intake;
use vstd::prelude::*;

verus! {

#[derive(Debug, Clone, Copy, PartialEq, Eq, Hash, Structural)]
pub enum InvocationState {
    Idle,
    Validating,
    Dispatched,
    Running,
    Completed,
    Failed,
}

/// What can happen to an invocation.
#[derive(Debug, Clone, Copy, PartialEq, Eq, Hash, Structural)]
pub enum InvocationEvent {
    /// The caller invoked the operation.
    Invoked,
    /// The input did not pass validation.
    InputRejected,
    /// The input passed validation.
    InputAccepted,
    /// The worker thread has started.
    WorkerStarted,
    /// The join observed a success value.
    WorkSucceeded,
    /// The join observed an error value or a panic.
    WorkFailed,
    /// The caller took the response.
    ResponseTaken,
}

/// What the gateway does on a transition.
#[derive(Debug, Clone, Copy, PartialEq, Eq, Hash, Structural)]
pub enum GatewayAction {
    /// Check the input.
    Validate,
    /// Answer with the failed envelope of a rejected input.
    ReplyRejection,
    /// Persist the settings where the operation asks for it, then spawn the
    /// one thread of this invocation.
    SpawnWorker,
    /// Block on the join of the thread.
    AwaitJoin,
    /// Answer with the envelope of the success.
    ReplySuccess,
    /// Answer with the envelope of the failure.
    ReplyFailure,
    /// Nothing to do.
    Rest,
}

#[derive(Debug, Clone, Copy, PartialEq, Eq, Hash, Structural)]
pub struct Transition {
    pub next: InvocationState,
    pub action: GatewayAction,
}

/// The transition for an event in a state, `None` where the state does not
/// take the event.
pub open spec fn spec_step(state: InvocationState, event: InvocationEvent) -> Option<Transition> {
    match (state, event) {
        (InvocationState::Idle, InvocationEvent::Invoked) => Some(
            Transition { next: InvocationState::Validating, action: GatewayAction::Validate },
        ),
        (InvocationState::Validating, InvocationEvent::InputRejected) => Some(
            Transition { next: InvocationState::Idle, action: GatewayAction::ReplyRejection },
        ),
        (InvocationState::Validating, InvocationEvent::InputAccepted) => Some(
            Transition { next: InvocationState::Dispatched, action: GatewayAction::SpawnWorker },
        ),
        (InvocationState::Dispatched, InvocationEvent::WorkerStarted) => Some(
            Transition { next: InvocationState::Running, action: GatewayAction::AwaitJoin },
        ),
        (InvocationState::Running, InvocationEvent::WorkSucceeded) => Some(
            Transition { next: InvocationState::Completed, action: GatewayAction::ReplySuccess },
        ),
        (InvocationState::Running, InvocationEvent::WorkFailed) => Some(
            Transition { next: InvocationState::Failed, action: GatewayAction::ReplyFailure },
        ),
        (InvocationState::Completed, InvocationEvent::ResponseTaken) => Some(
            Transition { next: InvocationState::Idle, action: GatewayAction::Rest },
        ),
        (InvocationState::Failed, InvocationEvent::ResponseTaken) => Some(
            Transition { next: InvocationState::Idle, action: GatewayAction::Rest },
        ),
        _ => None,
    }
}

/// The number of envelopes that an action hands to the caller.
pub open spec fn replies(action: GatewayAction) -> nat {
    match action {
        GatewayAction::ReplyRejection => 1,
        GatewayAction::ReplySuccess => 1,
        GatewayAction::ReplyFailure => 1,
        _ => 0,
    }
}

/// Where a run of events from a state ends and how many envelopes it handed
/// out; `None` where some state did not take its event.
pub open spec fn run(start: InvocationState, events: Seq<InvocationEvent>) -> Option<
    (InvocationState, nat),
>
    decreases events.len(),
{
    if events.len() == 0 {
        Some((start, 0nat))
    } else {
        match run(start, events.drop_last()) {
            None => None,
            Some((state, count)) => match spec_step(state, events.last()) {
                None => None,
                Some(t) => Some((t.next, count + replies(t.action))),
            },
        }
    }
}

/// The transition for an event in a state.
pub fn step(state: InvocationState, event: InvocationEvent) -> (r: Option<Transition>)
    ensures
        r == spec_step(state, event),
{
    match (state, event) {
        (InvocationState::Idle, InvocationEvent::Invoked) => Some(
            Transition { next: InvocationState::Validating, action: GatewayAction::Validate },
        ),
        (InvocationState::Validating, InvocationEvent::InputRejected) => Some(
            Transition { next: InvocationState::Idle, action: GatewayAction::ReplyRejection },
        ),
        (InvocationState::Validating, InvocationEvent::InputAccepted) => Some(
            Transition { next: InvocationState::Dispatched, action: GatewayAction::SpawnWorker },
        ),
        (InvocationState::Dispatched, InvocationEvent::WorkerStarted) => Some(
            Transition { next: InvocationState::Running, action: GatewayAction::AwaitJoin },
        ),
        (InvocationState::Running, InvocationEvent::WorkSucceeded) => Some(
            Transition { next: InvocationState::Completed, action: GatewayAction::ReplySuccess },
        ),
        (InvocationState::Running, InvocationEvent::WorkFailed) => Some(
            Transition { next: InvocationState::Failed, action: GatewayAction::ReplyFailure },
        ),
        (InvocationState::Completed, InvocationEvent::ResponseTaken) => Some(
            Transition { next: InvocationState::Idle, action: GatewayAction::Rest },
        ),
        (InvocationState::Failed, InvocationEvent::ResponseTaken) => Some(
            Transition { next: InvocationState::Idle, action: GatewayAction::Rest },
        ),
        _ => None,
    }
}

/// The event that the gateway's decision on the input stands for.
pub fn intake_event(decision: &Intake) -> (event: InvocationEvent)
    ensures
        event == (match *decision {
            Intake::Rejected(_) => InvocationEvent::InputRejected,
            Intake::Dispatched { .. } => InvocationEvent::InputAccepted,
        }),
{
    match decision {
        Intake::Rejected(_) => InvocationEvent::InputRejected,
        Intake::Dispatched { .. } => InvocationEvent::InputAccepted,
    }
}

/// The event that the observation of a join stands for. A worker that
/// panicked counts like one that returned an error.
pub fn join_event<T>(joined: &JoinOutcome<Result<T, SwarmyTauriError>>) -> (event: InvocationEvent)
    ensures
        event == (if *joined matches JoinOutcome::Finished(Ok(_)) {
            InvocationEvent::WorkSucceeded
        } else {
            InvocationEvent::WorkFailed
        }),
{
    match joined {
        JoinOutcome::Finished(Ok(_)) => InvocationEvent::WorkSucceeded,
        _ => InvocationEvent::WorkFailed,
    }
}

/// Follows a list of events from a state: the state reached and the number
/// of envelopes handed out, or `None` at the first event that its state
/// does not take.
pub fn follow(start: InvocationState, events: &Vec<InvocationEvent>) -> (r: Option<
    (InvocationState, usize),
>)
    ensures
        match run(start, events@) {
            None => r is None,
            Some((state, count)) => r == Some((state, count as usize)) && count <= events@.len(),
        },
{
    let mut state = start;
    let mut count: usize = 0;
    let mut i: usize = 0;
    assert(events@.take(0) =~= Seq::<InvocationEvent>::empty());
    while i < events.len()
        invariant
            i <= events.len(),
            count <= i,
            run(start, events@.take(i as int)) == Some((state, count as nat)),
        decreases events.len() - i,
    {
        proof {
            assert(events@.take(i + 1).drop_last() =~= events@.take(i as int));
            assert(events@.take(i + 1).last() == events@[i as int]);
        }
        match step(state, events[i]) {
            None => {
                proof {
                    lemma_run_prefix_fails(start, events@, i + 1);
                }
                return None;
            },
            Some(t) => {
                state = t.next;
                match t.action {
                    GatewayAction::ReplyRejection => {
                        count += 1;
                    },
                    GatewayAction::ReplySuccess => {
                        count += 1;
                    },
                    GatewayAction::ReplyFailure => {
                        count += 1;
                    },
                    _ => {},
                }
            },
        }
        i += 1;
    }
    assert(events@.take(events@.len() as int) =~= events@);
    Some((state, count))
}

/// A run fails as soon as one of its prefixes does.
pub proof fn lemma_run_prefix_fails(start: InvocationState, events: Seq<InvocationEvent>, n: int)
    requires
        0 <= n <= events.len(),
        run(start, events.take(n)) is None,
    ensures
        run(start, events) is None,
    decreases events.len() - n,
{
    if n < events.len() {
        assert(events.take(n + 1).drop_last() =~= events.take(n));
        lemma_run_prefix_fails(start, events, n + 1);
    } else {
        assert(events.take(n) =~= events);
    }
}

/// There is no cancellation: no event takes a dispatched or running
/// invocation back to `Idle`, and a running one ends only in `Completed`
/// or `Failed`.
pub proof fn lemma_dispatched_work_runs_to_completion(event: InvocationEvent)
    ensures
        spec_step(InvocationState::Dispatched, event) matches Some(t) ==> t.next
            == InvocationState::Running,
        spec_step(InvocationState::Running, event) matches Some(t) ==> (t.next
            == InvocationState::Completed || t.next == InvocationState::Failed),
        spec_step(InvocationState::Running, event) matches Some(t) ==> replies(t.action) == 1,
{
}

/// Every transition into `Idle` either is the one that answers a rejected
/// input, or comes from `Completed` or `Failed`, where the answer was given
/// on entry.
pub proof fn lemma_back_to_idle(state: InvocationState, event: InvocationEvent)
    requires
        spec_step(state, event) matches Some(t) && t.next == InvocationState::Idle,
    ensures
        ({
            ||| state == InvocationState::Validating && event == InvocationEvent::InputRejected
            ||| state == InvocationState::Completed
            ||| state == InvocationState::Failed
        }),
{
}

/// The two runs of one invocation: a rejected one and a dispatched one. Each
/// starts and ends in `Idle` and hands out exactly one envelope.
pub proof fn lemma_one_envelope_per_invocation(succeeded: bool)
    ensures
        run(
            InvocationState::Idle,
            seq![InvocationEvent::Invoked, InvocationEvent::InputRejected],
        ) == Some((InvocationState::Idle, 1nat)),
        run(
            InvocationState::Idle,
            seq![
                InvocationEvent::Invoked,
                InvocationEvent::InputAccepted,
                InvocationEvent::WorkerStarted,
                if succeeded {
                    InvocationEvent::WorkSucceeded
                } else {
                    InvocationEvent::WorkFailed
                },
                InvocationEvent::ResponseTaken,
            ],
        ) == Some((InvocationState::Idle, 1nat)),
{
    let idle = InvocationState::Idle;
    let rejected = seq![InvocationEvent::Invoked, InvocationEvent::InputRejected];
    let e1 = seq![InvocationEvent::Invoked];
    assert(run(idle, Seq::<InvocationEvent>::empty()) == Some((idle, 0nat)));
    assert(e1.drop_last() =~= Seq::<InvocationEvent>::empty());
    assert(e1.last() == InvocationEvent::Invoked);
    assert(run(idle, e1) == Some((InvocationState::Validating, 0nat)));
    assert(rejected.drop_last() =~= e1);
    let end = if succeeded {
        InvocationEvent::WorkSucceeded
    } else {
        InvocationEvent::WorkFailed
    };
    let e2 = seq![InvocationEvent::Invoked, InvocationEvent::InputAccepted];
    let e3 = e2.push(InvocationEvent::WorkerStarted);
    let e4 = e3.push(end);
    let e5 = e4.push(InvocationEvent::ResponseTaken);
    assert(e2.drop_last() =~= e1);
    assert(run(idle, e2) == Some((InvocationState::Dispatched, 0nat)));
    assert(e3.drop_last() =~= e2);
    assert(run(idle, e3) == Some((InvocationState::Running, 0nat)));
    assert(e4.drop_last() =~= e3);
    assert(run(idle, e4) == Some(
        (
            if succeeded {
                InvocationState::Completed
            } else {
                InvocationState::Failed
            },
            1nat,
        ),
    ));
    assert(e5.drop_last() =~= e4);
    assert(run(idle, e5) == Some((InvocationState::Idle, 1nat)));
    assert(e5 =~= seq![
        InvocationEvent::Invoked,
        InvocationEvent::InputAccepted,
        InvocationEvent::WorkerStarted,
        end,
        InvocationEvent::ResponseTaken,
    ]);
}

/// The number of invocations among a list of events.
pub open spec fn invocations(events: Seq<InvocationEvent>) -> nat
    decreases events.len(),
{
    if events.len() == 0 {
        0
    } else {
        invocations(events.drop_last()) + if events.last() == InvocationEvent::Invoked {
            1nat
        } else {
            0nat
        }
    }
}

/// The number of envelopes that a state still owes: one while the input is
/// validated and while the work is dispatched or running, none at rest and
/// once the answer was given.
pub open spec fn owed(state: InvocationState) -> nat {
    match state {
        InvocationState::Validating => 1,
        InvocationState::Dispatched => 1,
        InvocationState::Running => 1,
        _ => 0,
    }
}

/// No result is dropped and none is given twice: after every run of events
/// from `Idle`, the envelopes handed out and the one still owed add up to
/// the number of invocations. Back in `Idle`, every invocation has had its
/// one envelope.
pub proof fn lemma_every_invocation_is_answered_once(events: Seq<InvocationEvent>)
    requires
        run(InvocationState::Idle, events) is Some,
    ensures
        run(InvocationState::Idle, events) matches Some((state, count)) && count + owed(state)
            == invocations(events),
    decreases events.len(),
{
    if events.len() > 0 {
        lemma_every_invocation_is_answered_once(events.drop_last());
    }
}

} // verus!
