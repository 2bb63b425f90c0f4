use swarmy_core::dispatch::{JoinOutcome, WorkKind};
use swarmy_core::error::SwarmyTauriError;
use swarmy_core::gateway::intake;
use swarmy_core::invocation::{
    follow, intake_event, join_event, step, GatewayAction as A, InvocationEvent as E, InvocationState as S, Transition,
};

#[test]
fn transitions_of_an_invocation() {
    let expect = |state, event, next, action| {
        assert_eq!(step(state, event), Some(Transition { next, action }));
    };
    expect(S::Idle, E::Invoked, S::Validating, A::Validate);
    expect(S::Validating, E::InputRejected, S::Idle, A::ReplyRejection);
    expect(S::Validating, E::InputAccepted, S::Dispatched, A::SpawnWorker);
    expect(S::Dispatched, E::WorkerStarted, S::Running, A::AwaitJoin);
    expect(S::Running, E::WorkSucceeded, S::Completed, A::ReplySuccess);
    expect(S::Running, E::WorkFailed, S::Failed, A::ReplyFailure);
    expect(S::Completed, E::ResponseTaken, S::Idle, A::Rest);
    expect(S::Failed, E::ResponseTaken, S::Idle, A::Rest);
}

#[test]
fn no_other_transition_is_taken() {
    let states = [S::Idle, S::Validating, S::Dispatched, S::Running, S::Completed, S::Failed];
    let events = [
        E::Invoked,
        E::InputRejected,
        E::InputAccepted,
        E::WorkerStarted,
        E::WorkSucceeded,
        E::WorkFailed,
        E::ResponseTaken,
    ];
    let mut taken = 0;
    for state in states {
        for event in events {
            if let Some(t) = step(state, event) {
                taken += 1;
                if state == S::Dispatched || state == S::Running {
                    assert_ne!(t.next, S::Idle);
                }
            }
        }
    }
    assert_eq!(taken, 8);
}

#[test]
fn each_invocation_hands_out_one_envelope() {
    assert_eq!(follow(S::Idle, &vec![]), Some((S::Idle, 0)));
    assert_eq!(follow(S::Idle, &vec![E::Invoked, E::InputRejected]), Some((S::Idle, 1)));
    for end in [E::WorkSucceeded, E::WorkFailed] {
        let events = vec![E::Invoked, E::InputAccepted, E::WorkerStarted, end, E::ResponseTaken];
        assert_eq!(follow(S::Idle, &events), Some((S::Idle, 1)));
    }
    let twice = vec![
        E::Invoked,
        E::InputRejected,
        E::Invoked,
        E::InputAccepted,
        E::WorkerStarted,
        E::WorkFailed,
        E::ResponseTaken,
    ];
    assert_eq!(follow(S::Idle, &twice), Some((S::Idle, 2)));
    assert_eq!(follow(S::Idle, &vec![E::Invoked, E::InputAccepted]), Some((S::Dispatched, 0)));
}

#[test]
fn a_run_stops_at_an_event_that_its_state_does_not_take() {
    assert_eq!(follow(S::Idle, &vec![E::WorkerStarted]), None);
    assert_eq!(follow(S::Idle, &vec![E::Invoked, E::InputAccepted, E::ResponseTaken]), None);
    assert_eq!(follow(S::Running, &vec![E::Invoked]), None);
    assert_eq!(follow(S::Idle, &vec![E::Invoked, E::Invoked, E::InputRejected]), None);
}

#[test]
fn decisions_and_joins_as_events() {
    assert_eq!(intake_event(&intake(WorkKind::Optimize, "", false)), E::InputRejected);
    assert_eq!(intake_event(&intake(WorkKind::Optimize, "/r", false)), E::InputAccepted);
    let ok: JoinOutcome<Result<u8, SwarmyTauriError>> = JoinOutcome::Finished(Ok(1));
    let failed: JoinOutcome<Result<u8, SwarmyTauriError>> =
        JoinOutcome::Finished(Err(SwarmyTauriError::StdIo("x".to_string())));
    let panicked: JoinOutcome<Result<u8, SwarmyTauriError>> =
        JoinOutcome::Panicked("x".to_string());
    assert_eq!(join_event(&ok), E::WorkSucceeded);
    assert_eq!(join_event(&failed), E::WorkFailed);
    assert_eq!(join_event(&panicked), E::WorkFailed);
}

#[test]
fn a_whole_invocation_driven_by_its_decisions() {
    let decision = intake(WorkKind::SnapshotMetadata, "/replays", false);
    let joined: JoinOutcome<Result<String, SwarmyTauriError>> =
        JoinOutcome::Finished(Ok("{}".to_string()));
    let events = vec![
        E::Invoked,
        intake_event(&decision),
        E::WorkerStarted,
        join_event(&joined),
        E::ResponseTaken,
    ];
    assert_eq!(follow(S::Idle, &events), Some((S::Idle, 1)));
    let rejected = intake(WorkKind::SnapshotMetadata, "", false);
    assert_eq!(follow(S::Idle, &vec![E::Invoked, intake_event(&rejected)]), Some((S::Idle, 1)));
}
