use gh_ac::{GhError, RunTracker, TrackerAction, TrackerEvent, TrackerState, WorkflowRun};

fn run(id: i64, status: &str) -> WorkflowRun {
    WorkflowRun {
        id,
        name: "CI".to_string(),
        status: status.to_string(),
        html_url: format!("https://x/{}", id),
        ..WorkflowRun::default()
    }
}

fn started(print_url: bool) -> RunTracker {
    let mut t = RunTracker::new(print_url);
    assert!(matches!(t.step(TrackerEvent::Begin), TrackerAction::StartBaselineTask));
    assert!(matches!(t.step(TrackerEvent::BaselineTaskStarted), TrackerAction::RunTrigger));
    t
}

#[test]
fn trigger_runs_only_after_baseline_task_starts() {
    let mut t = RunTracker::new(true);
    assert!(matches!(t.state(), TrackerState::Start));
    let a = t.step(TrackerEvent::TriggerFinished { succeeded: true });
    assert!(matches!(a, TrackerAction::Idle));
    assert!(matches!(t.step(TrackerEvent::Begin), TrackerAction::StartBaselineTask));
    assert!(matches!(t.step(TrackerEvent::BaselineTaskStarted), TrackerAction::RunTrigger));
}

#[test]
fn fast_trigger_still_waits_for_baseline() {
    let mut t = started(true);
    let a = t.step(TrackerEvent::TriggerFinished { succeeded: true });
    assert!(matches!(a, TrackerAction::WaitForBaseline));
    assert!(matches!(t.state(), TrackerState::AwaitingBaseline));
    let early = t.step(TrackerEvent::Polled { result: Ok(run(11, "queued")) });
    assert!(matches!(early, TrackerAction::Idle));
    assert!(matches!(t.state(), TrackerState::AwaitingBaseline));
    let a = t.step(TrackerEvent::BaselineDelivered { result: Ok(run(10, "completed")) });
    assert!(matches!(a, TrackerAction::SleepThenPoll));
}

#[test]
fn baseline_before_trigger_end_polls_after_trigger() {
    let mut t = started(true);
    let a = t.step(TrackerEvent::BaselineDelivered { result: Ok(run(10, "completed")) });
    assert!(matches!(a, TrackerAction::Idle));
    let a = t.step(TrackerEvent::TriggerFinished { succeeded: true });
    assert!(matches!(a, TrackerAction::SleepThenPoll));
    match t.state() {
        TrackerState::Polling { baseline } => assert_eq!(baseline.id, 10),
        other => panic!("unexpected {:?}", other),
    }
}

#[test]
fn polling_stops_at_first_differing_snapshot() {
    let mut t = started(true);
    t.step(TrackerEvent::TriggerFinished { succeeded: true });
    t.step(TrackerEvent::BaselineDelivered { result: Ok(run(10, "completed")) });
    let a = t.step(TrackerEvent::Polled { result: Ok(run(10, "completed")) });
    assert!(matches!(a, TrackerAction::SleepThenPoll));
    let a = t.step(TrackerEvent::Polled { result: Ok(run(10, "completed")) });
    assert!(matches!(a, TrackerAction::SleepThenPoll));
    let a = t.step(TrackerEvent::Polled { result: Ok(run(11, "queued")) });
    match a {
        TrackerAction::PrintUrl { url } => assert_eq!(url, "https://x/11"),
        other => panic!("unexpected {:?}", other),
    }
    match t.state() {
        TrackerState::Done { run } => assert_eq!(run.id, 11),
        other => panic!("unexpected {:?}", other),
    }
}

#[test]
fn status_change_on_same_run_counts_as_new() {
    let mut t = started(false);
    t.step(TrackerEvent::TriggerFinished { succeeded: true });
    t.step(TrackerEvent::BaselineDelivered { result: Ok(run(10, "completed")) });
    let a = t.step(TrackerEvent::Polled { result: Ok(run(10, "in_progress")) });
    match a {
        TrackerAction::OpenInBrowser { url } => assert_eq!(url, "https://x/10"),
        other => panic!("unexpected {:?}", other),
    }
}

#[test]
fn transient_poll_failure_keeps_polling() {
    let mut t = started(true);
    t.step(TrackerEvent::TriggerFinished { succeeded: true });
    t.step(TrackerEvent::BaselineDelivered { result: Ok(run(10, "completed")) });
    let a = t.step(TrackerEvent::Polled { result: Err(GhError::Api) });
    assert!(matches!(a, TrackerAction::SleepThenPoll));
    match t.state() {
        TrackerState::Polling { baseline } => assert_eq!(baseline.id, 10),
        other => panic!("unexpected {:?}", other),
    }
    let a = t.step(TrackerEvent::Polled { result: Ok(run(11, "queued")) });
    match a {
        TrackerAction::PrintUrl { url } => assert_eq!(url, "https://x/11"),
        other => panic!("unexpected {:?}", other),
    }
}

#[test]
fn vanished_run_is_compared_as_empty_snapshot() {
    let mut t = started(true);
    t.step(TrackerEvent::TriggerFinished { succeeded: true });
    t.step(TrackerEvent::BaselineDelivered { result: Ok(run(10, "completed")) });
    let a = t.step(TrackerEvent::Polled { result: Err(GhError::NotFound) });
    match a {
        TrackerAction::PrintUrl { url } => assert_eq!(url, ""),
        other => panic!("unexpected {:?}", other),
    }
}

#[test]
fn baseline_lookup_failure_aborts() {
    let mut t = started(true);
    t.step(TrackerEvent::TriggerFinished { succeeded: true });
    let a = t.step(TrackerEvent::BaselineDelivered { result: Err(GhError::NotFound) });
    assert!(matches!(a, TrackerAction::Abort { error: GhError::NotFound }));
    assert!(matches!(t.state(), TrackerState::Failed { error: GhError::NotFound }));
}

#[test]
fn failed_trigger_aborts() {
    let mut t = started(true);
    let a = t.step(TrackerEvent::TriggerFinished { succeeded: false });
    assert!(matches!(a, TrackerAction::Abort { error: GhError::ActionFailure }));
}
