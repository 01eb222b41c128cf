//! The run tracker: the state machine of one tracking session.
//!
//! A session starts the capture of the baseline (the latest run of the
//! workflow before anything changes), then runs the triggering action (a push,
//! an amended force push or a dispatch), and polls only once both the baseline
//! is in hand and the action has succeeded, whichever of the two completes
//! first. Polling ends on the first snapshot that differs from the baseline;
//! a poll that fails transiently is ridden out.
//! The caller performs each action the machine asks for and feeds back what
//! happened.

use vstd::prelude::*;
use crate::gh::GhError;
use crate::model::{RunView, WorkflowRun};

verus! {

/// Where a tracking session stands.
#[derive(Debug)]
pub enum TrackerState {
    /// Nothing has happened yet.
    Start,
    /// The baseline capture has been asked for.
    BaselineRequested,
    /// The triggering action runs; the baseline may already be captured.
    Triggering { captured: Option<WorkflowRun> },
    /// The action succeeded; the baseline has not arrived yet.
    AwaitingBaseline,
    /// Polling for a run that differs from the baseline.
    Polling { baseline: WorkflowRun },
    /// A new run was found.
    Done { run: WorkflowRun },
    /// The session cannot go on.
    Failed { error: GhError },
}

/// What happened since the last step.
#[derive(Debug)]
pub enum TrackerEvent {
    /// The session begins.
    Begin,
    /// The baseline capture is under way.
    BaselineTaskStarted,
    /// The triggering action has completed.
    TriggerFinished { succeeded: bool },
    /// The baseline capture has delivered its outcome.
    BaselineDelivered { result: Result<WorkflowRun, GhError> },
    /// A poll of the latest run has completed.
    Polled { result: Result<WorkflowRun, GhError> },
}

/// What the caller is to do next.
#[derive(Debug)]
pub enum TrackerAction {
    /// Start capturing the baseline, concurrently.
    StartBaselineTask,
    /// Run the triggering action.
    RunTrigger,
    /// Block until the baseline capture delivers.
    WaitForBaseline,
    /// Nothing to do for this event.
    Idle,
    /// Sleep for the polling interval, then fetch the latest run.
    SleepThenPoll,
    /// Print the location of the new run.
    PrintUrl { url: String },
    /// Open the location of the new run in a browser.
    OpenInBrowser { url: String },
    /// Stop the session with this error.
    Abort { error: GhError },
}

/// The view of a tracker state.
pub enum StateView {
    Start,
    BaselineRequested,
    Triggering { captured: Option<RunView> },
    AwaitingBaseline,
    Polling { baseline: RunView },
    Done { run: RunView },
    Failed { error: GhError },
}

/// The view of a tracker event.
pub enum EventView {
    Begin,
    BaselineTaskStarted,
    TriggerFinished { succeeded: bool },
    BaselineDelivered { result: Result<RunView, GhError> },
    Polled { result: Result<RunView, GhError> },
}

/// The view of a tracker action.
pub enum ActionView {
    StartBaselineTask,
    RunTrigger,
    WaitForBaseline,
    Idle,
    SleepThenPoll,
    PrintUrl { url: Seq<char> },
    OpenInBrowser { url: Seq<char> },
    Abort { error: GhError },
}

/// A looked-up run as its view.
pub open spec fn snapshot_result(r: Result<WorkflowRun, GhError>) -> Result<RunView, GhError> {
    match r {
        Ok(run) => Ok(run@),
        Err(e) => Err(e),
    }
}

impl View for TrackerState {
    type V = StateView;

    open spec fn view(&self) -> StateView {
        match self {
            TrackerState::Start => StateView::Start,
            TrackerState::BaselineRequested => StateView::BaselineRequested,
            TrackerState::Triggering { captured } => StateView::Triggering {
                captured: match captured {
                    Some(b) => Some(b@),
                    None => None,
                },
            },
            TrackerState::AwaitingBaseline => StateView::AwaitingBaseline,
            TrackerState::Polling { baseline } => StateView::Polling { baseline: baseline@ },
            TrackerState::Done { run } => StateView::Done { run: run@ },
            TrackerState::Failed { error } => StateView::Failed { error: *error },
        }
    }
}

impl View for TrackerEvent {
    type V = EventView;

    open spec fn view(&self) -> EventView {
        match self {
            TrackerEvent::Begin => EventView::Begin,
            TrackerEvent::BaselineTaskStarted => EventView::BaselineTaskStarted,
            TrackerEvent::TriggerFinished { succeeded } => EventView::TriggerFinished {
                succeeded: *succeeded,
            },
            TrackerEvent::BaselineDelivered { result } => EventView::BaselineDelivered {
                result: snapshot_result(*result),
            },
            TrackerEvent::Polled { result } => EventView::Polled { result: snapshot_result(*result) },
        }
    }
}

impl View for TrackerAction {
    type V = ActionView;

    open spec fn view(&self) -> ActionView {
        match self {
            TrackerAction::StartBaselineTask => ActionView::StartBaselineTask,
            TrackerAction::RunTrigger => ActionView::RunTrigger,
            TrackerAction::WaitForBaseline => ActionView::WaitForBaseline,
            TrackerAction::Idle => ActionView::Idle,
            TrackerAction::SleepThenPoll => ActionView::SleepThenPoll,
            TrackerAction::PrintUrl { url } => ActionView::PrintUrl { url: url@ },
            TrackerAction::OpenInBrowser { url } => ActionView::OpenInBrowser { url: url@ },
            TrackerAction::Abort { error } => ActionView::Abort { error: *error },
        }
    }
}

/// What a poll observed: the run it found, the empty sentinel when no run of
/// the workflow exists, and nothing when the lookup failed for another reason
/// (a transient failure, which polling rides out).
pub open spec fn poll_outcome(result: Result<RunView, GhError>) -> Option<RunView> {
    match result {
        Ok(r) => Some(r),
        Err(GhError::NotFound) => Some(RunView::empty()),
        Err(_) => None,
    }
}

/// Whether a poll result ends polling against `baseline`: it observed a
/// snapshot, and that snapshot differs from the baseline.
pub open spec fn shows_change(result: Result<RunView, GhError>, baseline: RunView) -> bool {
    match poll_outcome(result) {
        Some(current) => current != baseline,
        None => false,
    }
}

/// How the location of a new run reaches the user.
pub open spec fn report(url: Seq<char>, print_url: bool) -> ActionView {
    if print_url {
        ActionView::PrintUrl { url }
    } else {
        ActionView::OpenInBrowser { url }
    }
}

/// One step of a tracking session: the next state and the action for the
/// caller. An event that does not fit the state changes nothing.
pub open spec fn tracker_step(s: StateView, e: EventView, print_url: bool) -> (StateView, ActionView) {
    match (s, e) {
        (StateView::Start, EventView::Begin) => (
            StateView::BaselineRequested,
            ActionView::StartBaselineTask,
        ),
        (StateView::BaselineRequested, EventView::BaselineTaskStarted) => (
            StateView::Triggering { captured: None },
            ActionView::RunTrigger,
        ),
        (StateView::Triggering { captured }, EventView::TriggerFinished { succeeded }) => {
            if !succeeded {
                (
                    StateView::Failed { error: GhError::ActionFailure },
                    ActionView::Abort { error: GhError::ActionFailure },
                )
            } else {
                match captured {
                    Some(b) => (StateView::Polling { baseline: b }, ActionView::SleepThenPoll),
                    None => (StateView::AwaitingBaseline, ActionView::WaitForBaseline),
                }
            }
        },
        (StateView::Triggering { captured: None }, EventView::BaselineDelivered { result }) => {
            match result {
                Ok(b) => (StateView::Triggering { captured: Some(b) }, ActionView::Idle),
                Err(error) => (StateView::Failed { error }, ActionView::Abort { error }),
            }
        },
        (StateView::AwaitingBaseline, EventView::BaselineDelivered { result }) => {
            match result {
                Ok(b) => (StateView::Polling { baseline: b }, ActionView::SleepThenPoll),
                Err(error) => (StateView::Failed { error }, ActionView::Abort { error }),
            }
        },
        (StateView::Polling { baseline }, EventView::Polled { result }) => {
            match poll_outcome(result) {
                Some(current) => if current == baseline {
                    (StateView::Polling { baseline }, ActionView::SleepThenPoll)
                } else {
                    (StateView::Done { run: current }, report(current.html_url, print_url))
                },
                None => (StateView::Polling { baseline }, ActionView::SleepThenPoll),
            }
        },
        _ => (s, ActionView::Idle),
    }
}

/// A session replayed from its start over a sequence of events: the state it
/// reaches, and the actions it asked for, one for each event.
pub open spec fn run_trace(events: Seq<EventView>, print_url: bool) -> (StateView, Seq<ActionView>)
    decreases events.len(),
{
    if events.len() == 0 {
        (StateView::Start, seq![])
    } else {
        let prev = run_trace(events.drop_last(), print_url);
        let next = tracker_step(prev.0, events.last(), print_url);
        (next.0, prev.1.push(next.1))
    }
}

/// Whether the baseline `b` was delivered among the events.
pub open spec fn baseline_received(events: Seq<EventView>, b: RunView) -> bool {
    exists|i: int|
        0 <= i < events.len() && #[trigger] events[i] == (EventView::BaselineDelivered {
            result: Ok(b),
        })
}

/// Whether the triggering action succeeded among the events.
pub open spec fn trigger_succeeded(events: Seq<EventView>) -> bool {
    exists|i: int|
        0 <= i < events.len() && #[trigger] events[i] == (EventView::TriggerFinished {
            succeeded: true,
        })
}

/// Whether the baseline capture was asked for before position `k`.
pub open spec fn capture_started(acts: Seq<ActionView>, k: int) -> bool {
    exists|i: int| 0 <= i < k && #[trigger] acts[i] == ActionView::StartBaselineTask
}

/// Whether, by position `k`, a baseline was delivered and the action succeeded.
pub open spec fn ready_to_poll(events: Seq<EventView>, k: int) -> bool {
    &&& exists|i: int|
        0 <= i <= k && (#[trigger] events[i] matches EventView::BaselineDelivered {
            result: Ok(_),
        })
    &&& exists|j: int|
        0 <= j <= k && #[trigger] events[j] == (EventView::TriggerFinished { succeeded: true })
}

/// What holds of every replayed session, state by state.
spec fn trace_invariant(events: Seq<EventView>, s: StateView, acts: Seq<ActionView>) -> bool {
    &&& acts.len() == events.len()
    &&& match s {
        StateView::BaselineRequested => capture_started(acts, acts.len() as int),
        StateView::Triggering { captured } => capture_started(acts, acts.len() as int) && match captured {
            Some(b) => baseline_received(events, b),
            None => true,
        },
        StateView::AwaitingBaseline => trigger_succeeded(events),
        StateView::Polling { baseline } => baseline_received(events, baseline) && trigger_succeeded(
            events,
        ),
        _ => true,
    }
    &&& forall|k: int|
        0 <= k < acts.len() && #[trigger] acts[k] == ActionView::RunTrigger ==> capture_started(
            acts,
            k,
        )
    &&& forall|k: int|
        0 <= k < acts.len() && #[trigger] acts[k] == ActionView::SleepThenPoll ==> ready_to_poll(
            events,
            k,
        )
}

proof fn lemma_trace_invariant(events: Seq<EventView>, print_url: bool)
    ensures
        trace_invariant(events, run_trace(events, print_url).0, run_trace(events, print_url).1),
    decreases events.len(),
{
    if events.len() > 0 {
        let before = events.drop_last();
        lemma_trace_invariant(before, print_url);
        let prev = run_trace(before, print_url);
        let e = events.last();
        let next = tracker_step(prev.0, e, print_url);
        let acts = prev.1.push(next.1);
        let n = before.len() as int;
        assert(events[n] == e);
        assert(acts[n] == next.1);
        if e == (EventView::TriggerFinished { succeeded: true }) {
            assert(trigger_succeeded(events));
        }
        if let EventView::BaselineDelivered { result: Ok(b) } = e {
            assert(baseline_received(events, b));
        }
        if next.1 == ActionView::StartBaselineTask {
            assert(capture_started(acts, n + 1));
        }
        assert forall|i: int| 0 <= i < n implies #[trigger] events[i] == before[i] by {}
        assert forall|i: int| 0 <= i < n implies #[trigger] acts[i] == prev.1[i] by {}
        if capture_started(prev.1, n) {
            let i = choose|i: int| 0 <= i < n && #[trigger] prev.1[i] == ActionView::StartBaselineTask;
            assert(acts[i] == ActionView::StartBaselineTask);
        }
        if trigger_succeeded(before) {
            let i = choose|i: int|
                0 <= i < n && #[trigger] before[i] == (EventView::TriggerFinished {
                    succeeded: true,
                });
            assert(events[i] == before[i]);
        }
        assert forall|b: RunView| baseline_received(before, b) implies baseline_received(
            events,
            b,
        ) by {
            let i = choose|i: int|
                0 <= i < n && #[trigger] before[i] == (EventView::BaselineDelivered {
                    result: Ok(b),
                });
            assert(events[i] == before[i]);
        }
        assert forall|k: int|
            0 <= k < acts.len() && #[trigger] acts[k] == ActionView::RunTrigger implies capture_started(
            acts,
            k,
        ) by {
            if k < n {
                assert(prev.1[k] == ActionView::RunTrigger);
                let i = choose|i: int| 0 <= i < k && #[trigger] prev.1[i] == ActionView::StartBaselineTask;
                assert(acts[i] == ActionView::StartBaselineTask);
            } else {
                assert(prev.0 is BaselineRequested);
            }
        }
        assert forall|k: int|
            0 <= k < acts.len() && #[trigger] acts[k] == ActionView::SleepThenPoll implies ready_to_poll(
            events,
            k,
        ) by {
            if k < n {
                assert(prev.1[k] == ActionView::SleepThenPoll);
                assert(ready_to_poll(before, k));
                let i = choose|i: int|
                    0 <= i <= k && (#[trigger] before[i] matches EventView::BaselineDelivered {
                        result: Ok(_),
                    });
                let j = choose|j: int|
                    0 <= j <= k && #[trigger] before[j] == (EventView::TriggerFinished {
                        succeeded: true,
                    });
                assert(events[i] == before[i]);
                assert(events[j] == before[j]);
            } else {
                match prev.0 {
                    StateView::Triggering { captured: Some(b) } => {
                        let i = choose|i: int|
                            0 <= i < n && #[trigger] before[i] == (EventView::BaselineDelivered {
                                result: Ok(b),
                            });
                        assert(events[i] == before[i]);
                    },
                    StateView::AwaitingBaseline => {
                        let j = choose|j: int|
                            0 <= j < n && #[trigger] before[j] == (EventView::TriggerFinished {
                                succeeded: true,
                            });
                        assert(events[j] == before[j]);
                    },
                    StateView::Polling { baseline } => {
                        let i = choose|i: int|
                            0 <= i < n && #[trigger] before[i] == (EventView::BaselineDelivered {
                                result: Ok(baseline),
                            });
                        assert(events[i] == before[i]);
                        let j = choose|j: int|
                            0 <= j < n && #[trigger] before[j] == (EventView::TriggerFinished {
                                succeeded: true,
                            });
                        assert(events[j] == before[j]);
                    },
                    _ => {},
                }
            }
        }
    }
}

/// In every session, whatever the order in which the triggering action and
/// the baseline capture complete: the action runs only after the capture was
/// started, and a poll is asked for only once a baseline has been received and
/// the action has succeeded.
pub proof fn lemma_session_ordering(events: Seq<EventView>, print_url: bool)
    ensures
        forall|k: int|
            0 <= k < events.len() && #[trigger] run_trace(events, print_url).1[k]
                == ActionView::RunTrigger ==> capture_started(run_trace(events, print_url).1, k),
        forall|k: int|
            0 <= k < events.len() && #[trigger] run_trace(events, print_url).1[k]
                == ActionView::SleepThenPoll ==> ready_to_poll(events, k),
{
    lemma_trace_invariant(events, print_url);
}

/// The state that a sequence of poll results leads to, one after the other.
pub open spec fn after_polls(
    s: StateView,
    polls: Seq<Result<RunView, GhError>>,
    print_url: bool,
) -> StateView
    decreases polls.len(),
{
    if polls.len() == 0 {
        s
    } else {
        tracker_step(
            after_polls(s, polls.drop_last(), print_url),
            EventView::Polled { result: polls.last() },
            print_url,
        ).0
    }
}

/// Polling goes on, for any number of rounds, while every poll either finds
/// the baseline again or fails transiently.
pub proof fn lemma_identical_polls_keep_polling(
    baseline: RunView,
    polls: Seq<Result<RunView, GhError>>,
    print_url: bool,
)
    requires
        forall|i: int| 0 <= i < polls.len() ==> !shows_change(#[trigger] polls[i], baseline),
    ensures
        after_polls(StateView::Polling { baseline }, polls, print_url) == (StateView::Polling {
            baseline,
        }),
    decreases polls.len(),
{
    if polls.len() > 0 {
        let before = polls.drop_last();
        assert forall|i: int| 0 <= i < before.len() implies !shows_change(
            #[trigger] before[i],
            baseline,
        ) by {
            assert(before[i] == polls[i]);
        }
        lemma_identical_polls_keep_polling(baseline, before, print_url);
        assert(!shows_change(polls[polls.len() - 1], baseline));
    }
}

/// Polling ends on the first observed snapshot that differs from the
/// baseline, and the location of that snapshot is what gets reported.
pub proof fn lemma_first_change_ends_polling(
    baseline: RunView,
    polls: Seq<Result<RunView, GhError>>,
    print_url: bool,
)
    requires
        polls.len() > 0,
        forall|i: int| 0 <= i < polls.len() - 1 ==> !shows_change(#[trigger] polls[i], baseline),
        shows_change(polls.last(), baseline),
    ensures
        after_polls(StateView::Polling { baseline }, polls, print_url) == (StateView::Done {
            run: poll_outcome(polls.last())->Some_0,
        }),
        tracker_step(
            after_polls(StateView::Polling { baseline }, polls.drop_last(), print_url),
            EventView::Polled { result: polls.last() },
            print_url,
        ).1 == report(poll_outcome(polls.last())->Some_0.html_url, print_url),
{
    let before = polls.drop_last();
    assert forall|i: int| 0 <= i < before.len() implies !shows_change(
        #[trigger] before[i],
        baseline,
    ) by {
        assert(before[i] == polls[i]);
    }
    lemma_identical_polls_keep_polling(baseline, before, print_url);
}

/// The view of a tracker.
pub struct TrackerView {
    pub state: StateView,
    pub print_url: bool,
}

/// One tracking session.
#[derive(Debug)]
pub struct RunTracker {
    state: TrackerState,
    print_url: bool,
}

impl View for RunTracker {
    type V = TrackerView;

    closed spec fn view(&self) -> TrackerView {
        TrackerView { state: self.state@, print_url: self.print_url }
    }
}

impl RunTracker {
    /// A session that has not begun; `print_url` chooses printing the new
    /// run's location over opening it in a browser.
    pub fn new(print_url: bool) -> (t: RunTracker)
        ensures
            t@ == (TrackerView { state: StateView::Start, print_url }),
    {
        RunTracker { state: TrackerState::Start, print_url }
    }

    /// Where the session stands.
    pub fn state(&self) -> (r: &TrackerState)
        ensures
            r@ == self@.state,
    {
        &self.state
    }

    /// Takes in what happened and returns what the caller is to do next.
    pub fn step(&mut self, event: TrackerEvent) -> (a: TrackerAction)
        ensures
            final(self)@.print_url == old(self)@.print_url,
            (final(self)@.state, a@) == tracker_step(old(self)@.state, event@, old(self)@.print_url),
    {
        let print_url = self.print_url;
        match (&self.state, event) {
            (TrackerState::Start, TrackerEvent::Begin) => {
                self.state = TrackerState::BaselineRequested;
                TrackerAction::StartBaselineTask
            },
            (TrackerState::BaselineRequested, TrackerEvent::BaselineTaskStarted) => {
                self.state = TrackerState::Triggering { captured: None };
                TrackerAction::RunTrigger
            },
            (TrackerState::Triggering { captured }, TrackerEvent::TriggerFinished { succeeded }) => {
                if !succeeded {
                    self.state = TrackerState::Failed { error: GhError::ActionFailure };
                    TrackerAction::Abort { error: GhError::ActionFailure }
                } else {
                    match captured {
                        Some(b) => {
                            let b = b.clone();
                            self.state = TrackerState::Polling { baseline: b };
                            TrackerAction::SleepThenPoll
                        },
                        None => {
                            self.state = TrackerState::AwaitingBaseline;
                            TrackerAction::WaitForBaseline
                        },
                    }
                }
            },
            (TrackerState::Triggering { captured: None }, TrackerEvent::BaselineDelivered { result }) => {
                match result {
                    Ok(b) => {
                        self.state = TrackerState::Triggering { captured: Some(b) };
                        TrackerAction::Idle
                    },
                    Err(error) => {
                        self.state = TrackerState::Failed { error };
                        TrackerAction::Abort { error }
                    },
                }
            },
            (TrackerState::AwaitingBaseline, TrackerEvent::BaselineDelivered { result }) => {
                match result {
                    Ok(b) => {
                        self.state = TrackerState::Polling { baseline: b };
                        TrackerAction::SleepThenPoll
                    },
                    Err(error) => {
                        self.state = TrackerState::Failed { error };
                        TrackerAction::Abort { error }
                    },
                }
            },
            (TrackerState::Polling { baseline }, TrackerEvent::Polled { result }) => {
                let observed = match result {
                    Ok(r) => Some(r),
                    Err(GhError::NotFound) => Some(WorkflowRun::default()),
                    Err(_) => None,
                };
                match observed {
                    Some(current) => {
                        if current.same_as(baseline) {
                            TrackerAction::SleepThenPoll
                        } else {
                            let url = current.html_url.clone();
                            self.state = TrackerState::Done { run: current };
                            if print_url {
                                TrackerAction::PrintUrl { url }
                            } else {
                                TrackerAction::OpenInBrowser { url }
                            }
                        }
                    },
                    None => TrackerAction::SleepThenPoll,
                }
            },
            _ => TrackerAction::Idle,
        }
    }
}

} // verus!
