//! The cleanup sweep: the state machine that purges the run history of a
//! list of workflows.
//!
//! For each workflow in turn the sweep asks for confirmation (unless the
//! workflows were chosen by hand), lists its runs, then deletes them one at a
//! time. A failed deletion is recorded and the sweep goes on with the next
//! run; a failed listing stops it. The caller performs each action the sweep
//! asks for and feeds back the outcome.

use vstd::prelude::*;
use crate::gh::GhError;
use crate::model::{workflow_views, SingleWorkflowRuns, Workflow, WorkflowView};

verus! {

/// Where the sweep stands with the current workflow.
#[derive(Debug)]
pub enum SweepPhase {
    /// Waiting for the user to confirm the purge.
    Confirming,
    /// Waiting for the run history.
    Listing,
    /// Deleting the listed runs; `next` is the position of the run to delete.
    Deleting { run_ids: Vec<i64>, next: usize },
    /// Every workflow has been handled.
    Finished,
    /// A run history could not be listed; the sweep stops.
    Failed { error: GhError },
}

/// What happened since the last step.
#[derive(Debug)]
pub enum SweepEvent {
    /// The user answered the confirmation prompt.
    Confirmed { accepted: bool },
    /// The run history of the current workflow was fetched, or not.
    RunsListed { result: Result<SingleWorkflowRuns, GhError> },
    /// The deletion of the current run completed, or failed.
    RunDeleted { outcome: Result<(), GhError> },
}

/// What the caller is to do next.
#[derive(Debug)]
pub enum SweepAction {
    /// Ask the user whether to purge the workflow of this name.
    Confirm { workflow_name: String },
    /// Fetch the run history of the workflow with this id.
    ListRuns { workflow_id: i64 },
    /// Delete the run with this id.
    DeleteRun { run_id: i64 },
    /// Stop with this error.
    Abort { error: GhError },
    /// Nothing is left to do.
    Finished,
}

/// The view of a sweep phase.
pub enum PhaseView {
    Confirming,
    Listing,
    Deleting { run_ids: Seq<i64>, next: int },
    Finished,
    Failed { error: GhError },
}

/// The view of a sweep event: a listing is seen as the ids of its runs.
pub enum SweepEventView {
    Confirmed { accepted: bool },
    RunsListed { result: Result<Seq<i64>, GhError> },
    RunDeleted { outcome: Result<(), GhError> },
}

/// The view of a sweep action.
pub enum SweepActionView {
    Confirm { workflow_name: Seq<char> },
    ListRuns { workflow_id: i64 },
    DeleteRun { run_id: i64 },
    Abort { error: GhError },
    Finished,
}

/// The view of a sweep.
pub struct SweepView {
    /// The workflows to purge, in order.
    pub targets: Seq<WorkflowView>,
    /// Whether each workflow needs the user's confirmation.
    pub confirm_each: bool,
    /// The position of the workflow being handled.
    pub current: int,
    pub phase: PhaseView,
    /// The ids of the runs whose deletion failed, in order.
    pub failed_runs: Seq<i64>,
}

/// The ids of the runs of a run history.
pub open spec fn run_ids_of(runs: Seq<Workflow>) -> Seq<i64> {
    runs.map_values(|w: Workflow| w.id)
}

impl View for SweepPhase {
    type V = PhaseView;

    open spec fn view(&self) -> PhaseView {
        match self {
            SweepPhase::Confirming => PhaseView::Confirming,
            SweepPhase::Listing => PhaseView::Listing,
            SweepPhase::Deleting { run_ids, next } => PhaseView::Deleting {
                run_ids: run_ids@,
                next: *next as int,
            },
            SweepPhase::Finished => PhaseView::Finished,
            SweepPhase::Failed { error } => PhaseView::Failed { error: *error },
        }
    }
}

impl View for SweepEvent {
    type V = SweepEventView;

    open spec fn view(&self) -> SweepEventView {
        match self {
            SweepEvent::Confirmed { accepted } => SweepEventView::Confirmed { accepted: *accepted },
            SweepEvent::RunsListed { result } => SweepEventView::RunsListed {
                result: match result {
                    Ok(runs) => Ok(run_ids_of(runs.workflow_runs@)),
                    Err(e) => Err(*e),
                },
            },
            SweepEvent::RunDeleted { outcome } => SweepEventView::RunDeleted { outcome: *outcome },
        }
    }
}

impl View for SweepAction {
    type V = SweepActionView;

    open spec fn view(&self) -> SweepActionView {
        match self {
            SweepAction::Confirm { workflow_name } => SweepActionView::Confirm {
                workflow_name: workflow_name@,
            },
            SweepAction::ListRuns { workflow_id } => SweepActionView::ListRuns {
                workflow_id: *workflow_id,
            },
            SweepAction::DeleteRun { run_id } => SweepActionView::DeleteRun { run_id: *run_id },
            SweepAction::Abort { error } => SweepActionView::Abort { error: *error },
            SweepAction::Finished => SweepActionView::Finished,
        }
    }
}

/// The phase in which the workflow at position `i` is taken up: confirmation
/// or listing, or the end past the last workflow.
pub open spec fn opening_phase(v: SweepView, i: int) -> PhaseView {
    if i < v.targets.len() {
        if v.confirm_each {
            PhaseView::Confirming
        } else {
            PhaseView::Listing
        }
    } else {
        PhaseView::Finished
    }
}

/// Moving on to the next workflow.
pub open spec fn advance(v: SweepView) -> SweepView {
    SweepView { current: v.current + 1, phase: opening_phase(v, v.current + 1), ..v }
}

/// Whether a sweep's positions are in range.
pub open spec fn sweep_wf(v: SweepView) -> bool {
    &&& 0 <= v.current <= v.targets.len()
    &&& match v.phase {
        PhaseView::Confirming => v.current < v.targets.len(),
        PhaseView::Listing => v.current < v.targets.len(),
        PhaseView::Deleting { run_ids, next } => v.current < v.targets.len() && 0 <= next
            < run_ids.len(),
        _ => true,
    }
}

/// What the sweep asks for in a state.
pub open spec fn sweep_action(v: SweepView) -> SweepActionView {
    match v.phase {
        PhaseView::Confirming => SweepActionView::Confirm {
            workflow_name: v.targets[v.current].name,
        },
        PhaseView::Listing => SweepActionView::ListRuns { workflow_id: v.targets[v.current].id },
        PhaseView::Deleting { run_ids, next } => SweepActionView::DeleteRun { run_id: run_ids[next] },
        PhaseView::Finished => SweepActionView::Finished,
        PhaseView::Failed { error } => SweepActionView::Abort { error },
    }
}

/// The state after an event. A refused confirmation and an empty run history
/// move on to the next workflow; a failed deletion is recorded and the sweep
/// goes on with the next run. An event that does not fit the state changes
/// nothing.
pub open spec fn sweep_next(v: SweepView, e: SweepEventView) -> SweepView {
    match (v.phase, e) {
        (PhaseView::Confirming, SweepEventView::Confirmed { accepted }) => {
            if accepted {
                SweepView { phase: PhaseView::Listing, ..v }
            } else {
                advance(v)
            }
        },
        (PhaseView::Listing, SweepEventView::RunsListed { result }) => {
            match result {
                Ok(ids) => if ids.len() > 0 {
                    SweepView { phase: PhaseView::Deleting { run_ids: ids, next: 0 }, ..v }
                } else {
                    advance(v)
                },
                Err(error) => SweepView { phase: PhaseView::Failed { error }, ..v },
            }
        },
        (PhaseView::Deleting { run_ids, next }, SweepEventView::RunDeleted { outcome }) => {
            let failed_runs = if outcome is Err {
                v.failed_runs.push(run_ids[next])
            } else {
                v.failed_runs
            };
            if next + 1 < run_ids.len() {
                SweepView {
                    phase: PhaseView::Deleting { run_ids, next: next + 1 },
                    failed_runs,
                    ..v
                }
            } else {
                advance(SweepView { failed_runs, ..v })
            }
        },
        _ => v,
    }
}

/// The run ids that a sweep asks to delete while it is fed the deletion
/// outcomes, one after the other.
pub open spec fn deletions_asked(v: SweepView, outcomes: Seq<Result<(), GhError>>) -> Seq<i64>
    decreases outcomes.len(),
{
    if outcomes.len() == 0 {
        seq![]
    } else {
        let rest = deletions_asked(
            sweep_next(v, SweepEventView::RunDeleted { outcome: outcomes[0] }),
            outcomes.drop_first(),
        );
        match sweep_action(v) {
            SweepActionView::DeleteRun { run_id } => seq![run_id] + rest,
            _ => rest,
        }
    }
}

/// Once the runs of a workflow are listed, the sweep asks to delete every one
/// of them, in order, whatever the outcome of each deletion: a failure does
/// not stop the ones after it.
pub proof fn lemma_sweep_attempts_every_run(
    v: SweepView,
    outcomes: Seq<Result<(), GhError>>,
)
    requires
        sweep_wf(v),
        v.phase is Deleting,
        outcomes.len() == v.phase->run_ids.len() - v.phase->next,
    ensures
        deletions_asked(v, outcomes) == v.phase->run_ids.subrange(
            v.phase->next,
            v.phase->run_ids.len() as int,
        ),
    decreases outcomes.len(),
{
    let ids = v.phase->run_ids;
    let next = v.phase->next;
    let after = sweep_next(v, SweepEventView::RunDeleted { outcome: outcomes[0] });
    assert(sweep_action(v) == SweepActionView::DeleteRun { run_id: ids[next] });
    assert(deletions_asked(v, outcomes) == seq![ids[next]] + deletions_asked(
        after,
        outcomes.drop_first(),
    ));
    if next + 1 < ids.len() {
        assert(after.phase == PhaseView::Deleting { run_ids: ids, next: next + 1 });
        lemma_sweep_attempts_every_run(after, outcomes.drop_first());
        assert(ids.subrange(next, ids.len() as int) =~= seq![ids[next]] + ids.subrange(
            next + 1,
            ids.len() as int,
        ));
    } else {
        assert(outcomes.drop_first().len() == 0);
        assert(ids.subrange(next, ids.len() as int) =~= seq![ids[next]]);
    }
}

/// The purge of the run history of a list of workflows.
#[derive(Debug)]
pub struct CleanupSweep {
    targets: Vec<Workflow>,
    confirm_each: bool,
    current: usize,
    phase: SweepPhase,
    failed_runs: Vec<i64>,
}

impl View for CleanupSweep {
    type V = SweepView;

    closed spec fn view(&self) -> SweepView {
        SweepView {
            targets: workflow_views(self.targets@),
            confirm_each: self.confirm_each,
            current: self.current as int,
            phase: self.phase@,
            failed_runs: self.failed_runs@,
        }
    }
}

impl CleanupSweep {
    /// The positions of the sweep stay in range.
    #[verifier::type_invariant]
    spec fn positions_in_range(&self) -> bool {
        sweep_wf(self@)
    }

    /// A sweep over `targets`, in order, that asks for each workflow's
    /// confirmation when `confirm_each` holds.
    pub fn new(targets: Vec<Workflow>, confirm_each: bool) -> (s: CleanupSweep)
        ensures
            s@.targets == workflow_views(targets@),
            s@.confirm_each == confirm_each,
            s@.current == 0,
            s@.phase == opening_phase(s@, 0),
            s@.failed_runs == Seq::<i64>::empty(),
            sweep_wf(s@),
    {
        let phase = if targets.len() == 0 {
            SweepPhase::Finished
        } else if confirm_each {
            SweepPhase::Confirming
        } else {
            SweepPhase::Listing
        };
        CleanupSweep { targets, confirm_each, current: 0, phase, failed_runs: Vec::new() }
    }

    /// The ids of the runs whose deletion failed, in order.
    pub fn failed_runs(&self) -> (r: &Vec<i64>)
        ensures
            r@ == self@.failed_runs,
    {
        &self.failed_runs
    }

    /// What the sweep asks for next.
    pub fn next_action(&self) -> (a: SweepAction)
        ensures
            a@ == sweep_action(self@),
    {
        proof {
            use_type_invariant(self);
        }
        match &self.phase {
            SweepPhase::Confirming => SweepAction::Confirm {
                workflow_name: self.targets[self.current].name.clone(),
            },
            SweepPhase::Listing => SweepAction::ListRuns {
                workflow_id: self.targets[self.current].id,
            },
            SweepPhase::Deleting { run_ids, next } => SweepAction::DeleteRun { run_id: run_ids[*next] },
            SweepPhase::Finished => SweepAction::Finished,
            SweepPhase::Failed { error } => SweepAction::Abort { error: *error },
        }
    }

    /// Moves on to the next workflow.
    fn advance(&mut self)
        requires
            old(self)@.current < old(self)@.targets.len(),
        ensures
            final(self)@ == advance(old(self)@),
    {
        let n = self.targets.len();
        assert(self.current < n);
        self.phase = SweepPhase::Finished;
        self.current = self.current + 1;
        self.phase = if self.current < self.targets.len() {
            if self.confirm_each {
                SweepPhase::Confirming
            } else {
                SweepPhase::Listing
            }
        } else {
            SweepPhase::Finished
        };
    }

    /// Takes in what happened.
    pub fn record(&mut self, event: SweepEvent)
        ensures
            final(self)@ == sweep_next(old(self)@, event@),
    {
        proof {
            use_type_invariant(&*self);
        }
        match (&self.phase, event) {
            (SweepPhase::Confirming, SweepEvent::Confirmed { accepted }) => {
                if accepted {
                    self.phase = SweepPhase::Listing;
                } else {
                    self.advance();
                }
            },
            (SweepPhase::Listing, SweepEvent::RunsListed { result }) => {
                match result {
                    Ok(runs) => {
                        let mut run_ids: Vec<i64> = Vec::new();
                        let mut i: usize = 0;
                        while i < runs.workflow_runs.len()
                            invariant
                                i <= runs.workflow_runs@.len(),
                                run_ids@ == run_ids_of(runs.workflow_runs@).take(i as int),
                            decreases runs.workflow_runs.len() - i,
                        {
                            run_ids.push(runs.workflow_runs[i].id);
                            i = i + 1;
                            assert(run_ids@ =~= run_ids_of(runs.workflow_runs@).take(i as int));
                        }
                        assert(run_ids@ =~= run_ids_of(runs.workflow_runs@));
                        if run_ids.len() > 0 {
                            self.phase = SweepPhase::Deleting { run_ids, next: 0 };
                        } else {
                            self.advance();
                        }
                    },
                    Err(error) => {
                        self.phase = SweepPhase::Failed { error };
                    },
                }
            },
            (SweepPhase::Deleting { run_ids, next }, SweepEvent::RunDeleted { outcome }) => {
                let next = *next;
                let run_id = run_ids[next];
                let remaining = next < run_ids.len() - 1;
                let rest = run_ids.clone();
                assert(rest@ =~= run_ids@);
                if outcome.is_err() {
                    let mut failed = self.failed_runs.clone();
                    assert(failed@ =~= self.failed_runs@);
                    failed.push(run_id);
                    self.failed_runs = failed;
                }
                if remaining {
                    self.phase = SweepPhase::Deleting { run_ids: rest, next: next + 1 };
                } else {
                    self.advance();
                }
            },
            _ => {},
        }
    }
}

} // verus!
