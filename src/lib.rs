//! Tracks the CI run that a push, an amended force push or a manual dispatch
//! starts, and purges the run history of retired workflows.
//!
//! The library holds the decisions: which `gh` and `git` invocations to make,
//! how their answers are read, and the two state machines that drive a
//! tracking session and a cleanup sweep. Running the commands is left to the
//! caller.

pub mod text;
pub mod model;
pub mod gh;
pub mod directory;
pub mod tracker;
pub mod sweep;
pub mod git;

pub use directory::{
    chosen_workflow, find_unused, resolve_name, select_workflow, NameResolution, WorkflowSelection,
};
pub use gh::{Gh, GhError};
pub use git::Git;
pub use model::{SingleWorkflowRuns, Workflow, WorkflowRun, WorkflowRuns, Workflows};
pub use sweep::{CleanupSweep, SweepAction, SweepEvent, SweepPhase};
pub use tracker::{RunTracker, TrackerAction, TrackerEvent, TrackerState};
