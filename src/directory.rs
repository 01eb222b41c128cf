//! The workflow directory: settling which workflow a command is about, and
//! finding the workflows retired by the naming convention.

use vstd::prelude::*;
use crate::model::{lemma_filter_push, workflow_views, Workflow, WorkflowView, Workflows};
use crate::text::{trim_of, trimmed};

verus! {

/// How the workflow name of a command is settled.
#[derive(Debug)]
pub enum NameResolution {
    /// The caller named the workflow.
    Named(String),
    /// The name is to be chosen from the repository's workflows.
    FromWorkflows,
}

/// Settles the name of the workflow a command is about. A name
/// from the caller is taken as given, trimmed, with no call to the provider;
/// with none, the name is to be chosen from the repository's workflows.
pub fn resolve_name(arg: &Option<String>) -> (r: NameResolution)
    ensures
        match arg {
            Some(s) => r matches NameResolution::Named(n) && n@ == trim_of(s@),
            None => r is FromWorkflows,
        },
{
    match arg {
        Some(s) => NameResolution::Named(trimmed(s.as_str())),
        None => NameResolution::FromWorkflows,
    }
}

/// What choosing among the repository's active workflows comes to.
#[derive(Debug)]
pub enum WorkflowSelection {
    /// The repository has exactly one active workflow: this one.
    Only(Workflow),
    /// The repository has several: the user is to pick one.
    Prompt,
    /// The repository has none.
    NoWorkflows,
}

/// Decides how a workflow is chosen from the active workflows of a
/// repository: the only one is taken, several call for a prompt, and none
/// ends the command.
pub fn select_workflow(workflows: &Workflows) -> (r: WorkflowSelection)
    ensures
        workflows.workflows@.len() == 0 ==> r is NoWorkflows,
        workflows.workflows@.len() == 1 ==> (r matches WorkflowSelection::Only(w) && w
            == workflows.workflows@[0]),
        workflows.workflows@.len() > 1 ==> r is Prompt,
{
    let n = workflows.workflows.len();
    if n > 1 {
        WorkflowSelection::Prompt
    } else if n == 1 {
        WorkflowSelection::Only(workflows.workflows[0].clone())
    } else {
        WorkflowSelection::NoWorkflows
    }
}

/// The workflow that the user picked at position `choice` of the listing;
/// none when the prompt was dismissed or the position is out of range.
pub fn chosen_workflow(workflows: &Workflows, choice: Option<usize>) -> (r: Option<Workflow>)
    ensures
        match choice {
            Some(i) => if i < workflows.workflows@.len() {
                r == Some(workflows.workflows@[i as int])
            } else {
                r is None
            },
            None => r is None,
        },
{
    match choice {
        Some(i) => {
            if i < workflows.workflows.len() {
                Some(workflows.workflows[i].clone())
            } else {
                None
            }
        },
        None => None,
    }
}

/// Whether a workflow is marked as retired: its name is its path.
pub open spec fn is_unused(w: WorkflowView) -> bool {
    w.name == w.path
}

/// The retired workflows of a listing, in the listing's order: exactly those
/// whose name equals their path.
pub fn find_unused(workflows: &Workflows) -> (r: Vec<Workflow>)
    ensures
        workflow_views(r@) == workflow_views(workflows.workflows@).filter(
            |w: WorkflowView| is_unused(w),
        ),
{
    let ghost pred = |w: WorkflowView| is_unused(w);
    let ghost all = workflow_views(workflows.workflows@);
    let mut unused: Vec<Workflow> = Vec::new();
    let mut i: usize = 0;
    while i < workflows.workflows.len()
        invariant
            i <= workflows.workflows@.len(),
            all == workflow_views(workflows.workflows@),
            pred == (|w: WorkflowView| is_unused(w)),
            workflow_views(unused@) == all.take(i as int).filter(pred),
        decreases workflows.workflows.len() - i,
    {
        let w = &workflows.workflows[i];
        let keep = w.name == w.path;
        proof {
            assert(all[i as int] == w@);
            assert(keep == pred(all[i as int]));
            lemma_filter_push(all.take(i as int), all[i as int], pred);
            assert(all.take(i + 1) =~= all.take(i as int).push(all[i as int]));
        }
        if keep {
            let ghost before = unused@;
            unused.push(w.clone());
            assert(workflow_views(unused@) =~= workflow_views(before).push(all[i as int]));
        }
        i = i + 1;
    }
    assert(all.take(i as int) =~= all);
    unused
}

} // verus!
