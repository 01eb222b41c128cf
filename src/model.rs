//! The values read from the CI provider: workflows and run snapshots, each
//! with a mathematical view that contracts speak of.

use vstd::prelude::*;

verus! {

/// Filtering a sequence extended by one element filters the sequence, then
/// keeps the element when it satisfies the predicate.
pub proof fn lemma_filter_push<A>(s: Seq<A>, x: A, pred: spec_fn(A) -> bool)
    ensures
        s.push(x).filter(pred) == (if pred(x) {
            s.filter(pred).push(x)
        } else {
            s.filter(pred)
        }),
{
    reveal(Seq::filter);
    assert(s.push(x).drop_last() =~= s);
}

/// Copies an optional text exactly.
pub fn copy_opt_text(o: &Option<String>) -> (r: Option<String>)
    ensures
        r == *o,
{
    match o {
        Some(s) => Some(s.clone()),
        None => None,
    }
}

/// Compares two optional texts by their characters.
pub fn same_opt_text(a: &Option<String>, b: &Option<String>) -> (r: bool)
    ensures
        r == (a.deep_view() == b.deep_view()),
{
    match (a, b) {
        (Some(x), Some(y)) => *x == *y,
        (None, None) => true,
        _ => false,
    }
}

/// The most recent run of one workflow, as observed at one moment.
#[derive(Debug)]
pub struct WorkflowRun {
    pub id: i64,
    pub name: String,
    pub head_branch: String,
    pub display_title: Option<String>,
    pub status: String,
    pub conclusion: Option<String>,
    pub created_at: String,
    pub html_url: String,
    pub run_number: i32,
    pub updated_at: String,
    pub run_started_at: String,
    pub jobs_url: String,
    pub logs_url: String,
    pub check_suite_url: String,
    pub artifacts_url: String,
    pub workflow_url: String,
}

/// Every observable field of a run snapshot.
pub struct RunView {
    pub id: i64,
    pub name: Seq<char>,
    pub head_branch: Seq<char>,
    pub display_title: Option<Seq<char>>,
    pub status: Seq<char>,
    pub conclusion: Option<Seq<char>>,
    pub created_at: Seq<char>,
    pub html_url: Seq<char>,
    pub run_number: i32,
    pub updated_at: Seq<char>,
    pub run_started_at: Seq<char>,
    pub jobs_url: Seq<char>,
    pub logs_url: Seq<char>,
    pub check_suite_url: Seq<char>,
    pub artifacts_url: Seq<char>,
    pub workflow_url: Seq<char>,
}

impl RunView {
    /// The sentinel that stands for "no run": zero numbers, empty texts.
    pub open spec fn empty() -> RunView {
        RunView {
            id: 0,
            name: Seq::empty(),
            head_branch: Seq::empty(),
            display_title: None,
            status: Seq::empty(),
            conclusion: None,
            created_at: Seq::empty(),
            html_url: Seq::empty(),
            run_number: 0,
            updated_at: Seq::empty(),
            run_started_at: Seq::empty(),
            jobs_url: Seq::empty(),
            logs_url: Seq::empty(),
            check_suite_url: Seq::empty(),
            artifacts_url: Seq::empty(),
            workflow_url: Seq::empty(),
        }
    }
}

impl View for WorkflowRun {
    type V = RunView;

    open spec fn view(&self) -> RunView {
        RunView {
            id: self.id,
            name: self.name@,
            head_branch: self.head_branch@,
            display_title: self.display_title.deep_view(),
            status: self.status@,
            conclusion: self.conclusion.deep_view(),
            created_at: self.created_at@,
            html_url: self.html_url@,
            run_number: self.run_number,
            updated_at: self.updated_at@,
            run_started_at: self.run_started_at@,
            jobs_url: self.jobs_url@,
            logs_url: self.logs_url@,
            check_suite_url: self.check_suite_url@,
            artifacts_url: self.artifacts_url@,
            workflow_url: self.workflow_url@,
        }
    }
}

/// The views of a sequence of run snapshots.
pub open spec fn run_views(s: Seq<WorkflowRun>) -> Seq<RunView> {
    s.map_values(|r: WorkflowRun| r@)
}

impl WorkflowRun {
    /// Whether every observable field of the two snapshots matches.
    pub fn same_as(&self, other: &WorkflowRun) -> (r: bool)
        ensures
            r == (self@ == other@),
    {
        self.id == other.id && self.name == other.name && self.head_branch == other.head_branch
            && same_opt_text(&self.display_title, &other.display_title) && self.status
            == other.status && same_opt_text(&self.conclusion, &other.conclusion)
            && self.created_at == other.created_at && self.html_url == other.html_url
            && self.run_number == other.run_number && self.updated_at == other.updated_at
            && self.run_started_at == other.run_started_at && self.jobs_url == other.jobs_url
            && self.logs_url == other.logs_url && self.check_suite_url == other.check_suite_url
            && self.artifacts_url == other.artifacts_url && self.workflow_url
            == other.workflow_url
    }
}

impl Clone for WorkflowRun {
    fn clone(&self) -> (r: Self)
        ensures
            r == *self,
    {
        WorkflowRun {
            id: self.id,
            name: self.name.clone(),
            head_branch: self.head_branch.clone(),
            display_title: copy_opt_text(&self.display_title),
            status: self.status.clone(),
            conclusion: copy_opt_text(&self.conclusion),
            created_at: self.created_at.clone(),
            html_url: self.html_url.clone(),
            run_number: self.run_number,
            updated_at: self.updated_at.clone(),
            run_started_at: self.run_started_at.clone(),
            jobs_url: self.jobs_url.clone(),
            logs_url: self.logs_url.clone(),
            check_suite_url: self.check_suite_url.clone(),
            artifacts_url: self.artifacts_url.clone(),
            workflow_url: self.workflow_url.clone(),
        }
    }
}

impl Default for WorkflowRun {
    fn default() -> (r: Self)
        ensures
            r@ == RunView::empty(),
    {
        WorkflowRun {
            id: 0,
            name: String::new(),
            head_branch: String::new(),
            display_title: None,
            status: String::new(),
            conclusion: None,
            created_at: String::new(),
            html_url: String::new(),
            run_number: 0,
            updated_at: String::new(),
            run_started_at: String::new(),
            jobs_url: String::new(),
            logs_url: String::new(),
            check_suite_url: String::new(),
            artifacts_url: String::new(),
            workflow_url: String::new(),
        }
    }
}

impl PartialEq for WorkflowRun {
    fn eq(&self, other: &WorkflowRun) -> (r: bool) {
        self.same_as(other)
    }
}

impl vstd::std_specs::cmp::PartialEqSpecImpl for WorkflowRun {
    open spec fn obeys_eq_spec() -> bool {
        true
    }

    open spec fn eq_spec(&self, other: &WorkflowRun) -> bool {
        self@ == other@
    }
}

impl Eq for WorkflowRun {

}

/// Two run snapshots are equal exactly when every observable field matches,
/// so a change in any single field makes them differ.
pub proof fn lemma_snapshot_equality(a: WorkflowRun, b: WorkflowRun)
    ensures
        a@ == b@ <==> {
            &&& a.id == b.id
            &&& a.name@ == b.name@
            &&& a.head_branch@ == b.head_branch@
            &&& a.display_title.deep_view() == b.display_title.deep_view()
            &&& a.status@ == b.status@
            &&& a.conclusion.deep_view() == b.conclusion.deep_view()
            &&& a.created_at@ == b.created_at@
            &&& a.html_url@ == b.html_url@
            &&& a.run_number == b.run_number
            &&& a.updated_at@ == b.updated_at@
            &&& a.run_started_at@ == b.run_started_at@
            &&& a.jobs_url@ == b.jobs_url@
            &&& a.logs_url@ == b.logs_url@
            &&& a.check_suite_url@ == b.check_suite_url@
            &&& a.artifacts_url@ == b.artifacts_url@
            &&& a.workflow_url@ == b.workflow_url@
        },
{
}

/// The runs listing of a repository.
#[derive(Debug)]
pub struct WorkflowRuns {
    pub total_count: i64,
    pub workflow_runs: Option<Vec<WorkflowRun>>,
}

impl WorkflowRuns {
    /// The snapshots the listing carries, if it carries any.
    pub open spec fn carried(&self) -> Option<Seq<RunView>> {
        match self.workflow_runs {
            Some(v) => Some(run_views(v@)),
            None => None,
        }
    }

    /// The snapshots the listing holds, in the provider's order; none when the
    /// listing carries no runs at all.
    pub open spec fn listed(&self) -> Seq<RunView> {
        match self.workflow_runs {
            Some(v) => run_views(v@),
            None => Seq::empty(),
        }
    }
}

impl Clone for WorkflowRuns {
    fn clone(&self) -> (r: Self)
        ensures
            r.total_count == self.total_count,
            r.carried() == self.carried(),
    {
        let workflow_runs = match &self.workflow_runs {
            Some(v) => Some(copy_runs(v)),
            None => None,
        };
        WorkflowRuns { total_count: self.total_count, workflow_runs }
    }
}

impl Default for WorkflowRuns {
    fn default() -> (r: Self)
        ensures
            r.total_count == 0,
            r.workflow_runs is None,
    {
        WorkflowRuns { total_count: 0, workflow_runs: None }
    }
}

impl PartialEq for WorkflowRuns {
    fn eq(&self, other: &WorkflowRuns) -> (r: bool) {
        self.total_count == other.total_count && match (&self.workflow_runs, &other.workflow_runs) {
            (Some(a), Some(b)) => same_runs(a, b),
            (None, None) => true,
            _ => false,
        }
    }
}

impl vstd::std_specs::cmp::PartialEqSpecImpl for WorkflowRuns {
    open spec fn obeys_eq_spec() -> bool {
        true
    }

    open spec fn eq_spec(&self, other: &WorkflowRuns) -> bool {
        self.total_count == other.total_count && self.carried() == other.carried()
    }
}

/// A workflow definition of a repository.
#[derive(Debug)]
pub struct Workflow {
    pub id: i64,
    pub node_id: String,
    pub name: String,
    pub path: String,
    pub state: Option<String>,
    pub created_at: String,
    pub updated_at: String,
    pub url: String,
    pub html_url: String,
}

/// Every field of a workflow.
pub struct WorkflowView {
    pub id: i64,
    pub node_id: Seq<char>,
    pub name: Seq<char>,
    pub path: Seq<char>,
    pub state: Option<Seq<char>>,
    pub created_at: Seq<char>,
    pub updated_at: Seq<char>,
    pub url: Seq<char>,
    pub html_url: Seq<char>,
}

impl View for Workflow {
    type V = WorkflowView;

    open spec fn view(&self) -> WorkflowView {
        WorkflowView {
            id: self.id,
            node_id: self.node_id@,
            name: self.name@,
            path: self.path@,
            state: self.state.deep_view(),
            created_at: self.created_at@,
            updated_at: self.updated_at@,
            url: self.url@,
            html_url: self.html_url@,
        }
    }
}

/// The views of a sequence of workflows.
pub open spec fn workflow_views(s: Seq<Workflow>) -> Seq<WorkflowView> {
    s.map_values(|w: Workflow| w@)
}

impl Clone for Workflow {
    fn clone(&self) -> (r: Self)
        ensures
            r == *self,
    {
        Workflow {
            id: self.id,
            node_id: self.node_id.clone(),
            name: self.name.clone(),
            path: self.path.clone(),
            state: copy_opt_text(&self.state),
            created_at: self.created_at.clone(),
            updated_at: self.updated_at.clone(),
            url: self.url.clone(),
            html_url: self.html_url.clone(),
        }
    }
}

impl Default for Workflow {
    fn default() -> (r: Self)
        ensures
            r@ == (WorkflowView {
                id: 0,
                node_id: Seq::empty(),
                name: Seq::empty(),
                path: Seq::empty(),
                state: None,
                created_at: Seq::empty(),
                updated_at: Seq::empty(),
                url: Seq::empty(),
                html_url: Seq::empty(),
            }),
    {
        Workflow {
            id: 0,
            node_id: String::new(),
            name: String::new(),
            path: String::new(),
            state: None,
            created_at: String::new(),
            updated_at: String::new(),
            url: String::new(),
            html_url: String::new(),
        }
    }
}

impl PartialEq for Workflow {
    fn eq(&self, other: &Workflow) -> (r: bool) {
        self.same_as(other)
    }
}

impl vstd::std_specs::cmp::PartialEqSpecImpl for Workflow {
    open spec fn obeys_eq_spec() -> bool {
        true
    }

    open spec fn eq_spec(&self, other: &Workflow) -> bool {
        self@ == other@
    }
}

/// Copies a sequence of workflows exactly.
pub fn copy_workflows(v: &Vec<Workflow>) -> (r: Vec<Workflow>)
    ensures
        r@ == v@,
{
    let mut r: Vec<Workflow> = Vec::new();
    let mut i: usize = 0;
    while i < v.len()
        invariant
            i <= v@.len(),
            r@ == v@.take(i as int),
        decreases v.len() - i,
    {
        r.push(v[i].clone());
        i = i + 1;
        assert(r@ =~= v@.take(i as int));
    }
    assert(v@.take(i as int) =~= v@);
    r
}

/// Compares two sequences of workflows field by field.
pub fn same_workflows(a: &Vec<Workflow>, b: &Vec<Workflow>) -> (r: bool)
    ensures
        r == (workflow_views(a@) == workflow_views(b@)),
{
    if a.len() != b.len() {
        assert(workflow_views(a@).len() != workflow_views(b@).len());
        return false;
    }
    let mut i: usize = 0;
    while i < a.len()
        invariant
            i <= a@.len(),
            a@.len() == b@.len(),
            forall|j: int| 0 <= j < i ==> (#[trigger] a@[j])@ == b@[j]@,
        decreases a.len() - i,
    {
        if !a[i].same_as(&b[i]) {
            assert(workflow_views(a@)[i as int] != workflow_views(b@)[i as int]);
            return false;
        }
        i = i + 1;
    }
    assert(workflow_views(a@) =~= workflow_views(b@));
    true
}

/// Copies a sequence of run snapshots exactly.
pub fn copy_runs(v: &Vec<WorkflowRun>) -> (r: Vec<WorkflowRun>)
    ensures
        r@ == v@,
{
    let mut r: Vec<WorkflowRun> = Vec::new();
    let mut i: usize = 0;
    while i < v.len()
        invariant
            i <= v@.len(),
            r@ == v@.take(i as int),
        decreases v.len() - i,
    {
        r.push(v[i].clone());
        i = i + 1;
        assert(r@ =~= v@.take(i as int));
    }
    assert(v@.take(i as int) =~= v@);
    r
}

/// Compares two sequences of run snapshots field by field.
pub fn same_runs(a: &Vec<WorkflowRun>, b: &Vec<WorkflowRun>) -> (r: bool)
    ensures
        r == (run_views(a@) == run_views(b@)),
{
    if a.len() != b.len() {
        assert(run_views(a@).len() != run_views(b@).len());
        return false;
    }
    let mut i: usize = 0;
    while i < a.len()
        invariant
            i <= a@.len(),
            a@.len() == b@.len(),
            forall|j: int| 0 <= j < i ==> (#[trigger] a@[j])@ == b@[j]@,
        decreases a.len() - i,
    {
        if !a[i].same_as(&b[i]) {
            assert(run_views(a@)[i as int] != run_views(b@)[i as int]);
            return false;
        }
        i = i + 1;
    }
    assert(run_views(a@) =~= run_views(b@));
    true
}

impl Workflow {
    /// Whether every field of the two workflows matches.
    pub fn same_as(&self, other: &Workflow) -> (r: bool)
        ensures
            r == (self@ == other@),
    {
        self.id == other.id && self.node_id == other.node_id && self.name == other.name
            && self.path == other.path && same_opt_text(&self.state, &other.state)
            && self.created_at == other.created_at && self.updated_at == other.updated_at
            && self.url == other.url && self.html_url == other.html_url
    }

    /// The line that names the workflow in a selection list: its name, then
    /// its path in parentheses.
    pub fn describe(&self) -> (r: String)
        ensures
            r@ == self.name@ + " ("@ + self.path@ + ")"@,
    {
        self.name.clone().concat(" (").concat(self.path.as_str()).concat(")")
    }
}

/// The workflows listing of a repository.
#[derive(Debug)]
pub struct Workflows {
    pub total_count: usize,
    pub workflows: Vec<Workflow>,
}

impl Clone for Workflows {
    fn clone(&self) -> (r: Self)
        ensures
            r.total_count == self.total_count,
            r.workflows@ == self.workflows@,
    {
        let workflows = copy_workflows(&self.workflows);
        Workflows { total_count: self.total_count, workflows }
    }
}

impl Default for Workflows {
    fn default() -> (r: Self)
        ensures
            r.total_count == 0,
            r.workflows@.len() == 0,
    {
        Workflows { total_count: 0, workflows: Vec::new() }
    }
}

impl PartialEq for Workflows {
    fn eq(&self, other: &Workflows) -> (r: bool) {
        self.total_count == other.total_count && same_workflows(&self.workflows, &other.workflows)
    }
}

impl vstd::std_specs::cmp::PartialEqSpecImpl for Workflows {
    open spec fn obeys_eq_spec() -> bool {
        true
    }

    open spec fn eq_spec(&self, other: &Workflows) -> bool {
        self.total_count == other.total_count && workflow_views(self.workflows@)
            == workflow_views(other.workflows@)
    }
}

/// The run history of one workflow.
#[derive(Debug)]
pub struct SingleWorkflowRuns {
    pub total_count: usize,
    pub workflow_runs: Vec<Workflow>,
}

impl Clone for SingleWorkflowRuns {
    fn clone(&self) -> (r: Self)
        ensures
            r.total_count == self.total_count,
            r.workflow_runs@ == self.workflow_runs@,
    {
        let workflow_runs = copy_workflows(&self.workflow_runs);
        SingleWorkflowRuns { total_count: self.total_count, workflow_runs }
    }
}

impl Default for SingleWorkflowRuns {
    fn default() -> (r: Self)
        ensures
            r.total_count == 0,
            r.workflow_runs@.len() == 0,
    {
        SingleWorkflowRuns { total_count: 0, workflow_runs: Vec::new() }
    }
}

impl PartialEq for SingleWorkflowRuns {
    fn eq(&self, other: &SingleWorkflowRuns) -> (r: bool) {
        self.total_count == other.total_count && same_workflows(
            &self.workflow_runs,
            &other.workflow_runs,
        )
    }
}

impl vstd::std_specs::cmp::PartialEqSpecImpl for SingleWorkflowRuns {
    open spec fn obeys_eq_spec() -> bool {
        true
    }

    open spec fn eq_spec(&self, other: &SingleWorkflowRuns) -> bool {
        self.total_count == other.total_count && workflow_views(self.workflow_runs@)
            == workflow_views(other.workflow_runs@)
    }
}

} // verus!
