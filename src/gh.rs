//! The CI provider client: the session's hostname policy, the `gh`
//! invocations that each operation makes, and how their answers are read.

use vstd::prelude::*;
use crate::model::{
    lemma_filter_push, run_views, workflow_views, RunView, WorkflowRun, WorkflowRuns, WorkflowView,
    Workflows,
};
use crate::text::{append_texts, decimal, decimal_of, lower_of, lowercase};

verus! {

/// The ways an operation against the CI provider can fail.
#[derive(Debug, Clone, Copy, PartialEq, Eq, Structural)]
pub enum GhError {
    /// The provider could not be reached, refused the call, or answered with
    /// something unreadable.
    Api,
    /// No workflow or run matched the name that was looked up.
    NotFound,
    /// The session needs a custom hostname, and none is configured.
    Configuration,
    /// The action that was to start a run failed.
    ActionFailure,
}

/// An argument list, or the error that stopped it from being built.
pub open spec fn texts_result(r: Result<Vec<String>, GhError>) -> Result<Seq<Seq<char>>, GhError> {
    match r {
        Ok(v) => Ok(v.deep_view()),
        Err(e) => Err(e),
    }
}

/// The hostname policy of a session.
pub struct GhView {
    /// The configured custom hostname, if any.
    pub hostname: Option<Seq<char>>,
    /// Whether calls go to the custom hostname.
    pub use_custom: bool,
}

/// The policy that a session starts with: the custom hostname is used exactly
/// when the probe of the default endpoint failed.
pub open spec fn session_policy(hostname: Option<Seq<char>>, probe_succeeded: bool) -> GhView {
    GhView { hostname, use_custom: !probe_succeeded }
}

/// The arguments of `gh` for an API call with the endpoint arguments `args`:
/// `api`, then `--hostname <host>` under the custom policy, then `args`. Under
/// the custom policy with no hostname configured the call is refused.
pub open spec fn api_args(g: GhView, args: Seq<Seq<char>>) -> Result<Seq<Seq<char>>, GhError> {
    if g.use_custom {
        match g.hostname {
            Some(h) => Ok(seq!["api"@, "--hostname"@, h] + args),
            None => Err(GhError::Configuration),
        }
    } else {
        Ok(seq!["api"@] + args)
    }
}

/// Whether calls can be made under a policy: not when the custom hostname is
/// to be used and none is configured.
pub open spec fn policy_usable(g: GhView) -> bool {
    !(g.use_custom && g.hostname is None)
}

/// The endpoint that lists the runs of a repository.
pub open spec fn runs_endpoint() -> Seq<char> {
    "/repos/{owner}/{repo}/actions/runs"@
}

/// The endpoint that lists the workflows of a repository.
pub open spec fn workflows_endpoint() -> Seq<char> {
    "/repos/{owner}/{repo}/actions/workflows"@
}

/// The endpoint that lists up to 500 runs of one workflow.
pub open spec fn workflow_runs_endpoint(workflow_id: i64) -> Seq<char> {
    "/repos/{owner}/{repo}/actions/workflows/"@ + decimal_of(workflow_id as int)
        + "/runs?per_page=500"@
}

/// The endpoint of one run.
pub open spec fn run_endpoint(run_id: i64) -> Seq<char> {
    "/repos/{owner}/{repo}/actions/runs/"@ + decimal_of(run_id as int)
}

/// The inputs of a manual dispatch as `gh` flags: `-f <input>` for each.
pub open spec fn form_args(body: Seq<Seq<char>>) -> Seq<Seq<char>>
    decreases body.len(),
{
    if body.len() == 0 {
        seq![]
    } else {
        form_args(body.drop_last()) + seq!["-f"@, body.last()]
    }
}

/// The arguments of `gh` that dispatch a run of `workflow_name` on
/// `reference` with the given inputs. Under the custom policy with no hostname
/// configured the call is refused.
pub open spec fn dispatch_args(
    g: GhView,
    reference: Seq<char>,
    workflow_name: Seq<char>,
    body: Option<Seq<Seq<char>>>,
) -> Result<Seq<Seq<char>>, GhError> {
    if !policy_usable(g) {
        Err(GhError::Configuration)
    } else {
        Ok(seq!["workflow"@, "run"@, workflow_name, "--ref"@, reference] + match body {
            Some(b) => form_args(b),
            None => seq![],
        })
    }
}

/// When the probe of the default endpoint failed and no custom hostname is
/// configured, the session's policy is unusable: every call of the session,
/// and every lookup in an answer, is refused with a configuration error, and
/// no request is sent.
pub proof fn lemma_unconfigured_custom_host_refuses(
    args: Seq<Seq<char>>,
    reference: Seq<char>,
    workflow_name: Seq<char>,
    body: Option<Seq<Seq<char>>>,
)
    ensures
        !policy_usable(session_policy(None, false)),
        api_args(session_policy(None, false), args) == Err::<Seq<Seq<char>>, GhError>(
            GhError::Configuration,
        ),
        dispatch_args(session_policy(None, false), reference, workflow_name, body) == Err::<
            Seq<Seq<char>>,
            GhError,
        >(GhError::Configuration),
{
}

/// Whether a run's workflow name matches the looked-up name, ignoring case.
pub open spec fn name_matches(run_name: Seq<char>, name: Seq<char>) -> bool {
    lower_of(run_name) == lower_of(name)
}

/// Whether position `i` holds the first run of the named workflow.
pub open spec fn is_first_match(runs: Seq<RunView>, name: Seq<char>, i: int) -> bool {
    &&& 0 <= i < runs.len()
    &&& name_matches(runs[i].name, name)
    &&& forall|j: int| 0 <= j < i ==> !name_matches(#[trigger] runs[j].name, name)
}

/// The latest run of the named workflow in a runs listing, which the provider
/// orders newest first: the first run whose workflow name matches.
pub open spec fn lookup_by_name(runs: Seq<RunView>, name: Seq<char>) -> Result<RunView, GhError> {
    if exists|i: int| is_first_match(runs, name, i) {
        Ok(runs[choose|i: int| is_first_match(runs, name, i)])
    } else {
        Err(GhError::NotFound)
    }
}

/// A looked-up run as its view.
pub open spec fn run_result(r: Result<WorkflowRun, GhError>) -> Result<RunView, GhError> {
    match r {
        Ok(run) => Ok(run@),
        Err(e) => Err(e),
    }
}

/// A listing in which exactly one run belongs to the named workflow yields
/// that run.
pub proof fn lemma_single_matching_run_is_found(runs: Seq<RunView>, name: Seq<char>, i: int)
    requires
        0 <= i < runs.len(),
        name_matches(runs[i].name, name),
        forall|j: int| 0 <= j < runs.len() && j != i ==> !name_matches(#[trigger] runs[j].name, name),
    ensures
        lookup_by_name(runs, name) == Ok::<RunView, GhError>(runs[i]),
{
    assert(is_first_match(runs, name, i));
    let k = choose|k: int| is_first_match(runs, name, k);
    assert(k == i);
}

/// A listing in which no run belongs to the named workflow yields `NotFound`.
pub proof fn lemma_no_matching_run_is_not_found(runs: Seq<RunView>, name: Seq<char>)
    requires
        forall|j: int| 0 <= j < runs.len() ==> !name_matches(#[trigger] runs[j].name, name),
    ensures
        lookup_by_name(runs, name) == Err::<RunView, GhError>(GhError::NotFound),
{
}

/// Whether a workflow is in the active state.
pub open spec fn is_active(w: WorkflowView) -> bool {
    w.state == Some("active"@)
}

/// The position of the first text of `keys` equal to `key`.
pub fn first_matching_index(keys: &Vec<String>, key: &String) -> (r: Option<usize>)
    ensures
        match r {
            Some(i) => {
                &&& i < keys@.len()
                &&& keys@[i as int]@ == key@
                &&& forall|j: int| 0 <= j < i ==> (#[trigger] keys@[j])@ != key@
            },
            None => forall|j: int| 0 <= j < keys@.len() ==> (#[trigger] keys@[j])@ != key@,
        },
{
    let mut i: usize = 0;
    while i < keys.len()
        invariant
            i <= keys@.len(),
            forall|j: int| 0 <= j < i ==> (#[trigger] keys@[j])@ != key@,
        decreases keys.len() - i,
    {
        if keys[i] == *key {
            return Some(i);
        }
        i = i + 1;
    }
    None
}

/// The client for the CI provider, with the hostname policy of the session.
#[derive(Debug)]
pub struct Gh {
    /// custom hostname of the provider's API
    hostname: Option<String>,
    /// whether calls go to the custom hostname in this session
    should_use_custom_hostname: bool,
}

impl View for Gh {
    type V = GhView;

    closed spec fn view(&self) -> GhView {
        GhView {
            hostname: self.hostname.deep_view(),
            use_custom: self.should_use_custom_hostname,
        }
    }
}

impl Clone for Gh {
    fn clone(&self) -> (r: Self)
        ensures
            r == *self,
    {
        Gh {
            hostname: crate::model::copy_opt_text(&self.hostname),
            should_use_custom_hostname: self.should_use_custom_hostname,
        }
    }
}

impl Default for Gh {
    fn default() -> (r: Self)
        ensures
            r@ == (GhView { hostname: None, use_custom: false }),
    {
        Gh { hostname: None, should_use_custom_hostname: false }
    }
}

impl Gh {
    /// A client for a session whose probe of the default endpoint (the call
    /// that `probe_args` gives) succeeded or not; `hostname` is the configured
    /// custom hostname.
    pub fn new(hostname: Option<String>, probe_succeeded: bool) -> (gh: Gh)
        ensures
            gh@ == session_policy(hostname.deep_view(), probe_succeeded),
    {
        let mut gh = Gh { hostname, ..Default::default() };
        gh.check_should_use_custom_hostname(probe_succeeded);
        gh
    }

    /// Fixes the policy from the probe's outcome: the custom hostname is used
    /// exactly when the default endpoint could not be reached.
    fn check_should_use_custom_hostname(&mut self, probe_succeeded: bool)
        ensures
            final(self)@ == session_policy(old(self)@.hostname, probe_succeeded),
    {
        if probe_succeeded {
            self.should_use_custom_hostname = false;
        } else {
            self.should_use_custom_hostname = true;
        }
    }

    /// Whether calls go to the custom hostname in this session.
    pub fn uses_custom_hostname(&self) -> (r: bool)
        ensures
            r == self@.use_custom,
    {
        self.should_use_custom_hostname
    }

    /// The arguments of `gh` for the probe of the default endpoint.
    pub fn probe_args() -> (r: Vec<String>)
        ensures
            r.deep_view() == seq!["api"@, runs_endpoint()],
    {
        let r = vec![String::from_str("api"), String::from_str("/repos/{owner}/{repo}/actions/runs")];
        assert(r.deep_view() =~= seq!["api"@, runs_endpoint()]);
        r
    }

    /// The arguments of `gh` for an API call with the endpoint arguments
    /// `args`, under this session's policy.
    pub fn construct_gh_api_args(&self, args: &Vec<String>) -> (r: Result<Vec<String>, GhError>)
        ensures
            texts_result(r) == api_args(self@, args.deep_view()),
    {
        if self.should_use_custom_hostname {
            match &self.hostname {
                Some(hostname) => {
                    let mut gh_args = vec![
                        String::from_str("api"),
                        String::from_str("--hostname"),
                        hostname.clone(),
                    ];
                    assert(gh_args.deep_view() =~= seq!["api"@, "--hostname"@, hostname@]);
                    append_texts(&mut gh_args, args);
                    Ok(gh_args)
                },
                None => Err(GhError::Configuration),
            }
        } else {
            let mut gh_args = vec![String::from_str("api")];
            assert(gh_args.deep_view() =~= seq!["api"@]);
            append_texts(&mut gh_args, args);
            Ok(gh_args)
        }
    }

    /// The arguments of `gh` that list the runs of the repository.
    pub fn runs_request(&self) -> (r: Result<Vec<String>, GhError>)
        ensures
            texts_result(r) == api_args(self@, seq![runs_endpoint()]),
    {
        let args = vec![String::from_str("/repos/{owner}/{repo}/actions/runs")];
        assert(args.deep_view() =~= seq![runs_endpoint()]);
        self.construct_gh_api_args(&args)
    }

    /// The arguments of `gh` that list the workflows of the repository.
    pub fn workflows_request(&self) -> (r: Result<Vec<String>, GhError>)
        ensures
            texts_result(r) == api_args(self@, seq![workflows_endpoint()]),
    {
        let args = vec![String::from_str("/repos/{owner}/{repo}/actions/workflows")];
        assert(args.deep_view() =~= seq![workflows_endpoint()]);
        self.construct_gh_api_args(&args)
    }

    /// The arguments of `gh` that list up to 500 runs of one workflow.
    pub fn workflow_runs_request(&self, workflow_id: i64) -> (r: Result<Vec<String>, GhError>)
        ensures
            texts_result(r) == api_args(self@, seq![workflow_runs_endpoint(workflow_id)]),
    {
        let id = decimal(workflow_id);
        let url = String::from_str("/repos/{owner}/{repo}/actions/workflows/").concat(
            id.as_str(),
        ).concat("/runs?per_page=500");
        let args = vec![url];
        assert(args.deep_view() =~= seq![workflow_runs_endpoint(workflow_id)]);
        self.construct_gh_api_args(&args)
    }

    /// The arguments of `gh` that delete one run and its logs.
    pub fn delete_run_request(&self, run_id: i64) -> (r: Result<Vec<String>, GhError>)
        ensures
            texts_result(r) == api_args(self@, seq![run_endpoint(run_id), "--method"@, "DELETE"@]),
    {
        let id = decimal(run_id);
        let url = String::from_str("/repos/{owner}/{repo}/actions/runs/").concat(id.as_str());
        let args = vec![url, String::from_str("--method"), String::from_str("DELETE")];
        assert(args.deep_view() =~= seq![run_endpoint(run_id), "--method"@, "DELETE"@]);
        self.construct_gh_api_args(&args)
    }

    /// The host that a dispatch goes to: the custom hostname under the custom
    /// policy, and none (the default endpoint) otherwise.
    pub fn dispatch_host(&self) -> (r: Option<String>)
        ensures
            r.deep_view() == if self@.use_custom {
                self@.hostname
            } else {
                None
            },
    {
        if self.should_use_custom_hostname {
            crate::model::copy_opt_text(&self.hostname)
        } else {
            None
        }
    }

    /// The arguments of `gh` that dispatch a run of `workflow_name` on
    /// `reference`, with the `KEY=VALUE` inputs of `body`.
    pub fn dispatch_request(
        &self,
        reference: &String,
        workflow_name: &String,
        body: &Option<Vec<String>>,
    ) -> (r: Result<Vec<String>, GhError>)
        ensures
            texts_result(r) == dispatch_args(
                self@,
                reference@,
                workflow_name@,
                body.deep_view(),
            ),
    {
        if self.should_use_custom_hostname && self.hostname.is_none() {
            return Err(GhError::Configuration);
        }
        let mut args = vec![
            String::from_str("workflow"),
            String::from_str("run"),
            workflow_name.clone(),
            String::from_str("--ref"),
            reference.clone(),
        ];
        let ghost head = seq!["workflow"@, "run"@, workflow_name@, "--ref"@, reference@];
        assert(args.deep_view() =~= head);
        if let Some(inputs) = body {
            let mut i: usize = 0;
            while i < inputs.len()
                invariant
                    i <= inputs@.len(),
                    args.deep_view() == head + form_args(inputs.deep_view().take(i as int)),
                decreases inputs.len() - i,
            {
                let ghost before = args.deep_view();
                args.push(String::from_str("-f"));
                let item = inputs[i].clone();
                args.push(item);
                assert(args.deep_view() =~= before + seq!["-f"@, inputs@[i as int]@]);
                let ghost taken = inputs.deep_view().take(i + 1);
                assert(taken.drop_last() =~= inputs.deep_view().take(i as int));
                assert(form_args(taken) == form_args(taken.drop_last()) + seq![
                    "-f"@,
                    taken.last(),
                ]);
                i = i + 1;
            }
            assert(inputs.deep_view().take(i as int) =~= inputs.deep_view());
        } else {
            assert(form_args(seq![]) =~= seq![]);
            assert(args.deep_view() =~= head + seq![]);
        }
        Ok(args)
    }

    /// The latest run of the workflow called `name` (ignoring case) in a runs
    /// listing: the first run of the listing with that workflow name, or
    /// `NotFound` when none has it. Under an unusable policy the lookup is
    /// refused with a configuration error.
    pub fn get_workflow_run_by_name(&self, runs: &WorkflowRuns, name: &String) -> (r: Result<
        WorkflowRun,
        GhError,
    >)
        ensures
            run_result(r) == if policy_usable(self@) {
                lookup_by_name(runs.listed(), name@)
            } else {
                Err(GhError::Configuration)
            },
    {
        if self.should_use_custom_hostname && self.hostname.is_none() {
            return Err(GhError::Configuration);
        }
        match &runs.workflow_runs {
            None => Err(GhError::NotFound),
            Some(list) => {
                let key = lowercase(name.as_str());
                let mut lowered: Vec<String> = Vec::new();
                let mut i: usize = 0;
                while i < list.len()
                    invariant
                        i <= list@.len(),
                        lowered@.len() == i,
                        forall|j: int| 0 <= j < i ==> (#[trigger] lowered@[j])@ == lower_of(list@[j].name@),
                    decreases list.len() - i,
                {
                    lowered.push(lowercase(list[i].name.as_str()));
                    i = i + 1;
                }
                let ghost listed = runs.listed();
                assert(listed == run_views(list@));
                match first_matching_index(&lowered, &key) {
                    Some(i) => {
                        assert forall|j: int| 0 <= j < i implies !name_matches(
                            #[trigger] listed[j].name,
                            name@,
                        ) by {
                            assert(lowered@[j]@ != key@);
                        }
                        assert(is_first_match(listed, name@, i as int));
                        let ghost k = choose|k: int| is_first_match(listed, name@, k);
                        assert(k == i) by {
                            if k < i {
                                assert(!name_matches(listed[k].name, name@));
                            } else if k > i {
                                assert(!name_matches(listed[i as int].name, name@));
                            }
                        }
                        Ok(list[i].clone())
                    },
                    None => {
                        assert forall|k: int| !is_first_match(listed, name@, k) by {
                            if 0 <= k < listed.len() {
                                assert(lowered@[k]@ != key@);
                            }
                        }
                        Err(GhError::NotFound)
                    },
                }
            },
        }
    }

    /// The active workflows of a workflows listing, in the listing's order,
    /// with the count recomputed. Under an unusable policy the listing is
    /// refused with a configuration error.
    pub fn repo_workflows(&self, listing: Workflows) -> (r: Result<Workflows, GhError>)
        ensures
            r is Err <==> !policy_usable(self@),
            r matches Err(e) ==> e == GhError::Configuration,
            r matches Ok(w) ==> {
                &&& workflow_views(w.workflows@) == workflow_views(listing.workflows@).filter(
                    |v: WorkflowView| is_active(v),
                )
                &&& w.total_count == w.workflows@.len()
            },
    {
        if self.should_use_custom_hostname && self.hostname.is_none() {
            return Err(GhError::Configuration);
        }
        let ghost pred = |w: WorkflowView| is_active(w);
        let ghost all = workflow_views(listing.workflows@);
        let active = String::from_str("active");
        let mut kept: Vec<crate::model::Workflow> = Vec::new();
        let mut i: usize = 0;
        while i < listing.workflows.len()
            invariant
                i <= listing.workflows@.len(),
                all == workflow_views(listing.workflows@),
                pred == (|w: WorkflowView| is_active(w)),
                active@ == "active"@,
                workflow_views(kept@) == all.take(i as int).filter(pred),
            decreases listing.workflows.len() - i,
        {
            let w = &listing.workflows[i];
            let keep = match &w.state {
                Some(state) => *state == active,
                None => false,
            };
            proof {
                assert(all[i as int] == w@);
                assert(keep == pred(all[i as int]));
                lemma_filter_push(all.take(i as int), all[i as int], pred);
                assert(all.take(i + 1) =~= all.take(i as int).push(all[i as int]));
            }
            if keep {
                let ghost before = kept@;
                kept.push(w.clone());
                assert(workflow_views(kept@) =~= workflow_views(before).push(all[i as int]));
            }
            i = i + 1;
        }
        assert(all.take(i as int) =~= all);
        let total_count = kept.len();
        Ok(Workflows { total_count, workflows: kept })
    }
}

} // verus!
