use gh_ac::{Gh, GhError, SingleWorkflowRuns, Workflow, WorkflowRun, WorkflowRuns, Workflows};

fn run(id: i64, name: &str, status: &str, url: &str) -> WorkflowRun {
    WorkflowRun {
        id,
        name: name.to_string(),
        status: status.to_string(),
        html_url: url.to_string(),
        ..WorkflowRun::default()
    }
}

fn workflow(id: i64, name: &str, path: &str, state: Option<&str>) -> Workflow {
    Workflow {
        id,
        node_id: String::new(),
        name: name.to_string(),
        path: path.to_string(),
        state: state.map(|s| s.to_string()),
        created_at: String::new(),
        updated_at: String::new(),
        url: String::new(),
        html_url: String::new(),
    }
}

fn texts(v: &[&str]) -> Vec<String> {
    v.iter().map(|s| s.to_string()).collect()
}

#[test]
fn snapshots_with_other_id_and_url_differ() {
    let a = run(1, "CI", "completed", "https://x/1");
    let b = run(2, "CI", "completed", "https://x/2");
    assert!(a != b);
    assert!(!a.same_as(&b));
}

#[test]
fn snapshots_with_all_fields_equal_are_equal() {
    let a = run(1, "CI", "completed", "https://x/1");
    let b = a.clone();
    assert!(a == b);
    assert!(a.same_as(&b));
}

#[test]
fn changing_any_single_field_breaks_equality() {
    let base = run(1, "CI", "completed", "https://x/1");
    let mut changed = Vec::new();
    let mut c = base.clone();
    c.id = 9;
    changed.push(c);
    let mut c = base.clone();
    c.status = "in_progress".to_string();
    changed.push(c);
    let mut c = base.clone();
    c.conclusion = Some("success".to_string());
    changed.push(c);
    let mut c = base.clone();
    c.html_url = "https://x/9".to_string();
    changed.push(c);
    let mut c = base.clone();
    c.updated_at = "2024-01-01T00:00:00Z".to_string();
    changed.push(c);
    let mut c = base.clone();
    c.run_number = 3;
    changed.push(c);
    let mut c = base.clone();
    c.display_title = Some("title".to_string());
    changed.push(c);
    for c in &changed {
        assert!(*c != base);
    }
}

#[test]
fn default_snapshot_is_empty() {
    let d = WorkflowRun::default();
    assert_eq!(d.id, 0);
    assert_eq!(d.html_url, "");
    assert_eq!(d.conclusion, None);
    assert_eq!(d.run_number, 0);
}

#[test]
fn single_matching_run_is_found() {
    let runs = WorkflowRuns {
        total_count: 1,
        workflow_runs: Some(vec![run(5, "Build", "completed", "https://x/5")]),
    };
    let found = Gh::new(None, true).get_workflow_run_by_name(&runs, &"Build".to_string()).unwrap();
    assert_eq!(found.id, 5);
    assert_eq!(found.html_url, "https://x/5");
}

#[test]
fn no_runs_gives_not_found() {
    let runs = WorkflowRuns { total_count: 0, workflow_runs: Some(vec![]) };
    let r = Gh::new(None, true).get_workflow_run_by_name(&runs, &"Build".to_string());
    assert_eq!(r.unwrap_err(), GhError::NotFound);
    let absent = WorkflowRuns { total_count: 0, workflow_runs: None };
    let r = Gh::new(None, true).get_workflow_run_by_name(&absent, &"Build".to_string());
    assert_eq!(r.unwrap_err(), GhError::NotFound);
}

#[test]
fn other_workflows_runs_give_not_found() {
    let runs = WorkflowRuns {
        total_count: 2,
        workflow_runs: Some(vec![
            run(1, "Lint", "completed", "https://x/1"),
            run(2, "Docs", "queued", "https://x/2"),
        ]),
    };
    let r = Gh::new(None, true).get_workflow_run_by_name(&runs, &"Build".to_string());
    assert_eq!(r.unwrap_err(), GhError::NotFound);
}

#[test]
fn lookup_ignores_case_and_takes_first_match() {
    let runs = WorkflowRuns {
        total_count: 3,
        workflow_runs: Some(vec![
            run(1, "Lint", "completed", "https://x/1"),
            run(2, "BUILD", "queued", "https://x/2"),
            run(3, "build", "completed", "https://x/3"),
        ]),
    };
    let found = Gh::new(None, true).get_workflow_run_by_name(&runs, &"Build".to_string()).unwrap();
    assert_eq!(found.id, 2);
}

#[test]
fn first_matching_index_finds_first_equal_key() {
    let keys = texts(&["a", "b", "b"]);
    assert_eq!(gh_ac::gh::first_matching_index(&keys, &"b".to_string()), Some(1));
    assert_eq!(gh_ac::gh::first_matching_index(&keys, &"c".to_string()), None);
    assert_eq!(gh_ac::gh::first_matching_index(&keys, &"B".to_string()), None);
}

#[test]
fn default_policy_prefixes_api_only() {
    let gh = Gh::new(Some("ghe.example.com".to_string()), true);
    assert!(!gh.uses_custom_hostname());
    let args = gh.construct_gh_api_args(&texts(&["/x", "--method", "DELETE"])).unwrap();
    assert_eq!(args, texts(&["api", "/x", "--method", "DELETE"]));
}

#[test]
fn custom_policy_adds_hostname() {
    let gh = Gh::new(Some("ghe.example.com".to_string()), false);
    assert!(gh.uses_custom_hostname());
    let args = gh.construct_gh_api_args(&texts(&["/x"])).unwrap();
    assert_eq!(args, texts(&["api", "--hostname", "ghe.example.com", "/x"]));
}

#[test]
fn failed_probe_without_hostname_refuses_every_call() {
    let gh = Gh::new(None, false);
    assert_eq!(gh.construct_gh_api_args(&texts(&["/x"])).unwrap_err(), GhError::Configuration);
    assert_eq!(gh.runs_request().unwrap_err(), GhError::Configuration);
    assert_eq!(gh.workflows_request().unwrap_err(), GhError::Configuration);
    assert_eq!(gh.workflow_runs_request(7).unwrap_err(), GhError::Configuration);
    assert_eq!(gh.delete_run_request(7).unwrap_err(), GhError::Configuration);
    let d = gh.dispatch_request(&"main".to_string(), &"CI".to_string(), &None);
    assert_eq!(d.unwrap_err(), GhError::Configuration);
    let runs = WorkflowRuns {
        total_count: 1,
        workflow_runs: Some(vec![run(5, "Build", "completed", "https://x/5")]),
    };
    let r = gh.get_workflow_run_by_name(&runs, &"Build".to_string());
    assert_eq!(r.unwrap_err(), GhError::Configuration);
    let listing = Workflows {
        total_count: 1,
        workflows: vec![workflow(1, "CI", "ci.yml", Some("active"))],
    };
    assert_eq!(gh.repo_workflows(listing).unwrap_err(), GhError::Configuration);
}

#[test]
fn dispatch_goes_to_the_session_host() {
    assert_eq!(Gh::new(Some("ghe.example.com".to_string()), false).dispatch_host(), Some("ghe.example.com".to_string()));
    assert_eq!(Gh::new(Some("ghe.example.com".to_string()), true).dispatch_host(), None);
}

#[test]
fn successful_probe_without_hostname_works() {
    let gh = Gh::new(None, true);
    assert_eq!(
        gh.runs_request().unwrap(),
        texts(&["api", "/repos/{owner}/{repo}/actions/runs"])
    );
}

#[test]
fn probe_args_list_runs() {
    assert_eq!(Gh::probe_args(), texts(&["api", "/repos/{owner}/{repo}/actions/runs"]));
}

#[test]
fn request_endpoints() {
    let gh = Gh::new(None, true);
    assert_eq!(
        gh.workflows_request().unwrap(),
        texts(&["api", "/repos/{owner}/{repo}/actions/workflows"])
    );
    assert_eq!(
        gh.workflow_runs_request(12345).unwrap(),
        texts(&["api", "/repos/{owner}/{repo}/actions/workflows/12345/runs?per_page=500"])
    );
    assert_eq!(
        gh.delete_run_request(-42).unwrap(),
        texts(&["api", "/repos/{owner}/{repo}/actions/runs/-42", "--method", "DELETE"])
    );
}

#[test]
fn dispatch_request_with_inputs() {
    let gh = Gh::new(Some("h".to_string()), false);
    let body = Some(texts(&["A=1", "B=2"]));
    let args = gh.dispatch_request(&"main".to_string(), &"CI".to_string(), &body).unwrap();
    assert_eq!(
        args,
        texts(&["workflow", "run", "CI", "--ref", "main", "-f", "A=1", "-f", "B=2"])
    );
    let args = gh.dispatch_request(&"v1".to_string(), &"CI".to_string(), &None).unwrap();
    assert_eq!(args, texts(&["workflow", "run", "CI", "--ref", "v1"]));
}

#[test]
fn repo_workflows_keeps_active_only() {
    let listing = Workflows {
        total_count: 3,
        workflows: vec![
            workflow(1, "CI", ".github/workflows/ci.yml", Some("active")),
            workflow(2, "Old", ".github/workflows/old.yml", Some("disabled_manually")),
            workflow(3, "Docs", ".github/workflows/docs.yml", None),
            workflow(4, "Lint", ".github/workflows/lint.yml", Some("active")),
        ],
    };
    let active = Gh::new(None, true).repo_workflows(listing).unwrap();
    assert_eq!(active.total_count, 2);
    let ids: Vec<i64> = active.workflows.iter().map(|w| w.id).collect();
    assert_eq!(ids, vec![1, 4]);
}

#[test]
fn workflow_description() {
    let w = workflow(1, "CI", ".github/workflows/ci.yml", None);
    assert_eq!(w.describe(), "CI (.github/workflows/ci.yml)");
}

#[test]
fn extreme_ids_render_in_decimal() {
    let gh = Gh::new(None, true);
    assert_eq!(
        gh.delete_run_request(i64::MIN).unwrap()[1],
        "/repos/{owner}/{repo}/actions/runs/-9223372036854775808"
    );
    assert_eq!(
        gh.delete_run_request(0).unwrap()[1],
        "/repos/{owner}/{repo}/actions/runs/0"
    );
    assert_eq!(
        gh.workflow_runs_request(i64::MAX).unwrap()[1],
        "/repos/{owner}/{repo}/actions/workflows/9223372036854775807/runs?per_page=500"
    );
}

#[test]
fn listings_compare_and_copy_field_by_field() {
    let listing = Workflows {
        total_count: 2,
        workflows: vec![
            workflow(1, "CI", "ci.yml", Some("active")),
            workflow(2, "Lint", "lint.yml", None),
        ],
    };
    let copy = listing.clone();
    assert!(copy == listing);
    let mut other = listing.clone();
    other.workflows[1].path = "other.yml".to_string();
    assert!(other != listing);
    assert!(Workflows::default() == Workflows { total_count: 0, workflows: vec![] });
    assert!(workflow(1, "CI", "ci.yml", None) == workflow(1, "CI", "ci.yml", None));
    assert!(workflow(1, "CI", "ci.yml", None) != workflow(1, "CI", "ci.yml", Some("active")));
    assert_eq!(Workflow::default().id, 0);

    let runs = WorkflowRuns {
        total_count: 1,
        workflow_runs: Some(vec![run(5, "Build", "completed", "https://x/5")]),
    };
    assert!(runs.clone() == runs);
    assert!(WorkflowRuns::default() != runs);
    assert!(WorkflowRuns::default() != WorkflowRuns { total_count: 0, workflow_runs: Some(vec![]) });

    let history = SingleWorkflowRuns {
        total_count: 1,
        workflow_runs: vec![workflow(9, "old.yml", "old.yml", None)],
    };
    assert!(history.clone() == history);
    assert!(SingleWorkflowRuns::default() != history);
}
