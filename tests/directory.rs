use gh_ac::{
    chosen_workflow, find_unused, resolve_name, select_workflow, NameResolution, Workflow,
    WorkflowSelection, Workflows,
};

fn workflow(id: i64, name: &str, path: &str) -> Workflow {
    Workflow {
        id,
        node_id: String::new(),
        name: name.to_string(),
        path: path.to_string(),
        state: Some("active".to_string()),
        created_at: String::new(),
        updated_at: String::new(),
        url: String::new(),
        html_url: String::new(),
    }
}

#[test]
fn given_name_is_trimmed() {
    match resolve_name(&Some("  Build  ".to_string())) {
        NameResolution::Named(n) => assert_eq!(n, "Build"),
        NameResolution::FromWorkflows => panic!("expected the given name"),
    }
}

#[test]
fn given_name_is_kept_verbatim() {
    match resolve_name(&Some("Build And Test".to_string())) {
        NameResolution::Named(n) => assert_eq!(n, "Build And Test"),
        NameResolution::FromWorkflows => panic!("expected the given name"),
    }
}

#[test]
fn absent_name_goes_to_workflows() {
    assert!(matches!(resolve_name(&None), NameResolution::FromWorkflows));
}

#[test]
fn empty_given_name_is_kept() {
    match resolve_name(&Some(String::new())) {
        NameResolution::Named(n) => assert_eq!(n, ""),
        NameResolution::FromWorkflows => panic!("expected the given name"),
    }
}

#[test]
fn only_workflow_is_selected() {
    let ws = Workflows { total_count: 1, workflows: vec![workflow(3, "CI", "ci.yml")] };
    match select_workflow(&ws) {
        WorkflowSelection::Only(w) => assert_eq!(w.id, 3),
        other => panic!("unexpected {:?}", other),
    }
}

#[test]
fn several_workflows_need_a_prompt() {
    let ws = Workflows {
        total_count: 2,
        workflows: vec![workflow(3, "CI", "ci.yml"), workflow(4, "Lint", "lint.yml")],
    };
    assert!(matches!(select_workflow(&ws), WorkflowSelection::Prompt));
    assert_eq!(chosen_workflow(&ws, Some(1)).unwrap().id, 4);
    assert!(chosen_workflow(&ws, Some(2)).is_none());
    assert!(chosen_workflow(&ws, None).is_none());
}

#[test]
fn no_workflows_is_its_own_outcome() {
    let ws = Workflows { total_count: 0, workflows: vec![] };
    assert!(matches!(select_workflow(&ws), WorkflowSelection::NoWorkflows));
}

#[test]
fn unused_workflows_have_name_equal_to_path() {
    let ws = Workflows {
        total_count: 3,
        workflows: vec![
            workflow(1, "CI", ".github/workflows/ci.yml"),
            workflow(2, "old-job.yml", "old-job.yml"),
            workflow(3, "retired.yml", "retired.yml"),
        ],
    };
    let unused = find_unused(&ws);
    let ids: Vec<i64> = unused.iter().map(|w| w.id).collect();
    assert_eq!(ids, vec![2, 3]);
}

#[test]
fn no_unused_workflows() {
    let ws = Workflows {
        total_count: 1,
        workflows: vec![workflow(1, "CI", ".github/workflows/ci.yml")],
    };
    assert!(find_unused(&ws).is_empty());
}
