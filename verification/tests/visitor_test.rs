use crane::components::git_dependency::GitDependency;
use crane::visitors::component_sync_visitor;
use crane::visitors::component_visitor::missing_config_error;
use crane::visitors::component_visitor::plan_solution_expansion;
use crane::visitors::status_visitor::StatusVisitor;
use crane::visitors::sync_visitor::advance;
use crane::visitors::sync_visitor::fetch_refspec;
use crane::visitors::sync_visitor::next_action;
use crane::visitors::sync_visitor::ComponentSyncVisitor;
use crane::visitors::sync_visitor::SyncAction;
use crane::visitors::sync_visitor::SyncState;

fn dep(branch: Option<&str>, commit: Option<&str>) -> GitDependency {
    GitDependency {
        paths: None,
        url: "https://host/repo.git".to_string(),
        commit: commit.map(|s| s.to_string()),
        branch: branch.map(|s| s.to_string()),
        deps_file: None,
    }
}

#[test]
fn test_sync_protocol_happy_path() {
    let mut state = SyncState::Uninitialized;
    let expected = [
        SyncAction::FetchCache,
        SyncAction::LinkAlternate,
        SyncAction::FetchTarget,
        SyncAction::Checkout,
    ];
    for step in expected.iter() {
        assert_eq!(next_action(state), *step);
        state = advance(state, true);
    }
    assert_eq!(state, SyncState::CheckedOut);
    assert_eq!(next_action(state), SyncAction::Done);
    assert_eq!(advance(state, false), SyncState::CheckedOut);
}

#[test]
fn test_sync_protocol_failure_is_terminal() {
    let state = advance(SyncState::TargetLinked, false);
    assert_eq!(state, SyncState::Failed);
    assert_eq!(next_action(state), SyncAction::Abort);
    assert_eq!(advance(state, true), SyncState::Failed);
}

#[test]
fn test_fetch_refspec_precedence() {
    let d = dep(Some("main"), Some("abc"));
    assert_eq!(fetch_refspec(&d).unwrap(), "main");
    let d = dep(None, Some("abc"));
    assert_eq!(fetch_refspec(&d).unwrap(), "abc");
    let d = dep(None, None);
    assert_eq!(
        fetch_refspec(&d).unwrap_err().message,
        "neither branch nor commit is specified"
    );
}

#[test]
fn test_plan_visit_git_branch_with_commit() {
    let v = ComponentSyncVisitor::new();
    let d = dep(Some("main"), Some("abc123"));
    let p = v.plan_visit_git(&d, "fetchhead").unwrap();
    assert_eq!(p.refname.as_deref(), Some("refs/for/main"));
    assert_eq!(p.target, "abc123");
    assert_eq!(p.head, "refs/for/main");
}

#[test]
fn test_plan_visit_git_branch_only() {
    let v = ComponentSyncVisitor::new();
    let d = dep(Some("main"), None);
    let p = v.plan_visit_git(&d, "fetchhead").unwrap();
    assert_eq!(p.refname.as_deref(), Some("refs/for/main"));
    assert_eq!(p.target, "fetchhead");
    assert_eq!(p.head, "refs/for/main");
}

#[test]
fn test_plan_visit_git_commit_only() {
    let v = ComponentSyncVisitor::new();
    let d = dep(None, Some("abc123"));
    let p = v.plan_visit_git(&d, "fetchhead").unwrap();
    assert!(p.refname.is_none());
    assert_eq!(p.target, "abc123");
    assert_eq!(p.head, "abc123");
}

#[test]
fn test_plan_visit_git_nothing_requested() {
    let v = ComponentSyncVisitor::new();
    let d = dep(None, None);
    let e = v.plan_visit_git(&d, "fetchhead").unwrap_err();
    assert_eq!(e.message, "neither branch nor commit is specified");
}

#[test]
fn test_plan_solution_expansion_gate() {
    let f = Some(".crane".to_string());
    assert_eq!(
        plan_solution_expansion(true, f.clone(), true),
        Some(".crane".to_string())
    );
    assert_eq!(plan_solution_expansion(false, f.clone(), true), None);
    assert_eq!(plan_solution_expansion(true, f.clone(), false), None);
    assert_eq!(plan_solution_expansion(true, None, true), None);
}

#[test]
fn test_missing_config_error_message() {
    let e = missing_config_error("/work/proj/.crane");
    assert_eq!(
        e.message,
        "Can not find a valid config file in path /work/proj/.crane"
    );
}

#[test]
fn test_status_visitor_repo_dir() {
    let v = StatusVisitor::new();
    assert_eq!(v.repo_dir("/work/proj", "sub1"), "/work/proj/sub1");
    assert_eq!(v.repo_dir("/work/proj", "/abs/dir"), "/abs/dir");
    assert_eq!(v.repo_dir("", "sub1"), "sub1");
}

#[test]
fn test_plain_sync_visitor_messages() {
    let v = component_sync_visitor::ComponentSyncVisitor::new();
    assert_eq!(
        v.solution_done_message("proj"),
        "Solution proj is done"
    );
    assert_eq!(
        v.deps_to_parse("/work/proj", &Some(".crane".to_string())),
        Some("/work/proj/.crane".to_string())
    );
    assert_eq!(v.deps_to_parse("/work/proj", &None), None);
}

#[test]
fn test_get_version() {
    assert_eq!(crane::commands::version::get_version(), "0.1.0");
}

#[test]
fn test_error_new() {
    let e = crane::errors::Error::new("boom".to_string());
    assert_eq!(e.message, "boom");
}
