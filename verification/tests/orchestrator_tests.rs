use orcmate::config::Config;
use orcmate::error::OrcError;
use orcmate::git::GitState;
use orcmate::orchestrator::{clean, list, missing_dependencies, start};
use orcmate::tmux::TmuxState;

#[test]
fn test_start_twice_fails_without_further_mutation() {
    let config = Config::new();
    let mut git = GitState::new();
    let mut tmux = TmuxState::new();

    start(&config, &mut git, &mut tmux, "/r", "fix-1").unwrap();
    let branches_before = git.branches.clone();
    let worktrees_before = git.worktrees.clone();
    let sessions_before = tmux.sessions.clone();

    let second = start(&config, &mut git, &mut tmux, "/r", "fix-1");
    match second.unwrap_err() {
        OrcError::WorktreeAlreadyExists(name, path) => {
            assert_eq!(name, "fix-1");
            assert_eq!(path, "/r/.worktrees/fix-1");
        }
        other => panic!("Expected WorktreeAlreadyExists, got: {:?}", other),
    }
    assert_eq!(git.branches, branches_before);
    assert_eq!(git.worktrees, worktrees_before);
    assert_eq!(tmux.sessions, sessions_before);
}

#[test]
fn test_clean_is_idempotent() {
    let config = Config::new();
    let mut git = GitState::new();
    let mut tmux = TmuxState::new();

    start(&config, &mut git, &mut tmux, "/r", "fix-1").unwrap();

    let first = clean(&config, &mut git, &mut tmux, "/r", "fix-1");
    assert!(first.session_killed);
    assert!(first.worktree_removed);
    assert!(first.branch_deleted);

    let second = clean(&config, &mut git, &mut tmux, "/r", "fix-1");
    assert!(!second.session_killed);
    assert!(!second.worktree_removed);
    assert!(!second.branch_deleted);
}

#[test]
fn test_start_then_clean_then_list_shows_nothing() {
    let config = Config::new();
    let mut git = GitState::new();
    let mut tmux = TmuxState::new();

    start(&config, &mut git, &mut tmux, "/r", "fix-1").unwrap();
    clean(&config, &mut git, &mut tmux, "/r", "fix-1");

    let (worktrees, sessions) = list(&config, &git, &tmux);
    assert!(worktrees.iter().all(|w| !w.contains("fix-1")));
    assert!(sessions.iter().all(|s| s != "fix-1"));
}

#[test]
fn test_start_reuses_surviving_branch() {
    let config = Config::new();
    let mut git = GitState {
        branches: vec!["agent/fix-1".to_string()],
        worktrees: vec![],
    };
    let mut tmux = TmuxState::new();

    let result = start(&config, &mut git, &mut tmux, "/r", "fix-1");
    assert!(result.is_ok());
    assert_eq!(git.branches, vec!["agent/fix-1".to_string()]);
    assert!(git.worktree_exists("/r/.worktrees/fix-1"));
    assert!(tmux.session_exists("fix-1"));
}

#[test]
fn test_list_filters_to_worktree_dir() {
    let config = Config::new();
    let git = GitState {
        branches: vec!["main".to_string()],
        worktrees: vec![
            "/r".to_string(),
            "/r/.worktrees/fix-1".to_string(),
            "/elsewhere/other-checkout".to_string(),
        ],
    };
    let tmux = TmuxState::new();

    let (worktrees, _) = list(&config, &git, &tmux);
    assert_eq!(worktrees, vec!["/r/.worktrees/fix-1".to_string()]);
}

#[test]
fn test_full_lifecycle_scenario() {
    let config = Config::new();
    let mut git = GitState::new();
    let mut tmux = TmuxState::new();

    assert_eq!(config.branch_name("fix-1"), "agent/fix-1");
    assert_eq!(config.worktree_path("/r", "fix-1"), "/r/.worktrees/fix-1");

    start(&config, &mut git, &mut tmux, "/r", "fix-1").unwrap();
    let (worktrees, sessions) = list(&config, &git, &tmux);
    assert!(worktrees.iter().any(|w| w.contains(".worktrees/fix-1")));
    assert!(sessions.iter().any(|s| s == "fix-1"));
    assert!(git.branch_exists("agent/fix-1"));

    clean(&config, &mut git, &mut tmux, "/r", "fix-1");
    let (worktrees, sessions) = list(&config, &git, &tmux);
    assert!(worktrees.iter().all(|w| !w.contains(".worktrees/fix-1")));
    assert!(sessions.iter().all(|s| s != "fix-1"));
    assert!(!git.branch_exists("agent/fix-1"));
}

#[test]
fn test_start_session_collision_keeps_worktree() {
    let config = Config::new();
    let mut git = GitState::new();
    let mut tmux = TmuxState::new();
    tmux.create_session("fix-1", "/somewhere/else").unwrap();

    let result = start(&config, &mut git, &mut tmux, "/r", "fix-1");
    match result.unwrap_err() {
        OrcError::TmuxSessionExists(name) => assert_eq!(name, "fix-1"),
        other => panic!("Expected TmuxSessionExists, got: {:?}", other),
    }
    // fail-fast without rollback: the worktree created before the session
    // step failed stays in place for a later clean or retried start
    assert!(git.worktree_exists("/r/.worktrees/fix-1"));
    assert_eq!(tmux.list_sessions().len(), 1);
}

#[test]
fn test_missing_dependencies_none() {
    assert!(missing_dependencies(true, true).is_none());
}

#[test]
fn test_missing_dependencies_tmux_only() {
    match missing_dependencies(false, true).unwrap() {
        OrcError::MissingDependencies(s) => assert_eq!(s, "tmux"),
        other => panic!("Expected MissingDependencies, got: {:?}", other),
    }
}

#[test]
fn test_missing_dependencies_git_only() {
    match missing_dependencies(true, false).unwrap() {
        OrcError::MissingDependencies(s) => assert_eq!(s, "git"),
        other => panic!("Expected MissingDependencies, got: {:?}", other),
    }
}

#[test]
fn test_missing_dependencies_both() {
    match missing_dependencies(false, false).unwrap() {
        OrcError::MissingDependencies(s) => assert_eq!(s, "tmux, git"),
        other => panic!("Expected MissingDependencies, got: {:?}", other),
    }
}
