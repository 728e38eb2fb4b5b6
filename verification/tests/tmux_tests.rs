use orcmate::error::OrcError;
use orcmate::tmux::{action_pane_target, monitor_pane_target, window_target, TmuxState};

#[test]
fn test_session_exists_nonexistent() {
    let tmux = TmuxState::new();
    assert!(!tmux.session_exists("orcmate_test_nonexistent_session_12345"));
}

#[test]
fn test_list_sessions_no_server() {
    let tmux = TmuxState::new();
    let sessions = tmux.list_sessions();
    assert!(sessions.is_empty());
}

#[test]
fn test_create_session() {
    let mut tmux = TmuxState::new();
    let result = tmux.create_session("fix-1", "/r/.worktrees/fix-1");
    assert!(result.is_ok());
    assert!(tmux.session_exists("fix-1"));
    assert_eq!(tmux.list_sessions(), vec!["fix-1".to_string()]);
}

#[test]
fn test_create_session_already_exists() {
    let mut tmux = TmuxState::new();
    tmux.create_session("fix-1", "/r/.worktrees/fix-1").unwrap();
    let result = tmux.create_session("fix-1", "/r/.worktrees/fix-1");
    match result.unwrap_err() {
        OrcError::TmuxSessionExists(name) => assert_eq!(name, "fix-1"),
        other => panic!("Expected TmuxSessionExists, got: {:?}", other),
    }
    assert_eq!(tmux.list_sessions().len(), 1);
}

#[test]
fn test_kill_session() {
    let mut tmux = TmuxState::new();
    tmux.create_session("fix-1", "/r/.worktrees/fix-1").unwrap();
    assert!(tmux.kill_session("fix-1"));
    assert!(!tmux.session_exists("fix-1"));
    assert!(!tmux.kill_session("fix-1"));
}

#[test]
fn test_pane_targets() {
    assert_eq!(window_target("fix-1"), "fix-1:0");
    assert_eq!(action_pane_target("fix-1"), "fix-1:0.0");
    assert_eq!(monitor_pane_target("fix-1"), "fix-1:0.1");
}
