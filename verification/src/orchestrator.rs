//! The lifecycle orchestrator: `start`, `clean` and `list` over the paired
//! registries, and the laws they obey.
//!
//! `start` is a fail-fast pipeline — worktree first, then session — with no
//! rollback: a resource created before a later step fails stays in place, so
//! a retried `start` or a `clean` can reconcile. `clean` is the inverse
//! sequence and keeps going past resources that are already absent, so it is
//! safe to re-run against a partially created or partially destroyed
//! environment. `list` is read-only.

use vstd::prelude::*;
use vstd::string::StringExecFns;

use crate::config::{spec_branch_name, spec_worktree_path, Config};
use crate::error::OrcError;
use crate::git::{GitState, GitView};
use crate::names::{
    contains_seq, lemma_lines_with_elements, lemma_names_without_idempotent,
    lemma_names_without_not_contains, lemma_push_contains, lines_with, names_without,
};
use crate::tmux::{TmuxState, TmuxView};

verus! {

/// What `start` did to the registries, decided by their prior state.
pub enum StartOutcome {
    Started,
    WorktreeExists,
    SessionExists,
}

/// What `clean` found: for each of the three resources, whether there was
/// anything to remove. "Not found" is expected and informative, not an
/// error.
#[derive(Clone, Copy, Debug, PartialEq, Eq, Structural)]
pub struct CleanReport {
    pub session_killed: bool,
    pub worktree_removed: bool,
    pub branch_deleted: bool,
}

pub open spec fn spec_start_outcome(
    git: GitView,
    tmux: TmuxView,
    path: Seq<char>,
    task: Seq<char>,
) -> StartOutcome {
    if git.worktrees.contains(path) {
        StartOutcome::WorktreeExists
    } else if tmux.sessions.contains(task) {
        StartOutcome::SessionExists
    } else {
        StartOutcome::Started
    }
}

/// How `start` leaves the version-control registries. The worktree step
/// runs before the session step, so it goes through even when the session
/// name turns out to be taken afterwards.
pub open spec fn spec_start_git(git: GitView, path: Seq<char>, branch: Seq<char>) -> GitView {
    if git.worktrees.contains(path) {
        git
    } else {
        GitView {
            branches: if git.branches.contains(branch) {
                git.branches
            } else {
                git.branches.push(branch)
            },
            worktrees: git.worktrees.push(path),
        }
    }
}

/// How `start` leaves the session registry.
pub open spec fn spec_start_tmux(
    git: GitView,
    tmux: TmuxView,
    path: Seq<char>,
    task: Seq<char>,
) -> TmuxView {
    if git.worktrees.contains(path) || tmux.sessions.contains(task) {
        tmux
    } else {
        TmuxView { sessions: tmux.sessions.push(task) }
    }
}

/// How `clean` leaves the version-control registries.
pub open spec fn spec_clean_git(git: GitView, path: Seq<char>, branch: Seq<char>) -> GitView {
    GitView {
        branches: names_without(git.branches, branch),
        worktrees: names_without(git.worktrees, path),
    }
}

/// How `clean` leaves the session registry.
pub open spec fn spec_clean_tmux(tmux: TmuxView, task: Seq<char>) -> TmuxView {
    TmuxView { sessions: names_without(tmux.sessions, task) }
}

/// What `clean` reports: each resource was found exactly when its registry
/// held it beforehand.
pub open spec fn spec_clean_report(
    git: GitView,
    tmux: TmuxView,
    path: Seq<char>,
    branch: Seq<char>,
    task: Seq<char>,
) -> CleanReport {
    CleanReport {
        session_killed: tmux.sessions.contains(task),
        worktree_removed: git.worktrees.contains(path),
        branch_deleted: git.branches.contains(branch),
    }
}

/// Provision the environment for a task: the worktree on its branch first,
/// then the session. Fail-fast, no rollback.
pub fn start(
    config: &Config,
    git: &mut GitState,
    tmux: &mut TmuxState,
    repo_root: &str,
    task_name: &str,
) -> (r: Result<(), OrcError>)
    ensures
        ({
            let path = spec_worktree_path(repo_root@, config.worktree_dir@, task_name@);
            let branch = spec_branch_name(config.branch_prefix@, task_name@);
            &&& final(git)@ == spec_start_git(old(git)@, path, branch)
            &&& final(tmux)@ == spec_start_tmux(old(git)@, old(tmux)@, path, task_name@)
            &&& match spec_start_outcome(old(git)@, old(tmux)@, path, task_name@) {
                StartOutcome::Started => r is Ok,
                StartOutcome::WorktreeExists => r matches Err(
                    OrcError::WorktreeAlreadyExists(t, p),
                ) && t@ == task_name@ && p@ == path,
                StartOutcome::SessionExists => r matches Err(OrcError::TmuxSessionExists(t)) && t@
                    == task_name@,
            }
        }),
{
    match git.create_worktree(config, repo_root, task_name) {
        Err(e) => {
            return Err(e);
        },
        Ok(_) => {},
    }
    let worktree_path = config.worktree_path(repo_root, task_name);
    match tmux.create_session(task_name, worktree_path.as_str()) {
        Err(e) => {
            return Err(e);
        },
        Ok(_) => {},
    }
    Ok(())
}

/// Tear the environment of a task down: session, then worktree, then
/// branch, each step tolerant of the resource being absent already.
pub fn clean(
    config: &Config,
    git: &mut GitState,
    tmux: &mut TmuxState,
    repo_root: &str,
    task_name: &str,
) -> (r: CleanReport)
    ensures
        ({
            let path = spec_worktree_path(repo_root@, config.worktree_dir@, task_name@);
            let branch = spec_branch_name(config.branch_prefix@, task_name@);
            &&& final(git)@ == spec_clean_git(old(git)@, path, branch)
            &&& final(tmux)@ == spec_clean_tmux(old(tmux)@, task_name@)
            &&& r == spec_clean_report(old(git)@, old(tmux)@, path, branch, task_name@)
        }),
{
    let session_killed = tmux.kill_session(task_name);
    let worktree_removed = git.remove_worktree(config, repo_root, task_name);
    let branch_name = config.branch_name(task_name);
    let branch_deleted = git.delete_branch(branch_name.as_str());
    CleanReport { session_killed, worktree_removed, branch_deleted }
}

/// Read both registries: the worktrees under the configured subdirectory,
/// and every session. Never mutates.
pub fn list(config: &Config, git: &GitState, tmux: &TmuxState) -> (r: (Vec<String>, Vec<String>))
    ensures
        r.0.deep_view() == lines_with(git@.worktrees, config.worktree_dir@),
        r.1.deep_view() == tmux@.sessions,
{
    (git.list_worktrees(config), tmux.list_sessions())
}

/// The dependency check's verdict, given whether each required tool is on
/// the system: absent tools are named in order, tmux before git, joined
/// with a comma.
pub fn missing_dependencies(tmux_available: bool, git_available: bool) -> (r: Option<OrcError>)
    ensures
        tmux_available && git_available ==> r is None,
        !tmux_available && git_available ==> (r matches Some(OrcError::MissingDependencies(s))
            && s@ == "tmux"@),
        tmux_available && !git_available ==> (r matches Some(OrcError::MissingDependencies(s))
            && s@ == "git"@),
        !tmux_available && !git_available ==> (r matches Some(OrcError::MissingDependencies(s))
            && s@ == "tmux, git"@),
{
    if tmux_available && git_available {
        None
    } else if !tmux_available && git_available {
        Some(OrcError::MissingDependencies("tmux".to_owned()))
    } else if tmux_available && !git_available {
        Some(OrcError::MissingDependencies("git".to_owned()))
    } else {
        Some(OrcError::MissingDependencies("tmux, git".to_owned()))
    }
}

/// Law: after a successful `start` of a task, starting it again reports the
/// worktree as already existing and mutates nothing further.
pub proof fn lemma_start_repeat(
    git: GitView,
    tmux: TmuxView,
    prefix: Seq<char>,
    root: Seq<char>,
    dir: Seq<char>,
    task: Seq<char>,
)
    requires
        spec_start_outcome(git, tmux, spec_worktree_path(root, dir, task), task) is Started,
    ensures
        ({
            let path = spec_worktree_path(root, dir, task);
            let branch = spec_branch_name(prefix, task);
            let git1 = spec_start_git(git, path, branch);
            let tmux1 = spec_start_tmux(git, tmux, path, task);
            &&& spec_start_outcome(git1, tmux1, path, task) is WorktreeExists
            &&& spec_start_git(git1, path, branch) == git1
            &&& spec_start_tmux(git1, tmux1, path, task) == tmux1
        }),
{
    let path = spec_worktree_path(root, dir, task);
    lemma_push_contains(git.worktrees, path, path);
}

/// Law: `clean` is idempotent — run twice in a row, the second run finds
/// none of the three resources and leaves every registry as it was.
pub proof fn lemma_clean_idempotent(
    git: GitView,
    tmux: TmuxView,
    prefix: Seq<char>,
    root: Seq<char>,
    dir: Seq<char>,
    task: Seq<char>,
)
    ensures
        ({
            let path = spec_worktree_path(root, dir, task);
            let branch = spec_branch_name(prefix, task);
            let git1 = spec_clean_git(git, path, branch);
            let tmux1 = spec_clean_tmux(tmux, task);
            &&& spec_clean_git(git1, path, branch) == git1
            &&& spec_clean_tmux(tmux1, task) == tmux1
            &&& spec_clean_report(git1, tmux1, path, branch, task) == CleanReport {
                session_killed: false,
                worktree_removed: false,
                branch_deleted: false,
            }
        }),
{
    let path = spec_worktree_path(root, dir, task);
    let branch = spec_branch_name(prefix, task);
    lemma_names_without_not_contains(git.worktrees, path);
    lemma_names_without_not_contains(git.branches, branch);
    lemma_names_without_not_contains(tmux.sessions, task);
    lemma_names_without_idempotent(git.worktrees, path);
    lemma_names_without_idempotent(git.branches, branch);
    lemma_names_without_idempotent(tmux.sessions, task);
}

/// Law: after `start` of a task and then `clean` of it, the task appears in
/// neither the worktree listing nor the session listing, and its branch no
/// longer exists.
pub proof fn lemma_start_clean_leaves_nothing(
    git: GitView,
    tmux: TmuxView,
    prefix: Seq<char>,
    root: Seq<char>,
    dir: Seq<char>,
    task: Seq<char>,
)
    requires
        spec_start_outcome(git, tmux, spec_worktree_path(root, dir, task), task) is Started,
    ensures
        ({
            let path = spec_worktree_path(root, dir, task);
            let branch = spec_branch_name(prefix, task);
            let git2 = spec_clean_git(spec_start_git(git, path, branch), path, branch);
            let tmux2 = spec_clean_tmux(spec_start_tmux(git, tmux, path, task), task);
            &&& !lines_with(git2.worktrees, dir).contains(path)
            &&& !tmux2.sessions.contains(task)
            &&& !git2.branches.contains(branch)
        }),
{
    let path = spec_worktree_path(root, dir, task);
    let branch = spec_branch_name(prefix, task);
    let git2 = spec_clean_git(spec_start_git(git, path, branch), path, branch);
    lemma_names_without_not_contains(spec_start_git(git, path, branch).worktrees, path);
    lemma_names_without_not_contains(spec_start_git(git, path, branch).branches, branch);
    lemma_names_without_not_contains(spec_start_tmux(git, tmux, path, task).sessions, task);
    lemma_lines_with_elements(git2.worktrees, dir);
}

/// Law: a branch that survived a partial clean does not block `start` — the
/// worktree is bound to the existing branch, and the branch registry gains
/// no duplicate.
pub proof fn lemma_start_reuses_branch(
    git: GitView,
    tmux: TmuxView,
    prefix: Seq<char>,
    root: Seq<char>,
    dir: Seq<char>,
    task: Seq<char>,
)
    requires
        git.branches.contains(spec_branch_name(prefix, task)),
        !git.worktrees.contains(spec_worktree_path(root, dir, task)),
        !tmux.sessions.contains(task),
    ensures
        ({
            let path = spec_worktree_path(root, dir, task);
            let branch = spec_branch_name(prefix, task);
            &&& spec_start_outcome(git, tmux, path, task) is Started
            &&& spec_start_git(git, path, branch).branches == git.branches
            &&& spec_start_git(git, path, branch).worktrees == git.worktrees.push(path)
            &&& spec_start_tmux(git, tmux, path, task).sessions == tmux.sessions.push(task)
        }),
{
}

/// Law: the worktree listing holds exactly the registered worktrees whose
/// path contains the configured worktree subdirectory.
pub proof fn lemma_list_worktrees_exact(git: GitView, dir: Seq<char>)
    ensures
        forall|line: Seq<char>|
            lines_with(git.worktrees, dir).contains(line) <==> (git.worktrees.contains(line)
                && contains_seq(line, dir)),
{
    lemma_lines_with_elements(git.worktrees, dir);
}

} // verus!
