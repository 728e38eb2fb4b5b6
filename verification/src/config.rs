//! Naming policy: how a task identifier maps to a branch name and a
//! worktree path, and the build-time configuration the mapping reads.

use vstd::prelude::*;
use vstd::string::StringExecFns;

verus! {

pub const VERSION: &'static str = "0.2.0";

pub const WORKTREE_DIR: &'static str = ".worktrees";

pub const BRANCH_PREFIX: &'static str = "agent";

/// The branch for a task is the configured prefix, a slash, and the task name.
pub open spec fn spec_branch_name(prefix: Seq<char>, task: Seq<char>) -> Seq<char> {
    prefix + "/"@ + task
}

/// The worktree for a task lives under the configured subdirectory of the
/// repository root, in a directory named after the task.
pub open spec fn spec_worktree_path(root: Seq<char>, dir: Seq<char>, task: Seq<char>) -> Seq<char> {
    root + "/"@ + dir + "/"@ + task
}

/// Runtime configuration: an immutable triple fixed at construction.
#[derive(Debug, Clone)]
pub struct Config {
    pub version: String,
    pub worktree_dir: String,
    pub branch_prefix: String,
}

impl Default for Config {
    fn default() -> (c: Self)
        ensures
            c.version@ == VERSION@,
            c.worktree_dir@ == WORKTREE_DIR@,
            c.branch_prefix@ == BRANCH_PREFIX@,
    {
        Self {
            version: VERSION.to_owned(),
            worktree_dir: WORKTREE_DIR.to_owned(),
            branch_prefix: BRANCH_PREFIX.to_owned(),
        }
    }
}

impl Config {
    pub fn new() -> (c: Self)
        ensures
            c.version@ == VERSION@,
            c.worktree_dir@ == WORKTREE_DIR@,
            c.branch_prefix@ == BRANCH_PREFIX@,
    {
        Self::default()
    }

    /// Build the branch name for a given task.
    pub fn branch_name(&self, task_name: &str) -> (r: String)
        ensures
            r@ == spec_branch_name(self.branch_prefix@, task_name@),
    {
        let mut r = self.branch_prefix.clone();
        r.append("/");
        r.append(task_name);
        r
    }

    /// Build the worktree path relative to a repo root.
    pub fn worktree_path(&self, repo_root: &str, task_name: &str) -> (r: String)
        ensures
            r@ == spec_worktree_path(repo_root@, self.worktree_dir@, task_name@),
    {
        let mut r = repo_root.to_owned();
        r.append("/");
        r.append(self.worktree_dir.as_str());
        r.append("/");
        r.append(task_name);
        r
    }
}

} // verus!
