//! The branch and worktree registries of a repository, and the rules the
//! tool follows when it creates, removes and lists worktrees.
//!
//! The real registries live in the version-control system; the binary reads
//! and mutates them through `git`. A [`GitState`] carries the same
//! information as plain data — the branches the repository knows and the
//! worktree paths it has checked out — and its methods are exactly the
//! mutations the tool performs, including the pre-flight existence check and
//! the branch-reuse fallback of `create_worktree`.

use vstd::prelude::*;

use crate::config::{spec_branch_name, spec_worktree_path, Config};
use crate::error::OrcError;
use crate::names::{contains_name, filter_lines, lines_with, names_without, remove_name};

verus! {

/// Abstract contents of the two version-control registries.
#[verifier::ext_equal]
pub struct GitView {
    pub branches: Seq<Seq<char>>,
    pub worktrees: Seq<Seq<char>>,
}

/// The branch registry and the worktree registry of one repository.
pub struct GitState {
    pub branches: Vec<String>,
    pub worktrees: Vec<String>,
}

impl View for GitState {
    type V = GitView;

    open spec fn view(&self) -> GitView {
        GitView { branches: self.branches.deep_view(), worktrees: self.worktrees.deep_view() }
    }
}

impl GitState {
    /// A repository with no branches and no worktrees on record.
    pub fn new() -> (s: Self)
        ensures
            s@.branches == Seq::<Seq<char>>::empty(),
            s@.worktrees == Seq::<Seq<char>>::empty(),
    {
        let s = GitState { branches: Vec::new(), worktrees: Vec::new() };
        proof {
            assert(s@.branches =~= Seq::<Seq<char>>::empty());
            assert(s@.worktrees =~= Seq::<Seq<char>>::empty());
        }
        s
    }

    /// Does a branch of this name exist? Never mutates.
    pub fn branch_exists(&self, branch_name: &str) -> (b: bool)
        ensures
            b == self@.branches.contains(branch_name@),
    {
        contains_name(&self.branches, branch_name)
    }

    /// Does a worktree already sit at this path? Never mutates.
    pub fn worktree_exists(&self, worktree_path: &str) -> (b: bool)
        ensures
            b == self@.worktrees.contains(worktree_path@),
    {
        contains_name(&self.worktrees, worktree_path)
    }

    /// Create the worktree for a task on its branch.
    ///
    /// Fails if and only if the target path is already taken, and then
    /// mutates nothing. Otherwise the worktree is recorded, on a fresh
    /// branch when the name is new, and on the surviving branch when one of
    /// that name already exists (the branch-reuse fallback that lets `start`
    /// recover from an interrupted earlier attempt).
    pub fn create_worktree(&mut self, config: &Config, repo_root: &str, task_name: &str) -> (r:
        Result<(), OrcError>)
        ensures
            ({
                let path = spec_worktree_path(repo_root@, config.worktree_dir@, task_name@);
                let branch = spec_branch_name(config.branch_prefix@, task_name@);
                &&& old(self)@.worktrees.contains(path) ==> {
                    &&& r matches Err(OrcError::WorktreeAlreadyExists(t, p)) && t@ == task_name@
                        && p@ == path
                    &&& final(self)@ == old(self)@
                }
                &&& !old(self)@.worktrees.contains(path) ==> {
                    &&& r is Ok
                    &&& final(self)@.worktrees == old(self)@.worktrees.push(path)
                    &&& final(self)@.branches == if old(self)@.branches.contains(branch) {
                        old(self)@.branches
                    } else {
                        old(self)@.branches.push(branch)
                    }
                }
            }),
    {
        let worktree_path = config.worktree_path(repo_root, task_name);
        let branch_name = config.branch_name(task_name);
        if contains_name(&self.worktrees, worktree_path.as_str()) {
            return Err(OrcError::WorktreeAlreadyExists(task_name.to_owned(), worktree_path));
        }
        if !contains_name(&self.branches, branch_name.as_str()) {
            let ghost before = self.branches.deep_view();
            self.branches.push(branch_name);
            proof {
                assert(self.branches.deep_view() =~= before.push(
                    spec_branch_name(config.branch_prefix@, task_name@),
                ));
            }
        }
        let ghost before = self.worktrees.deep_view();
        self.worktrees.push(worktree_path);
        proof {
            assert(self.worktrees.deep_view() =~= before.push(
                spec_worktree_path(repo_root@, config.worktree_dir@, task_name@),
            ));
        }
        Ok(())
    }

    /// Remove the worktree of a task. Reports `false`, and is a no-op, when
    /// no worktree sits at the task's path; branches are never touched.
    pub fn remove_worktree(&mut self, config: &Config, repo_root: &str, task_name: &str) -> (r:
        bool)
        ensures
            ({
                let path = spec_worktree_path(repo_root@, config.worktree_dir@, task_name@);
                &&& r == old(self)@.worktrees.contains(path)
                &&& final(self)@.worktrees == names_without(old(self)@.worktrees, path)
                &&& final(self)@.branches == old(self)@.branches
            }),
    {
        let worktree_path = config.worktree_path(repo_root, task_name);
        remove_name(&mut self.worktrees, worktree_path.as_str())
    }

    /// Delete a branch. Reports `false`, and is a no-op, when no branch of
    /// that name exists; worktrees are never touched.
    pub fn delete_branch(&mut self, branch_name: &str) -> (r: bool)
        ensures
            r == old(self)@.branches.contains(branch_name@),
            final(self)@.branches == names_without(old(self)@.branches, branch_name@),
            final(self)@.worktrees == old(self)@.worktrees,
    {
        remove_name(&mut self.branches, branch_name)
    }

    /// The worktrees that live under the configured worktree subdirectory,
    /// in registry order: the primary working copy and unrelated worktrees
    /// are left out.
    pub fn list_worktrees(&self, config: &Config) -> (r: Vec<String>)
        ensures
            r.deep_view() == lines_with(self@.worktrees, config.worktree_dir@),
    {
        filter_lines(&self.worktrees, config.worktree_dir.as_str())
    }
}

} // verus!
