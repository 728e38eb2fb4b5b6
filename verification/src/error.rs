//! Error taxonomy of the tool, with the exact text each error renders to.

use vstd::prelude::*;
use vstd::string::StringExecFns;

verus! {

/// Everything that can go wrong while provisioning, tearing down or listing
/// an environment. Diagnostics from the underlying tools are carried
/// verbatim in `GitError` and `TmuxError`.
#[derive(Debug)]
pub enum OrcError {
    NotInGitRepo,
    MissingDependencies(String),
    TaskNameRequired,
    WorktreeAlreadyExists(String, String),
    TmuxSessionExists(String),
    GitError(String),
    TmuxError(String),
    IoError(String),
    UnknownCommand(String),
}

/// The human-readable line that each error prints.
pub open spec fn spec_message(e: OrcError) -> Seq<char> {
    match e {
        OrcError::NotInGitRepo => "Not in a git repository. Please run this command from within a git repository."@,
        OrcError::MissingDependencies(s) => "Missing dependencies: "@ + s@,
        OrcError::TaskNameRequired => "Task name is required. Usage: orcmate start <task-name>"@,
        OrcError::WorktreeAlreadyExists(name, path) => "Worktree '"@ + name@ + "' already exists at "@ + path@,
        OrcError::TmuxSessionExists(name) => "Tmux session '"@ + name@ + "' already exists. Use 'tmux attach -t "@ + name@ + "' or clean it first."@,
        OrcError::GitError(s) => "Git error: "@ + s@,
        OrcError::TmuxError(s) => "Tmux error: "@ + s@,
        OrcError::IoError(s) => "IO error: "@ + s@,
        OrcError::UnknownCommand(s) => "Unknown command: "@ + s@ + ". Run 'orcmate help' for usage."@,
    }
}

impl OrcError {
    /// Render the error as the line the user sees.
    pub fn message(&self) -> (r: String)
        ensures
            r@ == spec_message(*self),
    {
        match self {
            OrcError::NotInGitRepo => "Not in a git repository. Please run this command from within a git repository.".to_owned(),
            OrcError::MissingDependencies(s) => {
                let mut r = "Missing dependencies: ".to_owned();
                r.append(s.as_str());
                r
            },
            OrcError::TaskNameRequired => "Task name is required. Usage: orcmate start <task-name>".to_owned(),
            OrcError::WorktreeAlreadyExists(name, path) => {
                let mut r = "Worktree '".to_owned();
                r.append(name.as_str());
                r.append("' already exists at ");
                r.append(path.as_str());
                r
            },
            OrcError::TmuxSessionExists(name) => {
                let mut r = "Tmux session '".to_owned();
                r.append(name.as_str());
                r.append("' already exists. Use 'tmux attach -t ");
                r.append(name.as_str());
                r.append("' or clean it first.");
                r
            },
            OrcError::GitError(s) => {
                let mut r = "Git error: ".to_owned();
                r.append(s.as_str());
                r
            },
            OrcError::TmuxError(s) => {
                let mut r = "Tmux error: ".to_owned();
                r.append(s.as_str());
                r
            },
            OrcError::IoError(s) => {
                let mut r = "IO error: ".to_owned();
                r.append(s.as_str());
                r
            },
            OrcError::UnknownCommand(s) => {
                let mut r = "Unknown command: ".to_owned();
                r.append(s.as_str());
                r.append(". Run 'orcmate help' for usage.");
                r
            },
        }
    }
}

} // verus!
