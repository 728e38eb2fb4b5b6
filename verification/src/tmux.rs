//! The session registry of the terminal multiplexer, and the rules the tool
//! follows when it creates, kills and lists sessions.
//!
//! The real registry lives in the multiplexer; the binary reads and mutates
//! it through `tmux`. A [`TmuxState`] carries the same information as plain
//! data — the names of the sessions the multiplexer knows — and its methods
//! are exactly the mutations the tool performs. Session names equal task
//! names by construction, so no filtering happens here.

use vstd::prelude::*;
use vstd::string::StringExecFns;

use crate::error::OrcError;
use crate::names::{contains_name, copy_names, names_without, remove_name};

verus! {

/// Abstract contents of the session registry.
#[verifier::ext_equal]
pub struct TmuxView {
    pub sessions: Seq<Seq<char>>,
}

/// The sessions the multiplexer currently knows, by name.
pub struct TmuxState {
    pub sessions: Vec<String>,
}

impl View for TmuxState {
    type V = TmuxView;

    open spec fn view(&self) -> TmuxView {
        TmuxView { sessions: self.sessions.deep_view() }
    }
}

impl TmuxState {
    /// A multiplexer with no sessions.
    pub fn new() -> (s: Self)
        ensures
            s@.sessions == Seq::<Seq<char>>::empty(),
    {
        let s = TmuxState { sessions: Vec::new() };
        proof {
            assert(s@.sessions =~= Seq::<Seq<char>>::empty());
        }
        s
    }

    /// Does a session of this name exist? Never mutates.
    pub fn session_exists(&self, session_name: &str) -> (b: bool)
        ensures
            b == self@.sessions.contains(session_name@),
    {
        contains_name(&self.sessions, session_name)
    }

    /// Create the session for a task, rooted at the task's worktree path.
    ///
    /// Fails if and only if a session of that name already exists, and then
    /// mutates nothing: creation is deliberately not idempotent, since
    /// silently reusing a stale session could hand the user unrelated prior
    /// state. The two-pane layout the binary sets up afterwards is cosmetic
    /// and not recorded here.
    pub fn create_session(&mut self, task_name: &str, worktree_path: &str) -> (r: Result<
        (),
        OrcError,
    >)
        ensures
            old(self)@.sessions.contains(task_name@) ==> {
                &&& r matches Err(OrcError::TmuxSessionExists(t)) && t@ == task_name@
                &&& final(self)@ == old(self)@
            },
            !old(self)@.sessions.contains(task_name@) ==> {
                &&& r is Ok
                &&& final(self)@.sessions == old(self)@.sessions.push(task_name@)
            },
    {
        if contains_name(&self.sessions, task_name) {
            return Err(OrcError::TmuxSessionExists(task_name.to_owned()));
        }
        let ghost before = self.sessions.deep_view();
        self.sessions.push(task_name.to_owned());
        proof {
            assert(self.sessions.deep_view() =~= before.push(task_name@));
        }
        Ok(())
    }

    /// Kill a session. Reports `false`, and is a no-op, when no session of
    /// that name exists.
    pub fn kill_session(&mut self, session_name: &str) -> (r: bool)
        ensures
            r == old(self)@.sessions.contains(session_name@),
            final(self)@.sessions == names_without(old(self)@.sessions, session_name@),
    {
        remove_name(&mut self.sessions, session_name)
    }

    /// Every session currently known, in registry order.
    pub fn list_sessions(&self) -> (r: Vec<String>)
        ensures
            r.deep_view() == self@.sessions,
    {
        copy_names(&self.sessions)
    }
}

/// The target of a task's only window: the session name and window index.
pub fn window_target(task_name: &str) -> (r: String)
    ensures
        r@ == task_name@ + ":0"@,
{
    let mut r = task_name.to_owned();
    r.append(":0");
    r
}

/// The target of the larger "action" pane of a task's window.
pub fn action_pane_target(task_name: &str) -> (r: String)
    ensures
        r@ == task_name@ + ":0.0"@,
{
    let mut r = task_name.to_owned();
    r.append(":0.0");
    r
}

/// The target of the smaller "monitor" pane of a task's window.
pub fn monitor_pane_target(task_name: &str) -> (r: String)
    ensures
        r@ == task_name@ + ":0.1"@,
{
    let mut r = task_name.to_owned();
    r.append(":0.1");
    r
}

} // verus!
