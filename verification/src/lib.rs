//! Lifecycle rules for paired per-task development environments.
//!
//! Each task owns a pair of resources: a version-control worktree checked out
//! on a dedicated branch, and a terminal-multiplexer session rooted at the
//! worktree's path. This crate holds the verified core of the tool that
//! provisions and tears such pairs down: the naming policy, the error
//! taxonomy, and the lifecycle rules that the branch, worktree and session
//! registries follow under `start`, `clean` and `list`. The binary around the
//! crate drives the real `git` and `tmux` processes through exactly these
//! steps.

pub mod config;
pub mod error;
pub mod git;
pub mod names;
pub mod orchestrator;
pub mod tmux;
