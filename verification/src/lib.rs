//! Worktrees, branches and terminal windows kept in step.
//!
//! A worktree is a checkout of one branch in a directory of its own, and each
//! worktree has a window of the terminal multiplexer that is labelled with
//! its name. This library decides what has to happen so that the three stay
//! together: which branch an action is about and how to get it, what its
//! worktree is called and where it lives, and in which order worktree,
//! branch and window are taken down again.
//!
//! It reads no repository and starts no program. [`engine::begin`] turns an
//! [`action::Action`] into the first [`requests::Request`]; the caller
//! carries each request out and hands the [`requests::Reply`] to
//! [`engine::Engine::advance`], until the action is finished or has failed.
//! [`requests::command_for`] gives the command line for the requests that a
//! command carries out.
//!
//! - [`names`]: comparison keys, worktree names and paths.
//! - [`text`]: searching, splitting and joining text.
//! - [`gitc`], [`tmux`]: the command lines of version control and of the
//!   window manager.
//! - [`fuzzy`]: what is put to the interactive picker.
//! - [`backport`]: the plan that copies commits onto release branches.
//! - [`requests`]: requests, replies and failures.
//! - [`model`]: the engine as a function from state and reply to the next
//!   request.
//! - [`engine`]: the engine itself.
//! - [`laws`]: what holds of every run.

pub mod action;
pub mod backport;
pub mod engine;
pub mod fuzzy;
pub mod gitc;
pub mod laws;
pub mod model;
pub mod names;
pub mod requests;
pub mod text;
pub mod tmux;
