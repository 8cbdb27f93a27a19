//! Drafts an issue-tracker ticket and a matching branch name from a summary
//! of local, uncommitted changes.
//!
//! The library holds the decisions and leaves the acting to its caller:
//!
//! - [`domain`]: change summaries, drafts, tickets, branch names and slugs;
//! - [`infra`]: what is sent to the language model, the tracker and `git`,
//!   and what is made of their answers, with the heuristic draft that
//!   stands in whenever the model is of no use;
//! - [`cache`]: the bounded store of drafts and its keys, with what holds of
//!   it in [`cache_laws`];
//! - [`workflow`]: the sequence from local changes to ticket and branch;
//! - [`config`], [`cmd`], [`services`]: settings, the parts of the commands
//!   that decide, and the naming policies;
//! - [`text`], [`error`], [`std_types`]: what the rest is built on.

pub mod cache;
pub mod cache_laws;
pub mod cmd;
pub mod config;
pub mod domain;
pub mod error;
pub mod infra;
pub mod services;
pub mod std_types;
pub mod text;
pub mod workflow;
