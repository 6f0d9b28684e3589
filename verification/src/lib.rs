//! A workflow library linking a local git repository to a remote issue
//! tracker: pick an open issue, create a branch named after it, mark the
//! issue as in progress, and later open a review request that closes it.
//!
//! The modules here hold the verified core: naming conventions, remote URL
//! parsing, the selection protocol, and the two workflow state machines.
//! All I/O (git, network, prompts, files) lives outside the library.

pub mod config;
pub mod errors;
pub mod inputs;
pub mod issues;
pub mod listing;
pub mod naming;
pub mod remote;
pub mod select;
pub mod text;
pub mod workflow;
