//! Verified core of a Discord beta-program bot: the permission gate, the
//! classification of backend HTTP replies, the message texts, and the
//! per-invocation state machine that decides which side effects each
//! subcommand performs. All I/O (the Discord gateway, the HTTP client,
//! configuration loading) lives outside this crate's verified code.
use vstd::prelude::*;

pub mod backend;
pub mod config;
pub mod gate;
pub mod handler;
pub mod laws;
pub mod messages;
pub mod outcome;

verus! {

} // verus!
