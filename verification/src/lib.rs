//! Verified core of Git Auto Pull: a desktop helper that keeps local Git
//! working copies in step with their remotes.
//!
//! The library holds the decisions: how Git output is read, how remote
//! addresses are compared, which Git commands a sync or a registration issues
//! and in which order, how the task queue admits work, and how settings and
//! logs are kept within their bounds. Everything that touches the disk, the
//! network, processes or the clock is left to the caller, which performs the
//! effects that the library asks for and hands back what happened.
use vstd::prelude::*;

pub mod accounts;
pub mod commands;
pub mod effects;
pub mod git;
pub mod inspect;
pub mod models;
pub mod queue;
pub mod register;
pub mod store;
pub mod sync;
pub mod text;
pub mod web;

verus! {

} // verus!
