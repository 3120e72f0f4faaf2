//! Per-process traffic redirection through a local proxy: naming of the
//! kernel resources, the ordered setup and teardown plans of the two
//! redirection strategies, the commands that realise them, and the
//! lifecycle of the guard that owns one redirection.
use vstd::prelude::*;

pub mod naming;
pub mod plan;
pub mod command;
pub mod guard;
pub mod supervisor;

verus! {

} // verus!
