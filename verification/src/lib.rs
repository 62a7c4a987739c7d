//! Application bootstrap: a registry of named serving units, a coordinated
//! graceful-shutdown protocol, and the runtime that drives both.

pub mod app;
pub mod error;
pub mod lifecycle;
pub mod log;
pub mod name_index;
pub mod plugin;
pub mod registry;
pub mod report;
pub mod request_id;
pub mod rest;
pub mod rpc;
pub mod shutdown;
pub mod simple;
pub mod spring;
pub mod status;
pub mod tally;
pub mod validate_body;

use vstd::prelude::*;

verus! {

/// Sum of two sizes.
pub fn add(left: usize, right: usize) -> (sum: usize)
    requires
        left + right <= usize::MAX,
    ensures
        sum == left + right,
{
    left + right
}

} // verus!
