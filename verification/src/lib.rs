//! Exporter core for a single-board computer's firmware throttling status.
//!
//! The library decodes the status command's `key=0xHHHHH` output line into a
//! typed flag record, projects that record onto two gauge families in a
//! metrics registry with latch semantics for the historical flags, and
//! serializes the registry to OpenMetrics text. Process plumbing (running the
//! status command, the HTTP listener, logging) lives outside the library and
//! talks to it through plain values.

pub mod cli;
pub mod collector;
pub mod command;
pub mod executor;
pub mod metrics;
pub mod parser;
pub mod registerer;
pub mod registry;
pub mod server;

use vstd::prelude::*;

verus! {

/// Maps a flag to the gauge value that represents it.
pub open spec fn gauge_of(b: bool) -> u64 {
    if b {
        1
    } else {
        0
    }
}

/// Turns a flag into the 0/1 gauge value that stands for it.
pub fn gauge_value(b: bool) -> (r: u64)
    ensures
        r == gauge_of(b),
{
    if b {
        1
    } else {
        0
    }
}

} // verus!
