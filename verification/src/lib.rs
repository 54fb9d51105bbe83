//! A gas-accounting call-stack profiler.
//!
//! As a virtual-machine interpreter executes nested function calls, the
//! profiler records, for every call-frame transition, how much of the gas
//! budget was consumed since the previous transition, and emits one
//! folded-stack line (flamegraph text format) per transition: the
//! semicolon-joined call path, a space, and the gas delta.

pub mod address;
pub mod collector;
pub mod errors;
pub mod frame;
pub mod laws;
pub mod render;
pub mod tracer;

use vstd::prelude::*;

verus! {

/// The gas consumed between two checkpoints: the previously observed
/// remaining-gas value minus the current one. When no checkpoint exists yet,
/// the current value is its own baseline and the delta is zero.
pub open spec fn spec_gas_delta(last: Option<u64>, remaining: u64) -> u64 {
    match last {
        Some(l) => (l - remaining) as u64,
        None => 0u64,
    }
}

/// Computes the gas consumed since the previous checkpoint.
pub fn gas_delta(last: Option<u64>, remaining: u64) -> (delta: u64)
    requires
        last matches Some(l) ==> remaining <= l,
    ensures
        delta == spec_gas_delta(last, remaining),
{
    match last {
        Some(l) => l - remaining,
        None => 0,
    }
}

} // verus!
