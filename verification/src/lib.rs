//! Sandboxed execution supervisor for a multi-tenant WebAssembly platform.
//!
//! Compiled guest modules ("kernels") are deployed into colour-coded
//! environment slots (GREEN/BLUE/RED) of a slot table with a hard capacity
//! ceiling, and invoked over HTTP through a host-guest bridge.  Outbound
//! calls made by a guest run through an egress pipeline: alias resolution,
//! per-alias rate limiting, circuit breaking and bounded retry.

use vstd::prelude::*;

pub mod smap;
pub mod bucket;
pub mod breaker;
pub mod textutil;
pub mod tenants;
pub mod egress;
pub mod security;
pub mod clock;
pub mod resilience;
pub mod db;
pub mod runtime;
pub mod marshal;
pub mod front_door;
pub mod docs;
pub mod registry;

verus! {

/// Computation budget handed to a guest store at the start of every call.
pub fn fuel_budget() -> (r: u64)
    ensures
        r == 1_000_000u64,
{
    1_000_000
}

/// Implemented by generated guest bindings so that a kernel can hand its
/// API description to the reflection endpoint.
pub trait AxiomApiMetadata {
    fn metadata() -> &'static str;
}

} // verus!
