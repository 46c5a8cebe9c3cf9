//! A verified model of a swap-chain presentation engine: capability
//! negotiation, per-image resource lifecycles, and bounded frames-in-flight
//! synchronization. Backend (GPU API) calls live outside this crate; the
//! library makes every decision on plain values and states what it decides.

use vstd::prelude::*;

pub mod capabilities;
pub mod device_query;
pub mod engine;
pub mod errors;
pub mod negotiate;
pub mod queue_families;
pub mod resources;
pub mod sync;

verus! {

/// Number of frames the CPU may run ahead of the GPU.
pub const MAX_FRAMES_IN_FLIGHT: usize = 2;

} // verus!
