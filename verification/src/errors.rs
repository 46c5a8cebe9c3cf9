//! Error taxonomy of the presentation engine. Recoverable conditions make
//! the engine rebuild its swap-chain; fatal ones are propagated and end the
//! engine.

use vstd::prelude::*;

verus! {

/// Everything that can go wrong while negotiating, building or driving the
/// presentation engine.
#[derive(Clone, Copy, Debug, PartialEq, Eq, Structural)]
pub enum PresentError {
    /// The surface no longer matches the swap-chain; rebuild and go on.
    SwapchainOutOfDate,
    /// The swap-chain still works but no longer matches the surface well;
    /// rebuild and go on.
    SwapchainSuboptimal,
    /// The surface itself is gone; only the window layer can recreate it.
    SurfaceLost,
    /// The backend could not enumerate formats, present modes or
    /// capabilities.
    CapabilityQueryError,
    /// The surface reported no format at all.
    NoSupportedSurfaceFormat,
    /// No depth format in the preference order is usable on this adapter.
    NoSupportedDepthFormat,
    /// Submitting recorded work to the graphics queue failed.
    QueueSubmitFailed,
    /// Presenting a finished image failed.
    PresentFailed,
}

impl PresentError {
    /// The recoverable conditions: the engine answers them with a rebuild.
    pub open spec fn spec_is_recoverable(self) -> bool {
        self is SwapchainOutOfDate || self is SwapchainSuboptimal
    }

    /// True exactly for the two conditions a rebuild repairs.
    pub fn is_recoverable(&self) -> (r: bool)
        ensures
            r == self.spec_is_recoverable(),
    {
        match self {
            PresentError::SwapchainOutOfDate => true,
            PresentError::SwapchainSuboptimal => true,
            _ => false,
        }
    }

    /// True exactly for the conditions that terminate the engine.
    pub fn is_fatal(&self) -> (r: bool)
        ensures
            r == !self.spec_is_recoverable(),
    {
        !self.is_recoverable()
    }
}

} // verus!
