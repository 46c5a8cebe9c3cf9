//! The presentation engine: one lifecycle object composing the negotiated
//! configuration, the per-image resource set and the frame-sync controller.
//! The backend performs every GPU call; the engine decides each step and
//! states what it decided. A frame runs begin-acquire → (backend hands out
//! an image) → complete-acquire → (caller records work) → submit — and a
//! stale swap-chain or a resize answer makes the engine demand a rebuild.

use vstd::prelude::*;

use crate::capabilities::Extent2D;
use crate::errors::PresentError;
use crate::negotiate::SwapchainConfig;
use crate::resources::{PresentableResourceSet, ResourceOp};
use crate::sync::{FrameSync, FrameSyncModel, SubmitPlan};

verus! {

/// What the backend reported for an image-acquisition request.
#[derive(Clone, Copy, Debug, PartialEq, Eq, Structural)]
pub enum AcquireOutcome {
    /// An image was handed out; `suboptimal` reports a surface that still
    /// works but no longer matches the swap-chain well.
    Success { image_index: u32, suboptimal: bool },
    /// The swap-chain no longer matches the surface.
    OutOfDate,
    /// The surface itself is gone.
    SurfaceLost,
}

/// What the backend reported for a submit-and-present request.
#[derive(Clone, Copy, Debug, PartialEq, Eq, Structural)]
pub enum SubmitOutcome {
    /// Work submitted and image queued for presentation.
    Success,
    /// Presented, but the surface no longer matches the swap-chain well.
    Suboptimal,
    /// The swap-chain no longer matches the surface.
    OutOfDate,
    /// The graphics queue refused the submission.
    SubmitFailed,
    /// The present queue refused the request.
    PresentFailed,
}

/// A successfully acquired frame: which image to render into, whether the
/// backend called the swap-chain suboptimal, and the slot whose in-flight
/// fence must be waited out before the image may be touched, if any.
#[derive(Clone, Copy, Debug, PartialEq, Eq, Structural)]
pub struct AcquiredFrame {
    pub image_index: u32,
    pub suboptimal: bool,
    pub wait_slot: Option<usize>,
}

/// The composed lifecycle object. Between a begun and a finished rebuild it
/// owns no resource set; everywhere else it owns exactly one.
pub struct PresentationEngine {
    config: SwapchainConfig,
    resources: Option<PresentableResourceSet>,
    sync: FrameSync,
    needs_rebuild: bool,
}

impl PresentationEngine {
    /// The configuration the engine currently runs under.
    pub closed spec fn spec_config(self) -> SwapchainConfig {
        self.config
    }

    /// Whether the engine owns a resource set (it does not between a begun
    /// and a finished rebuild).
    pub closed spec fn spec_has_resources(self) -> bool {
        self.resources is Some
    }

    /// The owned resource set.
    pub closed spec fn spec_resources(self) -> PresentableResourceSet
        recommends
            self.spec_has_resources(),
    {
        self.resources.unwrap()
    }

    /// The frame-sync controller's state.
    pub closed spec fn spec_sync(self) -> FrameSyncModel {
        self.sync@
    }

    /// Whether a resize notification or a stale-swap-chain report is
    /// pending, to be answered by a rebuild.
    pub closed spec fn spec_needs_rebuild(self) -> bool {
        self.needs_rebuild
    }

    /// The engine's invariant: a well-formed controller, and — while a
    /// resource set is owned — a complete set whose image count matches the
    /// controller's table and whose framebuffers are sized to the
    /// configured extent.
    pub closed spec fn wf(self) -> bool {
        &&& self.sync@.wf()
        &&& self.resources matches Some(r) ==> {
            &&& r.wf()
            &&& r.spec_image_count() == self.sync@.images.len()
            &&& r.spec_extent() == self.config.extent
        }
    }

    /// Composes a built engine from its three parts.
    pub fn new(
        config: SwapchainConfig,
        resources: PresentableResourceSet,
        sync: FrameSync,
    ) -> (engine: PresentationEngine)
        requires
            sync@.wf(),
            resources.wf(),
            resources.spec_image_count() == sync@.images.len(),
            resources.spec_extent() == config.extent,
        ensures
            engine.wf(),
            engine.spec_config() == config,
            engine.spec_has_resources(),
            engine.spec_resources() == resources,
            engine.spec_sync() == sync@,
            !engine.spec_needs_rebuild(),
    {
        PresentationEngine { config, resources: Some(resources), sync, needs_rebuild: false }
    }

    /// The window layer reports a resize: treated exactly like a stale
    /// swap-chain, so the next acquisition demands a rebuild.
    pub fn notify_resized(&mut self)
        ensures
            final(self).spec_needs_rebuild(),
            final(self).spec_config() == old(self).spec_config(),
            final(self).spec_has_resources() == old(self).spec_has_resources(),
            old(self).spec_has_resources() ==> final(self).spec_resources() == old(
                self,
            ).spec_resources(),
            final(self).spec_sync() == old(self).spec_sync(),
            old(self).wf() ==> final(self).wf(),
    {
        self.needs_rebuild = true;
    }

    /// Whether the engine is waiting for a rebuild.
    pub fn needs_rebuild(&self) -> (r: bool)
        ensures
            r == self.spec_needs_rebuild(),
    {
        self.needs_rebuild
    }

    /// The extent the engine currently presents at.
    pub fn current_extent(&self) -> (r: Extent2D)
        ensures
            r == self.spec_config().extent,
    {
        self.config.extent
    }

    /// The configuration the engine currently runs under.
    pub fn config(&self) -> (r: SwapchainConfig)
        ensures
            r == self.spec_config(),
    {
        self.config
    }

    /// The render pass the owned framebuffers bind to.
    pub fn render_pass_handle(&self) -> (r: u64)
        requires
            self.spec_has_resources(),
        ensures
            r == self.spec_resources().spec_render_pass(),
    {
        match &self.resources {
            Some(r) => r.render_pass_handle(),
            None => 0,
        }
    }

    /// The framebuffer bound to presentable image `image_index`.
    pub fn framebuffer_for(&self, image_index: usize) -> (r: u64)
        requires
            self.wf(),
            self.spec_has_resources(),
            image_index < self.spec_resources().spec_image_count(),
        ensures
            r == self.spec_resources().framebuffers_seq()[image_index as int],
    {
        match &self.resources {
            Some(r) => r.framebuffer_for(image_index),
            None => 0,
        }
    }

    /// Starts a frame. Where a rebuild is pending the engine refuses with
    /// the stale-swap-chain error and changes nothing; otherwise it returns
    /// the slot whose in-flight fence the caller must wait out before
    /// asking the backend for an image.
    pub fn begin_acquire_next(&mut self) -> (r: Result<usize, PresentError>)
        requires
            old(self).wf(),
        ensures
            final(self).wf(),
            final(self).spec_config() == old(self).spec_config(),
            final(self).spec_has_resources() == old(self).spec_has_resources(),
            old(self).spec_has_resources() ==> final(self).spec_resources() == old(
                self,
            ).spec_resources(),
            final(self).spec_needs_rebuild() == old(self).spec_needs_rebuild(),
            old(self).spec_needs_rebuild() ==> r == Err::<usize, PresentError>(
                PresentError::SwapchainOutOfDate,
            ) && final(self).spec_sync() == old(self).spec_sync(),
            !old(self).spec_needs_rebuild() ==> {
                &&& r == Ok::<usize, PresentError>(old(self).spec_sync().current as usize)
                &&& final(self).spec_sync() == old(self).spec_sync().begin()
            },
    {
        if self.needs_rebuild {
            return Err(PresentError::SwapchainOutOfDate);
        }
        let slot = self.sync.begin_frame();
        Ok(slot)
    }

    /// Takes the backend's answer to the acquisition request. On success
    /// the image is borrowed by the current slot and the caller learns
    /// which prior fence, if any, still guards it; a stale swap-chain sets
    /// the rebuild flag; a lost surface is fatal and changes nothing.
    pub fn complete_acquire_next(&mut self, outcome: AcquireOutcome) -> (r: Result<
        AcquiredFrame,
        PresentError,
    >)
        requires
            old(self).wf(),
            outcome matches AcquireOutcome::Success { image_index, .. } ==> {
                &&& image_index < old(self).spec_sync().images.len()
                &&& !old(self).spec_sync().slots[old(self).spec_sync().current]
            },
        ensures
            final(self).wf(),
            final(self).spec_config() == old(self).spec_config(),
            final(self).spec_has_resources() == old(self).spec_has_resources(),
            old(self).spec_has_resources() ==> final(self).spec_resources() == old(
                self,
            ).spec_resources(),
            outcome matches AcquireOutcome::Success { image_index, suboptimal } ==> {
                &&& r == Ok::<AcquiredFrame, PresentError>(
                    AcquiredFrame {
                        image_index,
                        suboptimal,
                        wait_slot: match old(self).spec_sync().prior_guard(image_index as int) {
                            Some(s) => Some(s as usize),
                            None => None,
                        },
                    },
                )
                &&& final(self).spec_sync() == old(self).spec_sync().record(image_index as int)
                &&& final(self).spec_needs_rebuild() == old(self).spec_needs_rebuild()
            },
            outcome is OutOfDate ==> {
                &&& r == Err::<AcquiredFrame, PresentError>(PresentError::SwapchainOutOfDate)
                &&& final(self).spec_sync() == old(self).spec_sync()
                &&& final(self).spec_needs_rebuild()
            },
            outcome is SurfaceLost ==> {
                &&& r == Err::<AcquiredFrame, PresentError>(PresentError::SurfaceLost)
                &&& final(self).spec_sync() == old(self).spec_sync()
                &&& final(self).spec_needs_rebuild() == old(self).spec_needs_rebuild()
            },
    {
        match outcome {
            AcquireOutcome::Success { image_index, suboptimal } => {
                let prior = self.sync.record_acquire(image_index as usize);
                Ok(AcquiredFrame { image_index, suboptimal, wait_slot: prior })
            },
            AcquireOutcome::OutOfDate => {
                self.needs_rebuild = true;
                Err(PresentError::SwapchainOutOfDate)
            },
            AcquireOutcome::SurfaceLost => Err(PresentError::SurfaceLost),
        }
    }

    /// Hands out the wiring for submitting the acquired frame's recorded
    /// work and advances the slot round-robin. Demands a recorded
    /// acquisition of exactly `image_index` — submitting a stale index is a
    /// contract violation, not a runtime path.
    pub fn submit_and_present(&mut self, image_index: usize) -> (plan: SubmitPlan)
        requires
            old(self).wf(),
            old(self).spec_sync().acquired == Some(image_index as int),
        ensures
            final(self).wf(),
            final(self).spec_config() == old(self).spec_config(),
            final(self).spec_has_resources() == old(self).spec_has_resources(),
            old(self).spec_has_resources() ==> final(self).spec_resources() == old(
                self,
            ).spec_resources(),
            final(self).spec_needs_rebuild() == old(self).spec_needs_rebuild(),
            final(self).spec_sync() == old(self).spec_sync().submit(),
            plan.wait_semaphore_slot == old(self).spec_sync().current,
            plan.signal_semaphore_slot == old(self).spec_sync().current,
            plan.fence_slot == old(self).spec_sync().current,
    {
        self.sync.submit_and_advance(image_index)
    }

    /// Takes the backend's answer to the submit-and-present request: the
    /// two stale-surface reports set the rebuild flag and come back as the
    /// recoverable errors; queue failures are fatal and change nothing.
    pub fn complete_present(&mut self, outcome: SubmitOutcome) -> (r: Result<(), PresentError>)
        requires
            old(self).wf(),
        ensures
            final(self).wf(),
            final(self).spec_config() == old(self).spec_config(),
            final(self).spec_has_resources() == old(self).spec_has_resources(),
            old(self).spec_has_resources() ==> final(self).spec_resources() == old(
                self,
            ).spec_resources(),
            final(self).spec_sync() == old(self).spec_sync(),
            outcome is Success ==> r is Ok && final(self).spec_needs_rebuild() == old(
                self,
            ).spec_needs_rebuild(),
            outcome is Suboptimal ==> r == Err::<(), PresentError>(
                PresentError::SwapchainSuboptimal,
            ) && final(self).spec_needs_rebuild(),
            outcome is OutOfDate ==> r == Err::<(), PresentError>(PresentError::SwapchainOutOfDate)
                && final(self).spec_needs_rebuild(),
            outcome is SubmitFailed ==> r == Err::<(), PresentError>(PresentError::QueueSubmitFailed)
                && final(self).spec_needs_rebuild() == old(self).spec_needs_rebuild(),
            outcome is PresentFailed ==> r == Err::<(), PresentError>(PresentError::PresentFailed)
                && final(self).spec_needs_rebuild() == old(self).spec_needs_rebuild(),
    {
        match outcome {
            SubmitOutcome::Success => Ok(()),
            SubmitOutcome::Suboptimal => {
                self.needs_rebuild = true;
                Err(PresentError::SwapchainSuboptimal)
            },
            SubmitOutcome::OutOfDate => {
                self.needs_rebuild = true;
                Err(PresentError::SwapchainOutOfDate)
            },
            SubmitOutcome::SubmitFailed => Err(PresentError::QueueSubmitFailed),
            SubmitOutcome::PresentFailed => Err(PresentError::PresentFailed),
        }
    }

    /// Starts a rebuild, after the caller has waited the device idle: gives
    /// up the owned resource set and returns its teardown plan, to be
    /// performed before anything new is created. Destroy-then-build.
    pub fn begin_rebuild(&mut self) -> (plan: Vec<ResourceOp>)
        requires
            old(self).wf(),
            old(self).spec_has_resources(),
        ensures
            final(self).wf(),
            !final(self).spec_has_resources(),
            plan@ == old(self).spec_resources().creation_seq().reverse(),
            final(self).spec_config() == old(self).spec_config(),
            final(self).spec_sync() == old(self).spec_sync(),
            final(self).spec_needs_rebuild() == old(self).spec_needs_rebuild(),
    {
        let mut taken: Option<PresentableResourceSet> = None;
        core::mem::swap(&mut taken, &mut self.resources);
        match taken {
            Some(r) => r.destroy(),
            None => Vec::new(),
        }
    }

    /// Finishes a rebuild: installs the renegotiated configuration and the
    /// newly built resource set, resizes the controller's borrow table to
    /// the new image count with every fence counting as satisfied (the
    /// device was idle), and clears the rebuild flag. The slot pool and its
    /// primitives are reused.
    pub fn finish_rebuild(&mut self, config: SwapchainConfig, resources: PresentableResourceSet)
        requires
            old(self).wf(),
            !old(self).spec_has_resources(),
            resources.wf(),
            resources.spec_extent() == config.extent,
        ensures
            final(self).wf(),
            final(self).spec_config() == config,
            final(self).spec_has_resources(),
            final(self).spec_resources() == resources,
            !final(self).spec_needs_rebuild(),
            final(self).spec_sync().frames == old(self).spec_sync().frames,
            final(self).spec_sync().current == old(self).spec_sync().current,
            final(self).spec_sync().images == Seq::new(
                resources.spec_image_count() as nat,
                |i: int| None::<int>,
            ),
            final(self).spec_sync().slots == Seq::new(
                old(self).spec_sync().frames as nat,
                |i: int| false,
            ),
            final(self).spec_sync().acquired is None,
    {
        let image_count = resources.image_count();
        self.sync.reset_after_idle(image_count);
        self.config = config;
        self.resources = Some(resources);
        self.needs_rebuild = false;
    }

    /// Tears the engine down, after the caller has waited the device idle:
    /// the plan releases every owned resource in reverse-creation order.
    /// The per-slot synchronization primitives are the backend's to destroy
    /// afterwards.
    pub fn destroy(self) -> (plan: Vec<ResourceOp>)
        ensures
            self.spec_has_resources() ==> plan@ == self.spec_resources().creation_seq().reverse(),
            !self.spec_has_resources() ==> plan@ == Seq::<ResourceOp>::empty(),
    {
        match self.resources {
            Some(r) => r.destroy(),
            None => Vec::new(),
        }
    }
}

} // verus!
