//! Frames-in-flight synchronization. The controller owns no GPU primitive
//! itself: it decides, for a fixed pool of per-slot primitives the backend
//! created, which fence to wait, which semaphores a submission uses, and
//! when the slot index advances — and it tracks which slot's fence each
//! presentable image is borrowed by, so an image is never handed out while
//! a fence it must respect is still outstanding.

use vstd::prelude::*;

verus! {

/// The mathematical state of a [`FrameSync`] controller.
pub struct FrameSyncModel {
    /// Size of the slot pool; the bound on frames the CPU may run ahead.
    pub frames: int,
    /// The slot the next frame will use.
    pub current: int,
    /// Per presentable image: the slot whose fence the image is borrowed
    /// by, or `None` while no slot renders into it.
    pub images: Seq<Option<int>>,
    /// Per slot: whether its fence is outstanding (reset and not yet known
    /// satisfied).
    pub slots: Seq<bool>,
    /// The image index acquired for the current slot, between a recorded
    /// acquisition and its submission.
    pub acquired: Option<int>,
}

impl FrameSyncModel {
    /// The controller's invariant: a non-empty slot pool, a current index
    /// inside it, one outstanding-flag per slot, every table entry naming a
    /// real slot, and a recorded acquisition only for a real image whose
    /// table entry is the current, satisfied slot.
    pub open spec fn wf(self) -> bool {
        &&& 1 <= self.frames
        &&& 0 <= self.current < self.frames
        &&& self.slots.len() == self.frames
        &&& forall|i: int|
            0 <= i < self.images.len() ==> (#[trigger] self.images[i] matches Some(s) ==> 0 <= s
                < self.frames)
        &&& self.acquired matches Some(img) ==> {
            &&& 0 <= img < self.images.len()
            &&& self.images[img] == Some(self.current)
            &&& !self.slots[self.current]
        }
    }

    /// Waiting out the current slot's fence: afterwards that fence is
    /// satisfied and no acquisition is recorded.
    pub open spec fn begin(self) -> FrameSyncModel {
        FrameSyncModel {
            slots: self.slots.update(self.current, false),
            acquired: None,
            ..self
        }
    }

    /// The slot whose outstanding fence still guards image `img`, if any:
    /// the wait the cross-check of an acquisition demands.
    pub open spec fn prior_guard(self, img: int) -> Option<int> {
        match self.images[img] {
            Some(s) => if self.slots[s] {
                Some(s)
            } else {
                None
            },
            None => None,
        }
    }

    /// Recording that image `img` was acquired for the current slot: any
    /// outstanding prior guard of `img` is waited out first, then the image
    /// is borrowed by the current slot.
    pub open spec fn record(self, img: int) -> FrameSyncModel {
        let waited = match self.prior_guard(img) {
            Some(s) => self.slots.update(s, false),
            None => self.slots,
        };
        FrameSyncModel {
            slots: waited,
            images: self.images.update(img, Some(self.current)),
            acquired: Some(img),
            ..self
        }
    }

    /// Submitting the recorded work: the current slot's fence is reset to
    /// outstanding and the slot index advances round-robin.
    pub open spec fn submit(self) -> FrameSyncModel {
        FrameSyncModel {
            slots: self.slots.update(self.current, true),
            current: (self.current + 1) % self.frames,
            acquired: None,
            ..self
        }
    }

    /// One full frame: wait the slot fence, acquire `img`, submit.
    pub open spec fn cycle(self, img: int) -> FrameSyncModel {
        self.begin().record(img).submit()
    }

    /// The state after a whole sequence of frames acquiring `imgs` in turn.
    pub open spec fn run(self, imgs: Seq<int>) -> FrameSyncModel
        decreases imgs.len(),
    {
        if imgs.len() == 0 {
            self
        } else {
            self.cycle(imgs[0]).run(imgs.skip(1))
        }
    }
}

/// The per-slot primitives one submission must be wired to: wait the
/// image-available semaphore of `wait_semaphore_slot`, signal the
/// render-finished semaphore of `signal_semaphore_slot`, and signal the
/// in-flight fence of `fence_slot` on completion.
#[derive(Clone, Copy, Debug, PartialEq, Eq, Structural)]
pub struct SubmitPlan {
    pub wait_semaphore_slot: usize,
    pub signal_semaphore_slot: usize,
    pub fence_slot: usize,
}

/// Drives the acquire → submit → present cycle over a fixed pool of frame
/// slots, enforcing the at-most-`frames` frames-in-flight bound and the
/// per-image cross-check.
pub struct FrameSync {
    frames_in_flight: usize,
    current_frame: usize,
    image_in_flight: Vec<Option<usize>>,
    slot_in_flight: Vec<bool>,
    acquired: Option<usize>,
}

impl View for FrameSync {
    type V = FrameSyncModel;

    closed spec fn view(&self) -> FrameSyncModel {
        FrameSyncModel {
            frames: self.frames_in_flight as int,
            current: self.current_frame as int,
            images: self.image_in_flight@.map(
                |i: int, o: Option<usize>|
                    match o {
                        Some(s) => Some(s as int),
                        None => None,
                    },
            ),
            slots: self.slot_in_flight@,
            acquired: match self.acquired {
                Some(img) => Some(img as int),
                None => None,
            },
        }
    }
}

impl FrameSync {
    /// A fresh controller over `frames_in_flight` slots and `image_count`
    /// presentable images: slot 0 is current, every fence counts as
    /// satisfied (the backend creates them signaled), and no image is
    /// borrowed.
    pub fn new(frames_in_flight: usize, image_count: usize) -> (s: FrameSync)
        requires
            1 <= frames_in_flight,
        ensures
            s@.wf(),
            s@.frames == frames_in_flight,
            s@.current == 0,
            s@.images == Seq::new(image_count as nat, |i: int| None::<int>),
            s@.slots == Seq::new(frames_in_flight as nat, |i: int| false),
            s@.acquired is None,
    {
        let mut image_in_flight: Vec<Option<usize>> = Vec::new();
        let mut i: usize = 0;
        while i < image_count
            invariant
                0 <= i <= image_count,
                image_in_flight@.len() == i,
                forall|k: int| 0 <= k < i ==> image_in_flight@[k] is None,
            decreases image_count - i,
        {
            image_in_flight.push(None);
            i = i + 1;
        }
        let mut slot_in_flight: Vec<bool> = Vec::new();
        let mut j: usize = 0;
        while j < frames_in_flight
            invariant
                0 <= j <= frames_in_flight,
                slot_in_flight@.len() == j,
                forall|k: int| 0 <= k < j ==> slot_in_flight@[k] == false,
            decreases frames_in_flight - j,
        {
            slot_in_flight.push(false);
            j = j + 1;
        }
        let s = FrameSync {
            frames_in_flight,
            current_frame: 0,
            image_in_flight,
            slot_in_flight,
            acquired: None,
        };
        proof {
            assert(s@.images =~= Seq::new(image_count as nat, |i: int| None::<int>));
            assert(s@.slots =~= Seq::new(frames_in_flight as nat, |i: int| false));
        }
        s
    }

    /// The slot the next frame uses.
    pub fn current_frame(&self) -> (r: usize)
        ensures
            r == self@.current,
    {
        self.current_frame
    }

    /// Size of the slot pool.
    pub fn frames_in_flight(&self) -> (r: usize)
        ensures
            r == self@.frames,
    {
        self.frames_in_flight
    }

    /// How many presentable images the controller tracks.
    pub fn image_count(&self) -> (r: usize)
        ensures
            r == self@.images.len(),
    {
        self.image_in_flight.len()
    }

    /// Starts a frame: returns the slot whose in-flight fence the caller
    /// must wait out before asking the backend for an image. This wait is
    /// what bounds the CPU to `frames` frames ahead of the GPU.
    pub fn begin_frame(&mut self) -> (slot: usize)
        requires
            old(self)@.wf(),
        ensures
            final(self)@.wf(),
            slot == old(self)@.current,
            final(self)@ == old(self)@.begin(),
    {
        let slot = self.current_frame;
        self.slot_in_flight.set(slot, false);
        self.acquired = None;
        slot
    }

    /// Records that the backend handed out image `image_index` for the
    /// current slot. Returns the slot whose outstanding fence still guards
    /// that image, if any: the caller must wait that fence out before using
    /// the image. The image is then borrowed by the current slot.
    pub fn record_acquire(&mut self, image_index: usize) -> (prior: Option<usize>)
        requires
            old(self)@.wf(),
            image_index < old(self)@.images.len(),
            !old(self)@.slots[old(self)@.current],
        ensures
            final(self)@.wf(),
            final(self)@ == old(self)@.record(image_index as int),
            prior matches Some(s) ==> old(self)@.prior_guard(image_index as int) == Some(s as int),
            prior is None ==> old(self)@.prior_guard(image_index as int) is None,
    {
        let prior: Option<usize> = match self.image_in_flight[image_index] {
            Some(s) => {
                if self.slot_in_flight[s] {
                    self.slot_in_flight.set(s, false);
                    Some(s)
                } else {
                    None
                }
            },
            None => None,
        };
        self.image_in_flight.set(image_index, Some(self.current_frame));
        self.acquired = Some(image_index);
        proof {
            assert(final(self)@.images =~= old(self)@.images.update(
                image_index as int,
                Some(old(self)@.current),
            ));
        }
        prior
    }

    /// Hands out the wiring for submitting the recorded frame and advances
    /// the slot round-robin: the submission waits the current slot's
    /// image-available semaphore, signals its render-finished semaphore and
    /// its in-flight fence, which becomes outstanding.
    pub fn submit_and_advance(&mut self, image_index: usize) -> (plan: SubmitPlan)
        requires
            old(self)@.wf(),
            old(self)@.acquired == Some(image_index as int),
        ensures
            final(self)@.wf(),
            final(self)@ == old(self)@.submit(),
            plan.wait_semaphore_slot == old(self)@.current,
            plan.signal_semaphore_slot == old(self)@.current,
            plan.fence_slot == old(self)@.current,
    {
        let slot = self.current_frame;
        let plan = SubmitPlan {
            wait_semaphore_slot: slot,
            signal_semaphore_slot: slot,
            fence_slot: slot,
        };
        self.slot_in_flight.set(slot, true);
        self.current_frame = (slot + 1) % self.frames_in_flight;
        self.acquired = None;
        plan
    }

    /// Forgets every borrow after the device has been waited idle: all
    /// fences count as satisfied and the table is resized to a rebuilt
    /// swap-chain's `image_count`, with no image borrowed. The slot pool
    /// and the current index are kept: the primitives are reused.
    pub fn reset_after_idle(&mut self, image_count: usize)
        requires
            old(self)@.wf(),
        ensures
            final(self)@.wf(),
            final(self)@.frames == old(self)@.frames,
            final(self)@.current == old(self)@.current,
            final(self)@.images == Seq::new(image_count as nat, |i: int| None::<int>),
            final(self)@.slots == Seq::new(old(self)@.frames as nat, |i: int| false),
            final(self)@.acquired is None,
    {
        let mut image_in_flight: Vec<Option<usize>> = Vec::new();
        let mut i: usize = 0;
        while i < image_count
            invariant
                0 <= i <= image_count,
                image_in_flight@.len() == i,
                forall|k: int| 0 <= k < i ==> image_in_flight@[k] is None,
            decreases image_count - i,
        {
            image_in_flight.push(None);
            i = i + 1;
        }
        let n = self.frames_in_flight;
        let mut slot_in_flight: Vec<bool> = Vec::new();
        let mut j: usize = 0;
        while j < n
            invariant
                0 <= j <= n,
                slot_in_flight@.len() == j,
                forall|k: int| 0 <= k < j ==> slot_in_flight@[k] == false,
            decreases n - j,
        {
            slot_in_flight.push(false);
            j = j + 1;
        }
        self.image_in_flight = image_in_flight;
        self.slot_in_flight = slot_in_flight;
        self.acquired = None;
        proof {
            assert(final(self)@.images =~= Seq::new(image_count as nat, |i: int| None::<int>));
            assert(final(self)@.slots =~= Seq::new(old(self)@.frames as nat, |i: int| false));
        }
    }
}

/// Law: an image is never left borrowed while a prior guard on it is
/// outstanding. After the acquire steps of a frame, the image is borrowed
/// by the current slot, that slot's fence is satisfied, and whatever guard
/// the image had before was waited out.
pub proof fn lemma_acquire_waits_prior_guard(s: FrameSyncModel, img: int)
    requires
        s.wf(),
        0 <= img < s.images.len(),
    ensures
        ({
            let t = s.begin().record(img);
            &&& t.images[img] == Some(s.current)
            &&& !t.slots[s.current]
            &&& (s.begin().prior_guard(img) matches Some(p) ==> !t.slots[p])
        }),
{
}

/// Law: one full frame cycle preserves the controller invariant, advances
/// the slot strictly round-robin, and leaves the acquired image borrowed by
/// the slot that rendered into it, that slot's fence outstanding.
pub proof fn lemma_cycle(s: FrameSyncModel, img: int)
    requires
        s.wf(),
        0 <= img < s.images.len(),
    ensures
        s.cycle(img).wf(),
        s.cycle(img).frames == s.frames,
        s.cycle(img).current == (s.current + 1) % s.frames,
        s.cycle(img).images.len() == s.images.len(),
        s.cycle(img).images[img] == Some(s.current),
        s.cycle(img).slots[s.current],
{
}

/// Law: across any sequence of frame cycles — however long, whatever image
/// the backend hands out each time — the controller invariant holds
/// throughout, the slot index advances strictly round-robin, and the table
/// keeps one entry per presentable image.
pub proof fn lemma_frame_pacing(s: FrameSyncModel, imgs: Seq<int>)
    requires
        s.wf(),
        forall|k: int| 0 <= k < imgs.len() ==> 0 <= #[trigger] imgs[k] < s.images.len(),
    ensures
        s.run(imgs).wf(),
        s.run(imgs).frames == s.frames,
        s.run(imgs).current == (s.current + imgs.len()) % s.frames,
        s.run(imgs).images.len() == s.images.len(),
    decreases imgs.len(),
{
    if imgs.len() == 0 {
        vstd::arithmetic::div_mod::lemma_small_mod(s.current as nat, s.frames as nat);
    } else {
        let t = s.cycle(imgs[0]);
        lemma_cycle(s, imgs[0]);
        assert(forall|k: int| 0 <= k < imgs.skip(1).len() ==> 0 <= #[trigger] imgs.skip(1)[k]
            < t.images.len());
        lemma_frame_pacing(t, imgs.skip(1));
        assert(s.run(imgs) == t.run(imgs.skip(1)));
        assert(t.current == (s.current + 1) % s.frames);
        assert(t.run(imgs.skip(1)).current == ((imgs.len() - 1) + ((s.current + 1) % s.frames))
            % s.frames);
        vstd::arithmetic::div_mod::lemma_add_mod_noop_right(
            imgs.len() - 1,
            s.current + 1,
            s.frames,
        );
        assert(((imgs.len() - 1) + ((s.current + 1) % s.frames)) % s.frames == ((imgs.len() - 1)
            + (s.current + 1)) % s.frames);
        assert((imgs.len() - 1) + (s.current + 1) == s.current + imgs.len());
    }
}

} // verus!
