//! Per-image presentable resources: color views, depth buffers and
//! framebuffers, owned together with the record of their creation order.
//! The backend creates each resource and hands its handle in; the builder
//! enforces the build phases, and teardown emits the destroy operations in
//! exact reverse-creation order — on the error path of a partial build too.

use vstd::prelude::*;

use crate::capabilities::{Extent2D, PixelFormat};

verus! {

/// One backend operation of a teardown plan, carrying the raw handle it
/// applies to. Emitting the operation is a promise that the handle was
/// created; performing it is the backend's business.
#[derive(Clone, Copy, Debug, PartialEq, Eq, Structural)]
pub enum ResourceOp {
    /// Destroy a swap-chain color image view.
    ColorView(u64),
    /// Destroy a depth image.
    DepthImage(u64),
    /// Free a depth image's device memory.
    DepthMemory(u64),
    /// Destroy a depth image view.
    DepthView(u64),
    /// Destroy a framebuffer.
    Framebuffer(u64),
}

/// Builds a [`PresentableResourceSet`] stepwise, in the fixed phase order:
/// all color views, then one depth bundle per image, then one framebuffer
/// per image. Every accepted handle is also appended to a creation ledger,
/// so that an abort can release exactly what exists, in reverse order.
pub struct ResourceBuilder {
    image_count: usize,
    extent: Extent2D,
    depth_format: PixelFormat,
    render_pass: u64,
    color_views: Vec<u64>,
    depth_images: Vec<u64>,
    depth_memories: Vec<u64>,
    depth_views: Vec<u64>,
    framebuffers: Vec<u64>,
    created: Vec<ResourceOp>,
}

impl ResourceBuilder {
    /// How many presentable images the finished set will hold.
    pub closed spec fn spec_image_count(self) -> int {
        self.image_count as int
    }

    /// The extent every framebuffer of this build is sized to.
    pub closed spec fn spec_extent(self) -> Extent2D {
        self.extent
    }

    /// The depth format every depth bundle of this build uses.
    pub closed spec fn spec_depth_format(self) -> PixelFormat {
        self.depth_format
    }

    /// The render pass the framebuffers bind to.
    pub closed spec fn spec_render_pass(self) -> u64 {
        self.render_pass
    }

    /// Color view handles accepted so far, in creation order.
    pub closed spec fn colors(self) -> Seq<u64> {
        self.color_views@
    }

    /// Depth image handles accepted so far, in creation order.
    pub closed spec fn depth_images_seq(self) -> Seq<u64> {
        self.depth_images@
    }

    /// Depth memory handles accepted so far, in creation order.
    pub closed spec fn depth_memories_seq(self) -> Seq<u64> {
        self.depth_memories@
    }

    /// Depth view handles accepted so far, in creation order.
    pub closed spec fn depth_views_seq(self) -> Seq<u64> {
        self.depth_views@
    }

    /// Framebuffer handles accepted so far, in creation order.
    pub closed spec fn framebuffers_seq(self) -> Seq<u64> {
        self.framebuffers@
    }

    /// Every accepted handle as a destroy operation, in creation order.
    pub closed spec fn creation_seq(self) -> Seq<ResourceOp> {
        self.created@
    }

    /// The builder's phase discipline: counts never pass the image count,
    /// the three depth vectors grow in lock step, depth work starts only
    /// once every color view exists, framebuffers only once every depth
    /// bundle exists, and the ledger holds one entry per accepted handle.
    pub open spec fn wf(self) -> bool {
        &&& self.colors().len() <= self.spec_image_count()
        &&& self.depth_images_seq().len() == self.depth_memories_seq().len()
        &&& self.depth_images_seq().len() == self.depth_views_seq().len()
        &&& self.depth_images_seq().len() <= self.spec_image_count()
        &&& self.framebuffers_seq().len() <= self.spec_image_count()
        &&& self.depth_images_seq().len() > 0 ==> self.colors().len() == self.spec_image_count()
        &&& self.framebuffers_seq().len() > 0 ==> self.depth_images_seq().len()
            == self.spec_image_count()
        &&& self.creation_seq().len() == self.colors().len() + 3 * self.depth_images_seq().len()
            + self.framebuffers_seq().len()
    }

    /// The configuration fields (count, extent, depth format, render pass)
    /// of `a` and `b` agree.
    pub open spec fn same_config(a: ResourceBuilder, b: ResourceBuilder) -> bool {
        &&& a.spec_image_count() == b.spec_image_count()
        &&& a.spec_extent() == b.spec_extent()
        &&& a.spec_depth_format() == b.spec_depth_format()
        &&& a.spec_render_pass() == b.spec_render_pass()
    }

    /// Starts an empty build for `image_count` presentable images at
    /// `extent`, against `render_pass`, with depth bundles of
    /// `depth_format`.
    pub fn new(
        image_count: usize,
        extent: Extent2D,
        depth_format: PixelFormat,
        render_pass: u64,
    ) -> (b: ResourceBuilder)
        ensures
            b.wf(),
            b.spec_image_count() == image_count,
            b.spec_extent() == extent,
            b.spec_depth_format() == depth_format,
            b.spec_render_pass() == render_pass,
            b.colors() == Seq::<u64>::empty(),
            b.depth_images_seq() == Seq::<u64>::empty(),
            b.depth_memories_seq() == Seq::<u64>::empty(),
            b.depth_views_seq() == Seq::<u64>::empty(),
            b.framebuffers_seq() == Seq::<u64>::empty(),
            b.creation_seq() == Seq::<ResourceOp>::empty(),
    {
        ResourceBuilder {
            image_count,
            extent,
            depth_format,
            render_pass,
            color_views: Vec::new(),
            depth_images: Vec::new(),
            depth_memories: Vec::new(),
            depth_views: Vec::new(),
            framebuffers: Vec::new(),
            created: Vec::new(),
        }
    }

    /// Accepts the color view for the next presentable image.
    pub fn add_color_view(&mut self, view: u64)
        requires
            old(self).wf(),
            old(self).colors().len() < old(self).spec_image_count(),
            old(self).depth_images_seq().len() == 0,
        ensures
            final(self).wf(),
            Self::same_config(*final(self), *old(self)),
            final(self).colors() == old(self).colors().push(view),
            final(self).depth_images_seq() == old(self).depth_images_seq(),
            final(self).depth_memories_seq() == old(self).depth_memories_seq(),
            final(self).depth_views_seq() == old(self).depth_views_seq(),
            final(self).framebuffers_seq() == old(self).framebuffers_seq(),
            final(self).creation_seq() == old(self).creation_seq().push(
                ResourceOp::ColorView(view),
            ),
    {
        self.color_views.push(view);
        self.created.push(ResourceOp::ColorView(view));
    }

    /// Accepts the depth image, its memory and its view for the next
    /// presentable image, in that creation order.
    pub fn add_depth_bundle(&mut self, image: u64, memory: u64, view: u64)
        requires
            old(self).wf(),
            old(self).colors().len() == old(self).spec_image_count(),
            old(self).depth_images_seq().len() < old(self).spec_image_count(),
            old(self).framebuffers_seq().len() == 0,
        ensures
            final(self).wf(),
            Self::same_config(*final(self), *old(self)),
            final(self).colors() == old(self).colors(),
            final(self).depth_images_seq() == old(self).depth_images_seq().push(image),
            final(self).depth_memories_seq() == old(self).depth_memories_seq().push(memory),
            final(self).depth_views_seq() == old(self).depth_views_seq().push(view),
            final(self).framebuffers_seq() == old(self).framebuffers_seq(),
            final(self).creation_seq() == old(self).creation_seq().push(
                ResourceOp::DepthImage(image),
            ).push(ResourceOp::DepthMemory(memory)).push(ResourceOp::DepthView(view)),
    {
        self.depth_images.push(image);
        self.depth_memories.push(memory);
        self.depth_views.push(view);
        self.created.push(ResourceOp::DepthImage(image));
        self.created.push(ResourceOp::DepthMemory(memory));
        self.created.push(ResourceOp::DepthView(view));
    }

    /// Accepts the framebuffer for the next presentable image.
    pub fn add_framebuffer(&mut self, framebuffer: u64)
        requires
            old(self).wf(),
            old(self).depth_images_seq().len() == old(self).spec_image_count(),
            old(self).framebuffers_seq().len() < old(self).spec_image_count(),
        ensures
            final(self).wf(),
            Self::same_config(*final(self), *old(self)),
            final(self).colors() == old(self).colors(),
            final(self).depth_images_seq() == old(self).depth_images_seq(),
            final(self).depth_memories_seq() == old(self).depth_memories_seq(),
            final(self).depth_views_seq() == old(self).depth_views_seq(),
            final(self).framebuffers_seq() == old(self).framebuffers_seq().push(framebuffer),
            final(self).creation_seq() == old(self).creation_seq().push(
                ResourceOp::Framebuffer(framebuffer),
            ),
    {
        self.framebuffers.push(framebuffer);
        self.created.push(ResourceOp::Framebuffer(framebuffer));
    }

    /// Whether every phase has accepted a handle for every image.
    pub fn is_complete(&self) -> (r: bool)
        ensures
            r <==> (self.colors().len() == self.spec_image_count()
                && self.depth_images_seq().len() == self.spec_image_count()
                && self.framebuffers_seq().len() == self.spec_image_count()),
    {
        self.color_views.len() == self.image_count && self.depth_images.len() == self.image_count
            && self.framebuffers.len() == self.image_count
    }

    /// Gives up a partial build: the plan releases exactly what was
    /// created so far, in reverse-creation order.
    pub fn abort(self) -> (plan: Vec<ResourceOp>)
        ensures
            plan@ == self.creation_seq().reverse(),
    {
        reverse_ops(&self.created)
    }

    /// Seals a complete build into an owned resource set.
    pub fn finish(self) -> (rs: PresentableResourceSet)
        requires
            self.wf(),
            self.colors().len() == self.spec_image_count(),
            self.depth_images_seq().len() == self.spec_image_count(),
            self.framebuffers_seq().len() == self.spec_image_count(),
        ensures
            rs.wf(),
            rs.spec_image_count() == self.spec_image_count(),
            rs.spec_extent() == self.spec_extent(),
            rs.spec_depth_format() == self.spec_depth_format(),
            rs.spec_render_pass() == self.spec_render_pass(),
            rs.framebuffers_seq() == self.framebuffers_seq(),
            rs.creation_seq() == self.creation_seq(),
    {
        PresentableResourceSet {
            image_count: self.image_count,
            extent: self.extent,
            depth_format: self.depth_format,
            render_pass: self.render_pass,
            color_views: self.color_views,
            depth_images: self.depth_images,
            depth_memories: self.depth_memories,
            depth_views: self.depth_views,
            framebuffers: self.framebuffers,
            created: self.created,
        }
    }
}

/// The chain of presentable images' dependent resources, complete for every
/// image, together with the creation ledger that fixes the teardown order.
pub struct PresentableResourceSet {
    image_count: usize,
    extent: Extent2D,
    depth_format: PixelFormat,
    render_pass: u64,
    color_views: Vec<u64>,
    depth_images: Vec<u64>,
    depth_memories: Vec<u64>,
    depth_views: Vec<u64>,
    framebuffers: Vec<u64>,
    created: Vec<ResourceOp>,
}

impl PresentableResourceSet {
    /// How many presentable images this set serves.
    pub closed spec fn spec_image_count(self) -> int {
        self.image_count as int
    }

    /// The extent every framebuffer of this set is sized to.
    pub closed spec fn spec_extent(self) -> Extent2D {
        self.extent
    }

    /// The depth format of every depth bundle of this set.
    pub closed spec fn spec_depth_format(self) -> PixelFormat {
        self.depth_format
    }

    /// The render pass the framebuffers bind to.
    pub closed spec fn spec_render_pass(self) -> u64 {
        self.render_pass
    }

    /// Framebuffer handles, indexed by presentable-image index.
    pub closed spec fn framebuffers_seq(self) -> Seq<u64> {
        self.framebuffers@
    }

    /// Every owned handle as a destroy operation, in creation order.
    pub closed spec fn creation_seq(self) -> Seq<ResourceOp> {
        self.created@
    }

    /// A complete set: one handle of every kind per image, and a ledger
    /// entry per handle.
    pub closed spec fn wf(self) -> bool {
        &&& self.color_views@.len() == self.image_count
        &&& self.depth_images@.len() == self.image_count
        &&& self.depth_memories@.len() == self.image_count
        &&& self.depth_views@.len() == self.image_count
        &&& self.framebuffers@.len() == self.image_count
        &&& self.created@.len() == 5 * self.image_count
    }

    /// The framebuffer bound to presentable image `image_index`.
    pub fn framebuffer_for(&self, image_index: usize) -> (r: u64)
        requires
            self.wf(),
            image_index < self.spec_image_count(),
        ensures
            r == self.framebuffers_seq()[image_index as int],
    {
        self.framebuffers[image_index]
    }

    /// The extent the set was built at.
    pub fn extent(&self) -> (r: Extent2D)
        ensures
            r == self.spec_extent(),
    {
        self.extent
    }

    /// The depth format the set was built with.
    pub fn depth_format(&self) -> (r: PixelFormat)
        ensures
            r == self.spec_depth_format(),
    {
        self.depth_format
    }

    /// The render pass handle the framebuffers bind to.
    pub fn render_pass_handle(&self) -> (r: u64)
        ensures
            r == self.spec_render_pass(),
    {
        self.render_pass
    }

    /// How many presentable images this set serves.
    pub fn image_count(&self) -> (r: usize)
        ensures
            r == self.spec_image_count(),
    {
        self.image_count
    }

    /// Tears the set down: the plan releases every owned handle in exact
    /// reverse-creation order — framebuffers first, color views last.
    pub fn destroy(self) -> (plan: Vec<ResourceOp>)
        ensures
            plan@ == self.creation_seq().reverse(),
    {
        reverse_ops(&self.created)
    }
}

/// Law: a teardown plan releases exactly the resources the ledger records,
/// each exactly once — reversing a sequence keeps its multiset of elements.
pub proof fn lemma_destroy_plan_releases_each_once(created: Seq<ResourceOp>)
    ensures
        created.reverse().to_multiset() == created.to_multiset(),
{
    created.lemma_reverse_to_multiset();
}

/// The reverse of `ops`, element for element.
fn reverse_ops(ops: &Vec<ResourceOp>) -> (r: Vec<ResourceOp>)
    ensures
        r@ == ops@.reverse(),
{
    let n = ops.len();
    let mut r: Vec<ResourceOp> = Vec::new();
    let mut i: usize = 0;
    while i < n
        invariant
            n == ops@.len(),
            0 <= i <= n,
            r@.len() == i,
            forall|k: int| 0 <= k < i ==> r@[k] == ops@[n - 1 - k],
        decreases n - i,
    {
        r.push(ops[n - 1 - i]);
        i = i + 1;
    }
    assert(r@ =~= ops@.reverse());
    r
}

} // verus!
