use vstd::prelude::*;
use crate::render::{
    attachment_spec, bundle_spec, choose_attachment, framebuffer_spec, multisampled_framebuffer,
    record_bundle, AttachmentPlan, BundleCommand, FramebufferSpec, PipelineParams,
};

verus! {

/// The recorded draw bundle and the auxiliary framebuffer, with the flag that
/// says they must be rebuilt before they are next used.
pub struct BundleCache {
    pub commands: Vec<BundleCommand>,
    pub framebuffer: Option<FramebufferSpec>,
    pub built_for: PipelineParams,
    pub buffer_count: u32,
    pub vertex_count: u32,
    pub rebuild_pending: bool,
}

/// What one frame does, decided before any GPU work is encoded.
#[derive(Clone, Copy, Debug, PartialEq, Eq, Structural)]
pub struct FramePlan {
    /// Whether the bundle and the framebuffer were rebuilt for this frame.
    pub rebuilt: bool,
    pub attachment: AttachmentPlan,
}

/// `after` is `before` once a frame has begun with `current` as the
/// surface's parameters, and `plan` is that frame's plan: a pending rebuild is
/// made with the current parameters and cleared, and otherwise nothing changes.
pub open spec fn frame_step(
    before: BundleCache,
    current: PipelineParams,
    after: BundleCache,
    plan: FramePlan,
) -> bool {
    &&& !after.rebuild_pending
    &&& plan.rebuilt == before.rebuild_pending
    &&& after.buffer_count == before.buffer_count
    &&& after.vertex_count == before.vertex_count
    &&& after.built_for == (if before.rebuild_pending {
        current
    } else {
        before.built_for
    })
    &&& (!before.rebuild_pending ==> after.commands@ == before.commands@ && after.framebuffer
        == before.framebuffer)
    &&& plan.attachment == attachment_spec(after.built_for.sample_count)
}

impl BundleCache {
    /// The bundle and the framebuffer are those of `built_for`.
    pub open spec fn wf(&self) -> bool {
        &&& self.built_for.sample_count >= 1
        &&& 1 + 2 * self.buffer_count <= usize::MAX
        &&& self.commands@ == bundle_spec(
            self.built_for.sample_count,
            self.buffer_count,
            self.vertex_count,
        )
        &&& self.framebuffer == framebuffer_spec(self.built_for)
    }

    /// Builds the bundle and the framebuffer for `params`.
    pub fn new(params: PipelineParams, buffer_count: u32, vertex_count: u32) -> (r: BundleCache)
        requires
            params.sample_count >= 1,
            1 + 2 * buffer_count <= usize::MAX,
        ensures
            r.wf(),
            r.built_for == params,
            r.buffer_count == buffer_count,
            r.vertex_count == vertex_count,
            !r.rebuild_pending,
    {
        BundleCache {
            commands: record_bundle(params.sample_count, buffer_count, vertex_count),
            framebuffer: multisampled_framebuffer(params),
            built_for: params,
            buffer_count,
            vertex_count,
            rebuild_pending: false,
        }
    }

    /// Marks the bundle stale: the surface was resized, or a parameter of the
    /// pipeline was changed.
    pub fn request_rebuild(&mut self)
        requires
            old(self).wf(),
        ensures
            final(self).wf(),
            final(self).rebuild_pending,
            final(self).built_for == old(self).built_for,
            final(self).commands@ == old(self).commands@,
            final(self).framebuffer == old(self).framebuffer,
            final(self).buffer_count == old(self).buffer_count,
            final(self).vertex_count == old(self).vertex_count,
    {
        self.rebuild_pending = true;
    }

    /// Begins a frame: rebuilds first where a rebuild is pending, with the
    /// surface's current parameters, and returns the frame's plan.
    pub fn begin_frame(&mut self, current: PipelineParams) -> (plan: FramePlan)
        requires
            old(self).wf(),
            current.sample_count >= 1,
        ensures
            final(self).wf(),
            frame_step(*old(self), current, *final(self), plan),
    {
        let rebuilt = self.rebuild_pending;
        if rebuilt {
            self.commands = record_bundle(current.sample_count, self.buffer_count, self.vertex_count);
            self.framebuffer = multisampled_framebuffer(current);
            self.built_for = current;
            self.rebuild_pending = false;
        }
        FramePlan { rebuilt, attachment: choose_attachment(self.built_for.sample_count) }
    }
}

/// A pending rebuild is cleared by the frame that makes it, and the bundle it
/// records fits that frame's parameters; a second frame with no request in
/// between rebuilds nothing and replays exactly the same commands, so the same
/// number of draw calls.
pub proof fn lemma_rebuild_once_then_cached(
    a: BundleCache,
    b: BundleCache,
    c: BundleCache,
    p1: PipelineParams,
    p2: PipelineParams,
    plan1: FramePlan,
    plan2: FramePlan,
)
    requires
        a.wf(),
        b.wf(),
        c.wf(),
        frame_step(a, p1, b, plan1),
        frame_step(b, p2, c, plan2),
    ensures
        !b.rebuild_pending,
        a.rebuild_pending ==> plan1.rebuilt && b.built_for == p1 && b.commands@ == bundle_spec(
            p1.sample_count,
            a.buffer_count,
            a.vertex_count,
        ),
        !plan2.rebuilt,
        c.commands@ == b.commands@,
        c.commands@.len() == b.commands@.len(),
        c.framebuffer == b.framebuffer,
        plan2.attachment == plan1.attachment,
{
}

} // verus!
