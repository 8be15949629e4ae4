use vstd::prelude::*;

verus! {

/// The pixel formats that the bridge declares and targets.
#[derive(Clone, Copy, Debug, PartialEq, Eq, Structural)]
pub enum PixelFormat {
    /// BGRA, 8 bits per channel, sRGB-encoded: the format of the host's
    /// presentable texture and of the pipeline's colour target.
    Bgra8UnormSrgb,
    /// RGBA, 8 bits per channel, linear.
    Rgba8Unorm,
}

/// The one format that textures, views and the pipeline's colour target
/// agree on.
pub const TARGET_FORMAT: PixelFormat = PixelFormat::Bgra8UnormSrgb;

/// Which view the render pass draws into.
#[derive(Clone, Copy, Debug, PartialEq, Eq, Structural)]
pub enum ColorTarget {
    /// The view of the acquired frame itself.
    FrameView,
    /// The auxiliary multisampled view.
    Multisampled,
}

/// The colour attachment of the frame's render pass. The attachment is
/// always cleared to black first.
#[derive(Clone, Copy, Debug, PartialEq, Eq, Structural)]
pub struct AttachmentPlan {
    pub target: ColorTarget,
    /// Whether the frame's view is the resolve target.
    pub resolve_into_frame: bool,
    /// Whether the attachment's contents are stored after the pass.
    pub store: bool,
}

pub open spec fn attachment_spec(sample_count: u32) -> AttachmentPlan {
    if sample_count == 1 {
        AttachmentPlan { target: ColorTarget::FrameView, resolve_into_frame: false, store: true }
    } else {
        AttachmentPlan { target: ColorTarget::Multisampled, resolve_into_frame: true, store: false }
    }
}

/// With one sample the pass draws straight into the frame and stores it.
/// With more it draws into the multisampled view, resolves into the frame, and
/// does not store the samples from before the resolve, which nothing reads.
pub fn choose_attachment(sample_count: u32) -> (r: AttachmentPlan)
    requires
        sample_count >= 1,
    ensures
        r == attachment_spec(sample_count),
{
    if sample_count == 1 {
        AttachmentPlan { target: ColorTarget::FrameView, resolve_into_frame: false, store: true }
    } else {
        AttachmentPlan { target: ColorTarget::Multisampled, resolve_into_frame: true, store: false }
    }
}

/// A texture to allocate for rendering: two-dimensional, one mip level,
/// usable as a render attachment.
#[derive(Clone, Copy, Debug, PartialEq, Eq, Structural)]
pub struct FramebufferSpec {
    pub width: u32,
    pub height: u32,
    pub depth_or_array_layers: u32,
    pub mip_level_count: u32,
    pub sample_count: u32,
    pub format: PixelFormat,
}

/// What the pipeline is built for: the selected sample count and the pixel
/// size of the surface.
#[derive(Clone, Copy, Debug, PartialEq, Eq, Structural)]
pub struct PipelineParams {
    pub sample_count: u32,
    pub width: u32,
    pub height: u32,
}

pub open spec fn framebuffer_spec(p: PipelineParams) -> Option<FramebufferSpec> {
    if p.sample_count > 1 {
        Some(
            FramebufferSpec {
                width: p.width,
                height: p.height,
                depth_or_array_layers: 1,
                mip_level_count: 1,
                sample_count: p.sample_count,
                format: TARGET_FORMAT,
            },
        )
    } else {
        None
    }
}

/// The auxiliary multisampled framebuffer, sized to the surface: only where
/// more than one sample is drawn.
pub fn multisampled_framebuffer(p: PipelineParams) -> (r: Option<FramebufferSpec>)
    ensures
        r == framebuffer_spec(p),
        r.is_some() <==> p.sample_count > 1,
{
    if p.sample_count > 1 {
        Some(
            FramebufferSpec {
                width: p.width,
                height: p.height,
                depth_or_array_layers: 1,
                mip_level_count: 1,
                sample_count: p.sample_count,
                format: TARGET_FORMAT,
            },
        )
    } else {
        None
    }
}

/// One command recorded into the draw bundle.
#[derive(Clone, Copy, Debug, PartialEq, Eq, Structural)]
pub enum BundleCommand {
    /// Binds the line-list pipeline built for this many samples per pixel.
    SetPipeline { sample_count: u32 },
    /// Binds vertex buffer `buffer` to vertex slot `slot`.
    SetVertexBuffer { slot: u32, buffer: u32 },
    /// Draws `vertices` vertices of `instances` instances.
    Draw { vertices: u32, instances: u32 },
}

/// The bundle: the pipeline, then one bind and one draw per vertex buffer.
pub open spec fn bundle_command(sample_count: u32, vertex_count: u32, i: int) -> BundleCommand {
    if i == 0 {
        BundleCommand::SetPipeline { sample_count }
    } else if i % 2 == 1 {
        BundleCommand::SetVertexBuffer { slot: 0, buffer: ((i - 1) / 2) as u32 }
    } else {
        BundleCommand::Draw { vertices: vertex_count, instances: 1 }
    }
}

pub open spec fn bundle_spec(sample_count: u32, buffer_count: u32, vertex_count: u32) -> Seq<
    BundleCommand,
> {
    Seq::new((1 + 2 * buffer_count) as nat, |i: int| bundle_command(sample_count, vertex_count, i))
}

/// Records the draw bundle for `buffer_count` vertex buffers of
/// `vertex_count` vertices each.
pub fn record_bundle(sample_count: u32, buffer_count: u32, vertex_count: u32) -> (r: Vec<
    BundleCommand,
>)
    requires
        1 + 2 * buffer_count <= usize::MAX,
    ensures
        r@ == bundle_spec(sample_count, buffer_count, vertex_count),
{
    let mut v: Vec<BundleCommand> = Vec::new();
    v.push(BundleCommand::SetPipeline { sample_count });
    let mut k: u32 = 0;
    while k < buffer_count
        invariant
            k <= buffer_count,
            v@.len() == 1 + 2 * k,
            forall|i: int| 0 <= i < v@.len() ==> v@[i] == bundle_command(sample_count, vertex_count, i),
        decreases buffer_count - k,
    {
        v.push(BundleCommand::SetVertexBuffer { slot: 0, buffer: k });
        v.push(BundleCommand::Draw { vertices: vertex_count, instances: 1 });
        k = k + 1;
    }
    assert(v@ =~= bundle_spec(sample_count, buffer_count, vertex_count));
    v
}

} // verus!
