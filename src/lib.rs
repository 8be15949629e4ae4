//! A platform-independent core for rendering into a GPU surface that a host
//! application owns: the checks made when its native handles are adopted, the
//! once-retried frame acquisition, the choice of multisample level, the draw
//! bundle cache and the layout of the line strips that the bundle draws.
//!
//! Every decision here is made on plain values; the GPU calls themselves are
//! made by the host-side glue, which feeds their outcomes back in.

mod capability;

pub use capability::{select_sample_count, MultisampleSupport};
mod presentation;

pub use presentation::{AcquireAction, AcquireState, Attempt, FrameAcquisition};
mod geometry;

pub use geometry::{
    line_strip, line_strips, strip_offset, vertex_count, LineVertex, StripOffset, VertexRole,
};
mod render;

pub use render::{
    choose_attachment, multisampled_framebuffer, record_bundle, AttachmentPlan, BundleCommand,
    ColorTarget, FramebufferSpec, PipelineParams, PixelFormat, TARGET_FORMAT,
};
mod bundle;

pub use bundle::{BundleCache, FramePlan};
mod adoption;

pub use adoption::{
    adopted_texture_declaration, check_declaration, check_handles, frame_view_format,
    get_wgsl_path, AdoptError, NativeHandleSet, TextureDeclaration, ViewSize,
};
