use vstd::prelude::*;
use vstd::string::StringExecFns;
use crate::render::{PixelFormat, TARGET_FORMAT};

verus! {

/// The size of the host's view in pixels.
#[derive(Clone, Copy, Debug, PartialEq, Eq, Structural)]
pub struct ViewSize {
    pub width: u32,
    pub height: u32,
}

/// The addresses of the host's native device, command queue and presentable
/// texture. The host keeps ownership of all three; nothing here frees them.
#[derive(Clone, Copy, Debug, PartialEq, Eq, Structural)]
pub struct NativeHandleSet {
    pub device: usize,
    pub queue: usize,
    pub texture: usize,
}

/// Why a surface could not be adopted. Every one is fatal: there is no
/// partial adoption.
#[derive(Clone, Copy, Debug, PartialEq, Eq, Structural)]
pub enum AdoptError {
    NullDevice,
    NullQueue,
    NullTexture,
    /// The declared texture format differs from the pipeline's target format.
    FormatMismatch,
    /// The declared texture has an empty extent or no mip level or sample.
    EmptyTexture,
    /// No GPU adapter is available to this process.
    AdapterNotFound,
    /// The native device and queue do not fit the GPU backend.
    IncompatibleHandles,
}

/// The texture's properties as the adoption declares them, since none of them
/// can be read from a bare native pointer. It is two-dimensional.
#[derive(Clone, Copy, Debug, PartialEq, Eq, Structural)]
pub struct TextureDeclaration {
    pub width: u32,
    pub height: u32,
    pub depth_or_array_layers: u32,
    pub mip_level_count: u32,
    pub sample_count: u32,
    pub format: PixelFormat,
}

pub open spec fn handles_spec(h: NativeHandleSet) -> Result<(), AdoptError> {
    if h.device == 0 {
        Err(AdoptError::NullDevice)
    } else if h.queue == 0 {
        Err(AdoptError::NullQueue)
    } else if h.texture == 0 {
        Err(AdoptError::NullTexture)
    } else {
        Ok(())
    }
}

/// None of the three handles may be null when adoption begins.
pub fn check_handles(h: &NativeHandleSet) -> (r: Result<(), AdoptError>)
    ensures
        r == handles_spec(*h),
{
    if h.device == 0 {
        Err(AdoptError::NullDevice)
    } else if h.queue == 0 {
        Err(AdoptError::NullQueue)
    } else if h.texture == 0 {
        Err(AdoptError::NullTexture)
    } else {
        Ok(())
    }
}

/// The declaration of the host's presentable texture at `size`: one mip
/// level, one sample, three layers, in the target format.
pub fn adopted_texture_declaration(size: ViewSize) -> (r: TextureDeclaration)
    ensures
        r == (TextureDeclaration {
            width: size.width,
            height: size.height,
            depth_or_array_layers: 3,
            mip_level_count: 1,
            sample_count: 1,
            format: TARGET_FORMAT,
        }),
{
    TextureDeclaration {
        width: size.width,
        height: size.height,
        depth_or_array_layers: 3,
        mip_level_count: 1,
        sample_count: 1,
        format: TARGET_FORMAT,
    }
}

pub open spec fn declaration_spec(d: TextureDeclaration) -> Result<(), AdoptError> {
    if d.format != TARGET_FORMAT {
        Err(AdoptError::FormatMismatch)
    } else if d.width == 0 || d.height == 0 || d.depth_or_array_layers == 0 || d.mip_level_count
        == 0 || d.sample_count == 0 {
        Err(AdoptError::EmptyTexture)
    } else {
        Ok(())
    }
}

/// A declaration can be adopted only in the format that the pipeline targets,
/// so that views over it and the pipeline's colour target agree.
pub fn check_declaration(d: &TextureDeclaration) -> (r: Result<(), AdoptError>)
    ensures
        r == declaration_spec(*d),
{
    if d.format != TARGET_FORMAT {
        Err(AdoptError::FormatMismatch)
    } else if d.width == 0 || d.height == 0 || d.depth_or_array_layers == 0 || d.mip_level_count
        == 0 || d.sample_count == 0 {
        Err(AdoptError::EmptyTexture)
    } else {
        Ok(())
    }
}

/// The format of a frame view: the one asked for, else the target format.
pub fn frame_view_format(requested: Option<PixelFormat>) -> (r: PixelFormat)
    ensures
        r == (match requested {
            Some(f) => f,
            None => TARGET_FORMAT,
        }),
{
    match requested {
        Some(f) => f,
        None => TARGET_FORMAT,
    }
}

pub open spec fn wgsl_dir() -> Seq<char> {
    seq!['/', 'w', 'g', 's', 'l', '_', 's', 'h', 'a', 'd', 'e', 'r', '/']
}

/// The path of the shader file `name` under the application's resource root.
pub fn get_wgsl_path(resource_root: &str, name: &str) -> (r: String)
    ensures
        r@ == resource_root@ + wgsl_dir() + name@,
{
    let mut p = resource_root.to_owned();
    let dir = "/wgsl_shader/";
    proof {
        reveal_strlit("/wgsl_shader/");
    }
    assert(dir@ =~= wgsl_dir());
    p.append(dir);
    p.append(name);
    p
}

} // verus!
