//! Plain-value mirrors of the graphics-API notions the core reasons about.
//!
//! Flag constants carry the API's documented bit values so that the
//! unverified shell can hand them to the driver unchanged.

use vstd::prelude::*;

verus! {

/// Pixel or depth format of an image.
#[derive(Clone, Copy, PartialEq, Eq, Structural, Debug)]
pub enum Format {
    /// 8-bit RGBA, unsigned normalized: the format of every sampled texture.
    Rgba8Unorm,
    /// The surface format the presentation engine chose for the swapchain.
    Surface,
    /// 32-bit float depth.
    D32Sfloat,
    /// 32-bit float depth with 8-bit stencil.
    D32SfloatS8Uint,
    /// 24-bit normalized depth with 8-bit stencil.
    D24UnormS8Uint,
}

/// Memory state of an image subresource, changed by pipeline barriers.
#[derive(Clone, Copy, PartialEq, Eq, Structural, Debug)]
pub enum ImageLayout {
    Undefined,
    TransferDstOptimal,
    TransferSrcOptimal,
    ShaderReadOnlyOptimal,
    ColorAttachmentOptimal,
    DepthStencilAttachmentOptimal,
    PresentSrc,
}

pub const ACCESS_NONE: u32 = 0x0;
pub const ACCESS_SHADER_READ: u32 = 0x20;
pub const ACCESS_COLOR_ATTACHMENT_READ: u32 = 0x80;
pub const ACCESS_COLOR_ATTACHMENT_WRITE: u32 = 0x100;
pub const ACCESS_DEPTH_STENCIL_ATTACHMENT_READ: u32 = 0x200;
pub const ACCESS_DEPTH_STENCIL_ATTACHMENT_WRITE: u32 = 0x400;
pub const ACCESS_TRANSFER_READ: u32 = 0x800;
pub const ACCESS_TRANSFER_WRITE: u32 = 0x1000;

pub const STAGE_TOP_OF_PIPE: u32 = 0x1;
pub const STAGE_FRAGMENT_SHADER: u32 = 0x80;
pub const STAGE_EARLY_FRAGMENT_TESTS: u32 = 0x100;
pub const STAGE_COLOR_ATTACHMENT_OUTPUT: u32 = 0x400;
pub const STAGE_TRANSFER: u32 = 0x1000;

pub const SHADER_STAGE_VERTEX: u32 = 0x1;
pub const SHADER_STAGE_FRAGMENT: u32 = 0x10;

pub const CULL_MODE_NONE: u32 = 0x0;
pub const CULL_MODE_BACK: u32 = 0x2;

pub const ASPECT_COLOR: u32 = 0x1;
pub const ASPECT_DEPTH: u32 = 0x2;
pub const ASPECT_STENCIL: u32 = 0x4;

pub const BUFFER_USAGE_TRANSFER_SRC: u32 = 0x1;
pub const BUFFER_USAGE_TRANSFER_DST: u32 = 0x2;
pub const BUFFER_USAGE_UNIFORM: u32 = 0x10;
pub const BUFFER_USAGE_INDEX: u32 = 0x40;
pub const BUFFER_USAGE_VERTEX: u32 = 0x80;

pub const MEMORY_DEVICE_LOCAL: u32 = 0x1;
pub const MEMORY_HOST_VISIBLE: u32 = 0x2;
pub const MEMORY_HOST_COHERENT: u32 = 0x4;

pub const IMAGE_USAGE_TRANSFER_SRC: u32 = 0x1;
pub const IMAGE_USAGE_TRANSFER_DST: u32 = 0x2;
pub const IMAGE_USAGE_SAMPLED: u32 = 0x4;
pub const IMAGE_USAGE_COLOR_ATTACHMENT: u32 = 0x10;
pub const IMAGE_USAGE_DEPTH_STENCIL_ATTACHMENT: u32 = 0x20;
pub const IMAGE_USAGE_TRANSIENT_ATTACHMENT: u32 = 0x40;

} // verus!
