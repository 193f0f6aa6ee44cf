//! The layout-transition table: which access masks and pipeline stages a
//! memory barrier between two image layouts must use.

use vstd::prelude::*;
use crate::types::{
    Format, ImageLayout, ACCESS_COLOR_ATTACHMENT_READ, ACCESS_COLOR_ATTACHMENT_WRITE,
    ACCESS_DEPTH_STENCIL_ATTACHMENT_READ, ACCESS_DEPTH_STENCIL_ATTACHMENT_WRITE, ACCESS_NONE,
    ACCESS_SHADER_READ, ACCESS_TRANSFER_WRITE, ASPECT_COLOR, ASPECT_DEPTH, ASPECT_STENCIL,
    STAGE_COLOR_ATTACHMENT_OUTPUT, STAGE_EARLY_FRAGMENT_TESTS, STAGE_FRAGMENT_SHADER,
    STAGE_TOP_OF_PIPE, STAGE_TRANSFER,
};

verus! {

/// Access masks and pipeline stages of one image memory barrier.
#[derive(Clone, Copy, PartialEq, Eq, Structural, Debug)]
pub struct BarrierMasks {
    pub src_access: u32,
    pub dst_access: u32,
    pub src_stage: u32,
    pub dst_stage: u32,
}

/// The four layout transitions the renderer performs outside of mip
/// generation.  Any other request is a fatal configuration error.
pub open spec fn supported_transition(old: ImageLayout, new: ImageLayout) -> bool {
    ||| (old == ImageLayout::Undefined && new == ImageLayout::TransferDstOptimal)
    ||| (old == ImageLayout::TransferDstOptimal && new == ImageLayout::ShaderReadOnlyOptimal)
    ||| (old == ImageLayout::Undefined && new == ImageLayout::DepthStencilAttachmentOptimal)
    ||| (old == ImageLayout::Undefined && new == ImageLayout::ColorAttachmentOptimal)
}

pub open spec fn transition_masks_spec(old: ImageLayout, new: ImageLayout) -> BarrierMasks {
    if old == ImageLayout::Undefined && new == ImageLayout::TransferDstOptimal {
        BarrierMasks {
            src_access: ACCESS_NONE,
            dst_access: ACCESS_TRANSFER_WRITE,
            src_stage: STAGE_TOP_OF_PIPE,
            dst_stage: STAGE_TRANSFER,
        }
    } else if old == ImageLayout::TransferDstOptimal && new == ImageLayout::ShaderReadOnlyOptimal {
        BarrierMasks {
            src_access: ACCESS_TRANSFER_WRITE,
            dst_access: ACCESS_SHADER_READ,
            src_stage: STAGE_TRANSFER,
            dst_stage: STAGE_FRAGMENT_SHADER,
        }
    } else if old == ImageLayout::Undefined && new == ImageLayout::DepthStencilAttachmentOptimal {
        BarrierMasks {
            src_access: ACCESS_NONE,
            dst_access: ACCESS_DEPTH_STENCIL_ATTACHMENT_READ | ACCESS_DEPTH_STENCIL_ATTACHMENT_WRITE,
            src_stage: STAGE_TOP_OF_PIPE,
            dst_stage: STAGE_EARLY_FRAGMENT_TESTS,
        }
    } else {
        BarrierMasks {
            src_access: ACCESS_NONE,
            dst_access: ACCESS_COLOR_ATTACHMENT_READ | ACCESS_COLOR_ATTACHMENT_WRITE,
            src_stage: STAGE_TOP_OF_PIPE,
            dst_stage: STAGE_COLOR_ATTACHMENT_OUTPUT,
        }
    }
}

/// Masks for a layout transition barrier; `None` exactly when the requested
/// pair is not one the renderer supports (a fatal error for the caller).
pub fn transition_masks(old: ImageLayout, new: ImageLayout) -> (r: Option<BarrierMasks>)
    ensures
        r is Some <==> supported_transition(old, new),
        supported_transition(old, new) ==> r == Some(transition_masks_spec(old, new)),
{
    match (old, new) {
        (ImageLayout::Undefined, ImageLayout::TransferDstOptimal) => Some(BarrierMasks {
            src_access: ACCESS_NONE,
            dst_access: ACCESS_TRANSFER_WRITE,
            src_stage: STAGE_TOP_OF_PIPE,
            dst_stage: STAGE_TRANSFER,
        }),
        (ImageLayout::TransferDstOptimal, ImageLayout::ShaderReadOnlyOptimal) => Some(BarrierMasks {
            src_access: ACCESS_TRANSFER_WRITE,
            dst_access: ACCESS_SHADER_READ,
            src_stage: STAGE_TRANSFER,
            dst_stage: STAGE_FRAGMENT_SHADER,
        }),
        (ImageLayout::Undefined, ImageLayout::DepthStencilAttachmentOptimal) => Some(BarrierMasks {
            src_access: ACCESS_NONE,
            dst_access: ACCESS_DEPTH_STENCIL_ATTACHMENT_READ
                | ACCESS_DEPTH_STENCIL_ATTACHMENT_WRITE,
            src_stage: STAGE_TOP_OF_PIPE,
            dst_stage: STAGE_EARLY_FRAGMENT_TESTS,
        }),
        (ImageLayout::Undefined, ImageLayout::ColorAttachmentOptimal) => Some(BarrierMasks {
            src_access: ACCESS_NONE,
            dst_access: ACCESS_COLOR_ATTACHMENT_READ | ACCESS_COLOR_ATTACHMENT_WRITE,
            src_stage: STAGE_TOP_OF_PIPE,
            dst_stage: STAGE_COLOR_ATTACHMENT_OUTPUT,
        }),
        _ => None,
    }
}

/// A depth format carries a stencil aspect iff it is one of the two
/// combined depth/stencil formats.
pub fn has_stencil_component(format: Format) -> (r: bool)
    ensures
        r <==> (format == Format::D32SfloatS8Uint || format == Format::D24UnormS8Uint),
{
    match format {
        Format::D32SfloatS8Uint | Format::D24UnormS8Uint => true,
        _ => false,
    }
}

/// Which image aspects a transition barrier touches: depth (plus stencil
/// when the format has one) for a depth-attachment transition, color
/// otherwise.
pub open spec fn aspect_mask_spec(new: ImageLayout, format: Format) -> u32 {
    if new == ImageLayout::DepthStencilAttachmentOptimal {
        if format == Format::D32SfloatS8Uint || format == Format::D24UnormS8Uint {
            ASPECT_DEPTH | ASPECT_STENCIL
        } else {
            ASPECT_DEPTH
        }
    } else {
        ASPECT_COLOR
    }
}

pub fn aspect_mask_for(new: ImageLayout, format: Format) -> (r: u32)
    ensures
        r == aspect_mask_spec(new, format),
{
    if new == ImageLayout::DepthStencilAttachmentOptimal {
        if has_stencil_component(format) {
            ASPECT_DEPTH | ASPECT_STENCIL
        } else {
            ASPECT_DEPTH
        }
    } else {
        ASPECT_COLOR
    }
}

} // verus!
