//! Swapchain management decisions: how many images to ask for, when a
//! frame may proceed, the depth-format probe, the shared render pass, and
//! the multisampled color/depth attachments rebuilt with every swapchain.

use vstd::prelude::*;
use crate::barrier::{aspect_mask_spec, transition_masks_spec};
use crate::memory::{ImageSpec, ImageTiling};
use crate::texture::{TransitionSpec, ViewSpec, ViewType};
use crate::types::{
    Format, ImageLayout, ACCESS_COLOR_ATTACHMENT_READ, ACCESS_COLOR_ATTACHMENT_WRITE, ACCESS_NONE,
    ASPECT_COLOR, ASPECT_DEPTH, IMAGE_USAGE_COLOR_ATTACHMENT, IMAGE_USAGE_DEPTH_STENCIL_ATTACHMENT,
    IMAGE_USAGE_TRANSIENT_ATTACHMENT, MEMORY_DEVICE_LOCAL, STAGE_COLOR_ATTACHMENT_OUTPUT,
};

verus! {

/// Number of images to request: one more than the device minimum for
/// headroom, clamped to the maximum when the device states one (zero
/// means unlimited).
pub open spec fn image_count_spec(min_image_count: u32, max_image_count: u32) -> u32 {
    let preferred = (min_image_count + 1) as u32;
    if max_image_count > 0 && preferred > max_image_count {
        max_image_count
    } else {
        preferred
    }
}

pub fn choose_image_count(min_image_count: u32, max_image_count: u32) -> (r: u32)
    requires
        min_image_count < u32::MAX,
    ensures
        r == image_count_spec(min_image_count, max_image_count),
{
    let preferred = min_image_count + 1;
    if max_image_count > 0 && preferred > max_image_count {
        max_image_count
    } else {
        preferred
    }
}

/// What the frame loop does with the next frame, given the swapchain's
/// dirty flag and the current window size.
#[derive(Clone, Copy, PartialEq, Eq, Structural, Debug)]
pub enum FrameAction {
    /// The swapchain is valid: draw.
    Draw,
    /// The swapchain is stale and the window has area: rebuild it, then
    /// draw.
    RecreateThenDraw,
    /// The swapchain is stale but the window has no area: do nothing and
    /// stay dirty.
    Skip,
}

pub open spec fn frame_gate_spec(dirty: bool, width: u32, height: u32) -> FrameAction {
    if !dirty {
        FrameAction::Draw
    } else if width > 0 && height > 0 {
        FrameAction::RecreateThenDraw
    } else {
        FrameAction::Skip
    }
}

/// The swapchain state machine's step: a clean swapchain draws; a dirty
/// one is recreated first when the window has area, and is skipped —
/// staying dirty — while it does not.
pub fn frame_gate(dirty: bool, width: u32, height: u32) -> (r: FrameAction)
    ensures
        r == frame_gate_spec(dirty, width, height),
{
    if !dirty {
        FrameAction::Draw
    } else if width > 0 && height > 0 {
        FrameAction::RecreateThenDraw
    } else {
        FrameAction::Skip
    }
}

/// Who may own the swapchain images across queues.
#[derive(Clone, Copy, PartialEq, Eq, Structural, Debug)]
pub enum SharingMode {
    /// One queue family owns the images.
    Exclusive,
    /// Graphics and present run on different families, which must share.
    Concurrent,
}

/// Concurrent sharing exactly when the graphics and present queue families
/// differ; a single family keeps exclusive ownership.
pub fn choose_sharing_mode(graphics_queue_index: u32, present_queue_index: u32) -> (r: SharingMode)
    ensures
        r == (if graphics_queue_index == present_queue_index {
            SharingMode::Exclusive
        } else {
            SharingMode::Concurrent
        }),
{
    if graphics_queue_index == present_queue_index {
        SharingMode::Exclusive
    } else {
        SharingMode::Concurrent
    }
}

/// How presentable images reach the screen.
#[derive(Clone, Copy, PartialEq, Eq, Structural, Debug)]
pub enum PresentMode {
    /// Triple-buffered, lowest latency; preferred when the device offers it.
    Mailbox,
    /// The queue every device supports.
    Fifo,
}

pub fn choose_present_mode(mailbox_supported: bool) -> (r: PresentMode)
    ensures
        r == (if mailbox_supported {
            PresentMode::Mailbox
        } else {
            PresentMode::Fifo
        }),
{
    if mailbox_supported {
        PresentMode::Mailbox
    } else {
        PresentMode::Fifo
    }
}

pub open spec fn clamp_spec(x: u32, lo: u32, hi: u32) -> u32 {
    if x < lo {
        lo
    } else if x > hi {
        hi
    } else {
        x
    }
}

/// The swapchain extent: the surface's own current extent when the
/// windowing system fixes one (anything but the all-ones sentinel),
/// otherwise the window size clamped into the surface's supported range.
pub fn swapchain_extent(
    current: (u32, u32),
    min_extent: (u32, u32),
    max_extent: (u32, u32),
    desired: (u32, u32),
) -> (r: (u32, u32))
    requires
        min_extent.0 <= max_extent.0,
        min_extent.1 <= max_extent.1,
    ensures
        current.0 != u32::MAX ==> r == current,
        current.0 == u32::MAX ==> r.0 == clamp_spec(desired.0, min_extent.0, max_extent.0)
            && r.1 == clamp_spec(desired.1, min_extent.1, max_extent.1),
{
    if current.0 != u32::MAX {
        return current;
    }
    let w = if desired.0 < min_extent.0 {
        min_extent.0
    } else if desired.0 > max_extent.0 {
        max_extent.0
    } else {
        desired.0
    };
    let h = if desired.1 < min_extent.1 {
        min_extent.1
    } else if desired.1 > max_extent.1 {
        max_extent.1
    } else {
        desired.1
    };
    (w, h)
}

/// Picks the first of the three candidate depth formats the device
/// supports for optimal-tiling depth attachments; `supported[i]` answers
/// the device probe for candidate `i`.  `None` — no usable depth format —
/// is fatal to construction.
pub fn find_depth_format(supported: &Vec<bool>) -> (r: Option<Format>)
    requires
        supported@.len() == 3,
    ensures
        r is Some <==> (supported@[0] || supported@[1] || supported@[2]),
        supported@[0] ==> r == Some(Format::D32Sfloat),
        !supported@[0] && supported@[1] ==> r == Some(Format::D32SfloatS8Uint),
        !supported@[0] && !supported@[1] && supported@[2] ==> r == Some(Format::D24UnormS8Uint),
{
    if supported[0] {
        Some(Format::D32Sfloat)
    } else if supported[1] {
        Some(Format::D32SfloatS8Uint)
    } else if supported[2] {
        Some(Format::D24UnormS8Uint)
    } else {
        None
    }
}

/// How an attachment's contents are treated at render pass begin.
#[derive(Clone, Copy, PartialEq, Eq, Structural, Debug)]
pub enum LoadOp {
    Clear,
    DontCare,
}

/// How an attachment's contents are treated at render pass end.
#[derive(Clone, Copy, PartialEq, Eq, Structural, Debug)]
pub enum StoreOp {
    Store,
    DontCare,
}

/// One attachment of the shared render pass.
#[derive(Clone, Copy, PartialEq, Eq, Structural, Debug)]
pub struct AttachmentDesc {
    pub format: Format,
    pub sample_count: u32,
    pub load_op: LoadOp,
    pub store_op: StoreOp,
    pub stencil_load_op: LoadOp,
    pub stencil_store_op: StoreOp,
    pub initial_layout: ImageLayout,
    pub final_layout: ImageLayout,
}

/// The single subpass: attachment 0 the multisampled color target,
/// attachment 1 the depth target, attachment 2 the single-sample resolve
/// target that is presented.
#[derive(Clone, Copy, PartialEq, Eq, Structural, Debug)]
pub struct SubpassSpec {
    pub color_attachment: u32,
    pub color_layout: ImageLayout,
    pub depth_attachment: u32,
    pub depth_layout: ImageLayout,
    pub resolve_attachment: u32,
    pub resolve_layout: ImageLayout,
}

/// The one external dependency: color-attachment output of earlier work
/// must complete before this pass writes color.
#[derive(Clone, Copy, PartialEq, Eq, Structural, Debug)]
pub struct DependencySpec {
    pub src_external: bool,
    pub dst_subpass: u32,
    pub src_stage: u32,
    pub src_access: u32,
    pub dst_stage: u32,
    pub dst_access: u32,
}

/// The shared render pass.
pub struct RenderPassSpec {
    pub attachments: Vec<AttachmentDesc>,
    pub subpass: SubpassSpec,
    pub dependency: DependencySpec,
}

pub open spec fn attachments_spec(
    color_format: Format,
    sample_count: u32,
    depth_format: Format,
) -> Seq<AttachmentDesc> {
    seq![
        AttachmentDesc {
            format: color_format,
            sample_count,
            load_op: LoadOp::Clear,
            store_op: StoreOp::Store,
            stencil_load_op: LoadOp::DontCare,
            stencil_store_op: StoreOp::DontCare,
            initial_layout: ImageLayout::Undefined,
            final_layout: ImageLayout::ColorAttachmentOptimal,
        },
        AttachmentDesc {
            format: depth_format,
            sample_count,
            load_op: LoadOp::Clear,
            store_op: StoreOp::DontCare,
            stencil_load_op: LoadOp::DontCare,
            stencil_store_op: StoreOp::DontCare,
            initial_layout: ImageLayout::Undefined,
            final_layout: ImageLayout::DepthStencilAttachmentOptimal,
        },
        AttachmentDesc {
            format: color_format,
            sample_count: 1,
            load_op: LoadOp::DontCare,
            store_op: StoreOp::Store,
            stencil_load_op: LoadOp::DontCare,
            stencil_store_op: StoreOp::DontCare,
            initial_layout: ImageLayout::Undefined,
            final_layout: ImageLayout::PresentSrc,
        },
    ]
}

pub open spec fn subpass_spec() -> SubpassSpec {
    SubpassSpec {
        color_attachment: 0,
        color_layout: ImageLayout::ColorAttachmentOptimal,
        depth_attachment: 1,
        depth_layout: ImageLayout::DepthStencilAttachmentOptimal,
        resolve_attachment: 2,
        resolve_layout: ImageLayout::ColorAttachmentOptimal,
    }
}

pub open spec fn dependency_spec() -> DependencySpec {
    DependencySpec {
        src_external: true,
        dst_subpass: 0,
        src_stage: STAGE_COLOR_ATTACHMENT_OUTPUT,
        src_access: ACCESS_NONE,
        dst_stage: STAGE_COLOR_ATTACHMENT_OUTPUT,
        dst_access: ACCESS_COLOR_ATTACHMENT_READ | ACCESS_COLOR_ATTACHMENT_WRITE,
    }
}

/// The shared render pass: a cleared multisampled color attachment, a
/// cleared depth attachment, and a present-source resolve attachment, one
/// subpass, and an external color-output dependency.
pub fn create_render_pass(color_format: Format, sample_count: u32, depth_format: Format) -> (r:
    RenderPassSpec)
    ensures
        r.attachments@ == attachments_spec(color_format, sample_count, depth_format),
        r.subpass == subpass_spec(),
        r.dependency == dependency_spec(),
{
    let mut attachments: Vec<AttachmentDesc> = Vec::new();
    attachments.push(AttachmentDesc {
        format: color_format,
        sample_count,
        load_op: LoadOp::Clear,
        store_op: StoreOp::Store,
        stencil_load_op: LoadOp::DontCare,
        stencil_store_op: StoreOp::DontCare,
        initial_layout: ImageLayout::Undefined,
        final_layout: ImageLayout::ColorAttachmentOptimal,
    });
    attachments.push(AttachmentDesc {
        format: depth_format,
        sample_count,
        load_op: LoadOp::Clear,
        store_op: StoreOp::DontCare,
        stencil_load_op: LoadOp::DontCare,
        stencil_store_op: StoreOp::DontCare,
        initial_layout: ImageLayout::Undefined,
        final_layout: ImageLayout::DepthStencilAttachmentOptimal,
    });
    attachments.push(AttachmentDesc {
        format: color_format,
        sample_count: 1,
        load_op: LoadOp::DontCare,
        store_op: StoreOp::Store,
        stencil_load_op: LoadOp::DontCare,
        stencil_store_op: StoreOp::DontCare,
        initial_layout: ImageLayout::Undefined,
        final_layout: ImageLayout::PresentSrc,
    });
    proof {
        assert(attachments@ =~= attachments_spec(color_format, sample_count, depth_format));
    }
    RenderPassSpec {
        attachments,
        subpass: SubpassSpec {
            color_attachment: 0,
            color_layout: ImageLayout::ColorAttachmentOptimal,
            depth_attachment: 1,
            depth_layout: ImageLayout::DepthStencilAttachmentOptimal,
            resolve_attachment: 2,
            resolve_layout: ImageLayout::ColorAttachmentOptimal,
        },
        dependency: DependencySpec {
            src_external: true,
            dst_subpass: 0,
            src_stage: STAGE_COLOR_ATTACHMENT_OUTPUT,
            src_access: ACCESS_NONE,
            dst_stage: STAGE_COLOR_ATTACHMENT_OUTPUT,
            dst_access: ACCESS_COLOR_ATTACHMENT_READ | ACCESS_COLOR_ATTACHMENT_WRITE,
        },
    }
}

/// Image, transition and view of one render-target attachment texture.
#[derive(Clone, Copy, PartialEq, Eq, Structural, Debug)]
pub struct AttachmentPlan {
    pub image: ImageSpec,
    pub transition: TransitionSpec,
    pub view: ViewSpec,
}

pub open spec fn color_attachment_plan_spec(
    format: Format,
    width: u32,
    height: u32,
    sample_count: u32,
) -> AttachmentPlan {
    AttachmentPlan {
        image: ImageSpec {
            width,
            height,
            mip_levels: 1,
            array_layers: 1,
            format,
            tiling: ImageTiling::Optimal,
            usage: IMAGE_USAGE_TRANSIENT_ATTACHMENT | IMAGE_USAGE_COLOR_ATTACHMENT,
            memory_properties: MEMORY_DEVICE_LOCAL,
            sample_count,
            cube_compatible: false,
        },
        transition: TransitionSpec {
            old_layout: ImageLayout::Undefined,
            new_layout: ImageLayout::ColorAttachmentOptimal,
            level_count: 1,
            layer_count: 1,
            masks: transition_masks_spec(
                ImageLayout::Undefined,
                ImageLayout::ColorAttachmentOptimal,
            ),
            aspect_mask: ASPECT_COLOR,
        },
        view: ViewSpec {
            view_type: ViewType::D2,
            format,
            mip_levels: 1,
            layer_count: 1,
            aspect_mask: ASPECT_COLOR,
        },
    }
}

/// The multisampled color target recreated with every swapchain: a
/// transient device-local image in the swapchain's own format, moved to
/// color-attachment layout before first use.
pub fn color_attachment_plan(format: Format, width: u32, height: u32, sample_count: u32) -> (r:
    AttachmentPlan)
    ensures
        r == color_attachment_plan_spec(format, width, height, sample_count),
{
    AttachmentPlan {
        image: ImageSpec {
            width,
            height,
            mip_levels: 1,
            array_layers: 1,
            format,
            tiling: ImageTiling::Optimal,
            usage: IMAGE_USAGE_TRANSIENT_ATTACHMENT | IMAGE_USAGE_COLOR_ATTACHMENT,
            memory_properties: MEMORY_DEVICE_LOCAL,
            sample_count,
            cube_compatible: false,
        },
        transition: TransitionSpec {
            old_layout: ImageLayout::Undefined,
            new_layout: ImageLayout::ColorAttachmentOptimal,
            level_count: 1,
            layer_count: 1,
            masks: crate::barrier::transition_masks(
                ImageLayout::Undefined,
                ImageLayout::ColorAttachmentOptimal,
            ).unwrap(),
            aspect_mask: ASPECT_COLOR,
        },
        view: ViewSpec {
            view_type: ViewType::D2,
            format,
            mip_levels: 1,
            layer_count: 1,
            aspect_mask: ASPECT_COLOR,
        },
    }
}

pub open spec fn depth_attachment_plan_spec(
    format: Format,
    width: u32,
    height: u32,
    sample_count: u32,
) -> AttachmentPlan {
    AttachmentPlan {
        image: ImageSpec {
            width,
            height,
            mip_levels: 1,
            array_layers: 1,
            format,
            tiling: ImageTiling::Optimal,
            usage: IMAGE_USAGE_DEPTH_STENCIL_ATTACHMENT,
            memory_properties: MEMORY_DEVICE_LOCAL,
            sample_count,
            cube_compatible: false,
        },
        transition: TransitionSpec {
            old_layout: ImageLayout::Undefined,
            new_layout: ImageLayout::DepthStencilAttachmentOptimal,
            level_count: 1,
            layer_count: 1,
            masks: transition_masks_spec(
                ImageLayout::Undefined,
                ImageLayout::DepthStencilAttachmentOptimal,
            ),
            aspect_mask: aspect_mask_spec(ImageLayout::DepthStencilAttachmentOptimal, format),
        },
        view: ViewSpec {
            view_type: ViewType::D2,
            format,
            mip_levels: 1,
            layer_count: 1,
            aspect_mask: ASPECT_DEPTH,
        },
    }
}

/// The depth target recreated with every swapchain, moved to
/// depth-attachment layout before first use; the barrier covers the
/// stencil aspect exactly when the probed format has one, the view reads
/// depth alone.
pub fn depth_attachment_plan(format: Format, width: u32, height: u32, sample_count: u32) -> (r:
    AttachmentPlan)
    ensures
        r == depth_attachment_plan_spec(format, width, height, sample_count),
{
    AttachmentPlan {
        image: ImageSpec {
            width,
            height,
            mip_levels: 1,
            array_layers: 1,
            format,
            tiling: ImageTiling::Optimal,
            usage: IMAGE_USAGE_DEPTH_STENCIL_ATTACHMENT,
            memory_properties: MEMORY_DEVICE_LOCAL,
            sample_count,
            cube_compatible: false,
        },
        transition: TransitionSpec {
            old_layout: ImageLayout::Undefined,
            new_layout: ImageLayout::DepthStencilAttachmentOptimal,
            level_count: 1,
            layer_count: 1,
            masks: crate::barrier::transition_masks(
                ImageLayout::Undefined,
                ImageLayout::DepthStencilAttachmentOptimal,
            ).unwrap(),
            aspect_mask: crate::barrier::aspect_mask_for(
                ImageLayout::DepthStencilAttachmentOptimal,
                format,
            ),
        },
        view: ViewSpec {
            view_type: ViewType::D2,
            format,
            mip_levels: 1,
            layer_count: 1,
            aspect_mask: ASPECT_DEPTH,
        },
    }
}

} // verus!
