//! The render core: the one verified state that ties device resources,
//! textures, pipelines, descriptor sets, command buffers and the frame
//! ring together, and every operation the viewer performs on it.
//!
//! Its well-formedness carries the renderer's structural invariants: the
//! descriptor-set, command-buffer and uniform-buffer counts always equal
//! the swapchain image count, set `i` is hard-bound to uniform buffer `i`,
//! every set samples the current textures, and the command buffers are
//! recorded against the active pipeline list.

use vstd::prelude::*;
use crate::commands::{
    buffers_recorded_ok, draw_list_spec, pipeline_draw_list, record_command_buffers,
    CommandBufferModel,
};
use crate::descriptor::{
    create_descriptor_sets, descriptor_sets_ok, rebind_model_texture, set_model_spec,
    DescriptorSetModel,
};
use crate::frame::{
    frame_stale_spec, submission_spec, AcquireOutcome, InFlightFrames, PresentOutcome,
    SubmissionSpec,
};
use crate::matrix::{
    fx_clamp01, fx_clamp01_spec, identity_spec, mat_bounded, mat_mul_spec, vec_bounded, Matrix4,
    Vector3, FX_ONE, MAT_IN_BOUND, MIN_MODEL_EXTENT, VEC_BOUND,
};
use crate::pipeline::{GeometryModel, PipelineKind, PipelineModel};
use crate::structs::{
    max_extent_spec, model_matrix_spec, view_matrix_spec, UniformBufferObject,
};
use crate::texture::{
    image_valid, plan_texture_upload, upload_plan_wf, DecodedImage, TextureError,
    TextureUploadPlan,
};
use crate::types::{CULL_MODE_BACK, CULL_MODE_NONE};

verus! {

/// The whole renderer's verified state.  The shell owns the driver handles
/// these fields describe, one handle set per field, and keeps them in step
/// by executing each operation's plan.
pub struct RenderCore {
    /// Set when presentation reported staleness or the window resized; the
    /// next frame recreates the swapchain instead of drawing.
    pub dirty_swapchain: bool,
    pub show_cubemap: bool,
    pub extent_width: u32,
    pub extent_height: u32,
    /// How many images the created swapchain actually has.
    pub image_count: usize,
    /// Whether the device's linear-blit probe for the sampled texture
    /// format came back positive; queried once at startup, required by
    /// every mip-chain upload.
    pub linear_blit_supported: bool,
    /// Source of fresh texture identities; every id below it is spent.
    pub next_texture_id: u64,
    /// Identity of the texture bound at binding 1 of every set.
    pub model_texture: u64,
    /// Identity of the cubemap bound at binding 2 of every set.
    pub cubemap_texture: u64,
    pub pipeline: PipelineModel,
    pub pipeline_cubemap: PipelineModel,
    pub uniform_buffer_count: usize,
    pub descriptor_sets: Vec<DescriptorSetModel>,
    pub command_buffers: Vec<CommandBufferModel>,
    pub in_flight_frames: InFlightFrames,
    pub view_matrix: Matrix4,
    pub model_matrix: Matrix4,
    pub initial_model_matrix: Matrix4,
    /// Q16.16 blend weight between vertex colors and the texture.
    pub texture_weight: i64,
    pub model_extent_min: Vector3,
    pub model_extent_max: Vector3,
}

impl RenderCore {
    /// The bounding box the current model was loaded with is usable: within
    /// the fixed-point range and not degenerate.
    pub open spec fn extents_ok(self) -> bool {
        &&& vec_bounded(self.model_extent_min, VEC_BOUND as int)
        &&& vec_bounded(self.model_extent_max, VEC_BOUND as int)
        &&& self.model_extent_min.x <= self.model_extent_max.x
        &&& self.model_extent_min.y <= self.model_extent_max.y
        &&& self.model_extent_min.z <= self.model_extent_max.z
        &&& max_extent_spec(self.model_extent_min, self.model_extent_max) >= MIN_MODEL_EXTENT
    }

    /// The pipelines a frame currently draws, in order.
    pub open spec fn draw_list(self) -> Seq<PipelineModel> {
        draw_list_spec(self.pipeline, self.pipeline_cubemap, self.show_cubemap)
    }

    /// Structural well-formedness: every per-image resource count equals
    /// the swapchain image count, set `i` reads uniform buffer `i` and
    /// samples the current textures, command buffers are recorded for the
    /// active pipeline list, texture identities are distinct and below the
    /// fresh-id counter, and the ring is a two-slot ring.
    pub open spec fn wf(self) -> bool {
        &&& self.image_count >= 1
        &&& self.uniform_buffer_count == self.image_count
        &&& descriptor_sets_ok(
            self.descriptor_sets@,
            self.image_count as nat,
            self.model_texture,
            self.cubemap_texture,
        )
        &&& buffers_recorded_ok(self.command_buffers@, self.image_count as nat, self.draw_list())
        &&& self.in_flight_frames.wf()
        &&& self.extent_width >= 1
        &&& self.extent_height >= 1
        &&& self.pipeline.kind == PipelineKind::Model
        &&& self.pipeline_cubemap.kind == PipelineKind::Skybox
        &&& self.model_texture < self.next_texture_id
        &&& self.cubemap_texture < self.next_texture_id
        &&& self.model_texture != self.cubemap_texture
        &&& 0 <= self.texture_weight <= FX_ONE
        &&& self.extents_ok()
    }

    pub open spec fn same_extent(self, other: RenderCore) -> bool {
        &&& self.extent_width == other.extent_width
        &&& self.extent_height == other.extent_height
        &&& self.image_count == other.image_count
    }

    pub open spec fn same_textures(self, other: RenderCore) -> bool {
        &&& self.model_texture == other.model_texture
        &&& self.cubemap_texture == other.cubemap_texture
        &&& self.next_texture_id == other.next_texture_id
        &&& self.linear_blit_supported == other.linear_blit_supported
    }

    pub open spec fn same_pipelines(self, other: RenderCore) -> bool {
        &&& self.pipeline == other.pipeline
        &&& self.pipeline_cubemap == other.pipeline_cubemap
    }

    pub open spec fn same_transforms(self, other: RenderCore) -> bool {
        &&& self.view_matrix == other.view_matrix
        &&& self.model_matrix == other.model_matrix
        &&& self.initial_model_matrix == other.initial_model_matrix
        &&& self.texture_weight == other.texture_weight
        &&& self.model_extent_min == other.model_extent_min
        &&& self.model_extent_max == other.model_extent_max
    }

    pub open spec fn same_ring(self, other: RenderCore) -> bool {
        self.in_flight_frames == other.in_flight_frames
    }

    pub open spec fn same_flags(self, other: RenderCore) -> bool {
        &&& self.dirty_swapchain == other.dirty_swapchain
        &&& self.show_cubemap == other.show_cubemap
    }

    /// A fresh core over a just-created swapchain of `image_count` images:
    /// clean, cubemap visible, camera and model transforms at their
    /// starting values, the model and cubemap textures freshly minted, and
    /// every per-image resource created in step.
    pub fn new(
        width: u32,
        height: u32,
        image_count: usize,
        linear_blit_supported: bool,
        model_geometry: GeometryModel,
        skybox_geometry: GeometryModel,
        extent_min: Vector3,
        extent_max: Vector3,
    ) -> (r: RenderCore)
        requires
            width >= 1,
            height >= 1,
            image_count >= 1,
            vec_bounded(extent_min, VEC_BOUND as int),
            vec_bounded(extent_max, VEC_BOUND as int),
            extent_min.x <= extent_max.x,
            extent_min.y <= extent_max.y,
            extent_min.z <= extent_max.z,
            max_extent_spec(extent_min, extent_max) >= MIN_MODEL_EXTENT,
        ensures
            r.wf(),
            !r.dirty_swapchain,
            r.show_cubemap,
            r.extent_width == width,
            r.extent_height == height,
            r.image_count == image_count,
            r.linear_blit_supported == linear_blit_supported,
            r.in_flight_frames.current_frame == 0,
            r.pipeline == (PipelineModel {
                kind: PipelineKind::Model,
                cull_mode: CULL_MODE_NONE,
                geometry: Some(model_geometry),
            }),
            r.pipeline_cubemap == (PipelineModel {
                kind: PipelineKind::Skybox,
                cull_mode: CULL_MODE_BACK,
                geometry: Some(skybox_geometry),
            }),
            r.view_matrix == view_matrix_spec(),
            r.model_matrix == identity_spec(),
            r.initial_model_matrix == model_matrix_spec(extent_min, extent_max),
            r.texture_weight == 0,
            r.model_extent_min == extent_min,
            r.model_extent_max == extent_max,
    {
        let pipeline = PipelineModel {
            kind: PipelineKind::Model,
            cull_mode: CULL_MODE_NONE,
            geometry: Some(model_geometry),
        };
        let pipeline_cubemap = PipelineModel {
            kind: PipelineKind::Skybox,
            cull_mode: CULL_MODE_BACK,
            geometry: Some(skybox_geometry),
        };
        let model_texture: u64 = 0;
        let cubemap_texture: u64 = 1;
        let descriptor_sets = create_descriptor_sets(image_count, model_texture, cubemap_texture);
        let draw = pipeline_draw_list(&pipeline, &pipeline_cubemap, true);
        let command_buffers = record_command_buffers(image_count, &draw);
        RenderCore {
            dirty_swapchain: false,
            show_cubemap: true,
            extent_width: width,
            extent_height: height,
            image_count,
            linear_blit_supported,
            next_texture_id: 2,
            model_texture,
            cubemap_texture,
            pipeline,
            pipeline_cubemap,
            uniform_buffer_count: image_count,
            descriptor_sets,
            command_buffers,
            in_flight_frames: InFlightFrames::new(),
            view_matrix: UniformBufferObject::view_matrix(),
            model_matrix: Matrix4::unit(),
            initial_model_matrix: UniformBufferObject::model_matrix(extent_min, extent_max),
            texture_weight: 0,
            model_extent_min: extent_min,
            model_extent_max: extent_max,
        }
    }

    /// Rebuilds everything that depends on the swapchain against the new
    /// extent and image count; the shell must wait for device idle first,
    /// detach the pipelines' geometry, destroy the old chain as one unit
    /// and rebuild, reattaching the same geometry.  Textures, transforms,
    /// the ring position and the cubemap toggle all survive; the core
    /// comes out clean.
    pub fn recreate_swapchain(&mut self, width: u32, height: u32, image_count: usize)
        requires
            old(self).wf(),
            width >= 1,
            height >= 1,
            image_count >= 1,
        ensures
            final(self).wf(),
            !final(self).dirty_swapchain,
            final(self).show_cubemap == old(self).show_cubemap,
            final(self).extent_width == width,
            final(self).extent_height == height,
            final(self).image_count == image_count,
            final(self).uniform_buffer_count == image_count,
            final(self).same_textures(*old(self)),
            final(self).same_pipelines(*old(self)),
            final(self).same_transforms(*old(self)),
            final(self).same_ring(*old(self)),
    {
        self.extent_width = width;
        self.extent_height = height;
        self.image_count = image_count;
        self.uniform_buffer_count = image_count;
        self.descriptor_sets = create_descriptor_sets(
            image_count,
            self.model_texture,
            self.cubemap_texture,
        );
        let draw = pipeline_draw_list(&self.pipeline, &self.pipeline_cubemap, self.show_cubemap);
        self.command_buffers = record_command_buffers(image_count, &draw);
        self.dirty_swapchain = false;
    }

    /// Swaps the model texture for freshly decoded pixels.  A degenerate
    /// image — or a device that cannot blit the format with linear
    /// filtering — is rejected with the core untouched: the existing
    /// texture stays live and no command buffer is re-recorded.  On
    /// success the returned plan uploads the new texture under a fresh
    /// identity, binding 1 of every descriptor set is rewritten to it, and
    /// the command buffers are re-recorded; the shell must wait for device
    /// idle, execute the plan, then destroy the old texture.
    pub fn load_new_texture(&mut self, image: DecodedImage) -> (r: Result<
        TextureUploadPlan,
        TextureError,
    >)
        requires
            old(self).wf(),
            old(self).next_texture_id < 0xFFFF_FFFF_FFFF_FFFF,
        ensures
            final(self).wf(),
            r is Ok <==> image_valid(image) && old(self).linear_blit_supported,
            r is Err ==> *final(self) == *old(self),
            r == Err::<TextureUploadPlan, TextureError>(TextureError::InvalidImage) <==>
                !image_valid(image),
            r == Err::<TextureUploadPlan, TextureError>(TextureError::LinearBlitUnsupported) <==> (
            image_valid(image) && !old(self).linear_blit_supported),
            r matches Ok(p) ==> ({
                &&& upload_plan_wf(p, image.width as nat, image.height as nat, 1)
                &&& p.staging_data@ == image.pixels@
                &&& final(self).model_texture == old(self).next_texture_id
                &&& final(self).model_texture != old(self).model_texture
                &&& final(self).cubemap_texture == old(self).cubemap_texture
                &&& final(self).same_extent(*old(self))
                &&& final(self).same_pipelines(*old(self))
                &&& final(self).same_transforms(*old(self))
                &&& final(self).same_ring(*old(self))
                &&& final(self).same_flags(*old(self))
                &&& final(self).uniform_buffer_count == old(self).uniform_buffer_count
            }),
    {
        let plan = match plan_texture_upload(image, self.linear_blit_supported) {
            Ok(plan) => plan,
            Err(e) => {
                return Err(e);
            },
        };
        let new_id = self.next_texture_id;
        self.next_texture_id = self.next_texture_id + 1;
        self.model_texture = new_id;
        self.descriptor_sets = rebind_model_texture(&self.descriptor_sets, new_id);
        proof {
            assert forall|i: int| 0 <= i < self.image_count implies #[trigger] self.descriptor_sets@[i]
                == set_model_spec(i, new_id, self.cubemap_texture) by {
                assert(old(self).descriptor_sets@[i] == set_model_spec(
                    i,
                    old(self).model_texture,
                    old(self).cubemap_texture,
                ));
            }
        }
        self.recreate_command_buffers();
        Ok(plan)
    }

    /// Replaces the model pipeline's geometry and the normalization
    /// transform with a newly loaded model's, and re-records the command
    /// buffers; the shell must wait for device idle and destroy the old
    /// geometry buffers.
    pub fn load_new_model(
        &mut self,
        geometry: GeometryModel,
        extent_min: Vector3,
        extent_max: Vector3,
    )
        requires
            old(self).wf(),
            vec_bounded(extent_min, VEC_BOUND as int),
            vec_bounded(extent_max, VEC_BOUND as int),
            extent_min.x <= extent_max.x,
            extent_min.y <= extent_max.y,
            extent_min.z <= extent_max.z,
            max_extent_spec(extent_min, extent_max) >= MIN_MODEL_EXTENT,
        ensures
            final(self).wf(),
            final(self).pipeline.geometry == Some(geometry),
            final(self).pipeline.kind == old(self).pipeline.kind,
            final(self).pipeline.cull_mode == old(self).pipeline.cull_mode,
            final(self).pipeline_cubemap == old(self).pipeline_cubemap,
            final(self).initial_model_matrix == model_matrix_spec(extent_min, extent_max),
            final(self).model_extent_min == extent_min,
            final(self).model_extent_max == extent_max,
            final(self).view_matrix == old(self).view_matrix,
            final(self).model_matrix == old(self).model_matrix,
            final(self).texture_weight == old(self).texture_weight,
            final(self).same_extent(*old(self)),
            final(self).same_textures(*old(self)),
            final(self).same_ring(*old(self)),
            final(self).same_flags(*old(self)),
            final(self).uniform_buffer_count == old(self).uniform_buffer_count,
    {
        self.initial_model_matrix = UniformBufferObject::model_matrix(extent_min, extent_max);
        self.model_extent_min = extent_min;
        self.model_extent_max = extent_max;
        self.pipeline = PipelineModel { geometry: Some(geometry), ..self.pipeline };
        self.recreate_command_buffers();
    }

    /// Shows or hides the cubemap background.  The active pipeline list
    /// changes with it, so the command buffers are re-recorded before the
    /// next draw.
    pub fn set_show_cubemap(&mut self, show: bool)
        requires
            old(self).wf(),
        ensures
            final(self).wf(),
            final(self).show_cubemap == show,
            final(self).dirty_swapchain == old(self).dirty_swapchain,
            final(self).command_buffers@.len() == old(self).image_count,
            buffers_recorded_ok(
                final(self).command_buffers@,
                old(self).image_count as nat,
                draw_list_spec(old(self).pipeline, old(self).pipeline_cubemap, show),
            ),
            final(self).same_extent(*old(self)),
            final(self).same_textures(*old(self)),
            final(self).same_pipelines(*old(self)),
            final(self).same_transforms(*old(self)),
            final(self).same_ring(*old(self)),
            final(self).uniform_buffer_count == old(self).uniform_buffer_count,
            final(self).descriptor_sets@ == old(self).descriptor_sets@,
    {
        self.show_cubemap = show;
        self.recreate_command_buffers();
    }

    /// Re-records one command buffer per framebuffer against the active
    /// pipeline list.  The shell must free the old buffers and record the
    /// returned models.
    fn recreate_command_buffers(&mut self)
        requires
            old(self).image_count >= 1,
        ensures
            final(self).command_buffers@.len() == old(self).image_count,
            buffers_recorded_ok(
                final(self).command_buffers@,
                old(self).image_count as nat,
                old(self).draw_list(),
            ),
            *final(self) == (RenderCore {
                command_buffers: final(self).command_buffers,
                ..*old(self)
            }),
    {
        let draw = pipeline_draw_list(&self.pipeline, &self.pipeline_cubemap, self.show_cubemap);
        let n = self.image_count;
        self.command_buffers = record_command_buffers(n, &draw);
    }

    /// Claims the next ring slot, advancing the ring — this happens once
    /// per frame whatever the frame's outcome.  The shell then waits on
    /// the slot's fence and acquires an image.
    pub fn begin_frame(&mut self) -> (slot: usize)
        requires
            old(self).wf(),
        ensures
            final(self).wf(),
            slot == old(self).in_flight_frames.current_frame,
            slot < crate::frame::MAX_FRAMES_IN_FLIGHT,
            final(self).in_flight_frames.current_frame == (
            old(self).in_flight_frames.current_frame + 1) % (
            crate::frame::MAX_FRAMES_IN_FLIGHT as int),
            final(self).same_extent(*old(self)),
            final(self).same_textures(*old(self)),
            final(self).same_pipelines(*old(self)),
            final(self).same_transforms(*old(self)),
            final(self).same_flags(*old(self)),
            final(self).uniform_buffer_count == old(self).uniform_buffer_count,
            final(self).descriptor_sets@ == old(self).descriptor_sets@,
            final(self).command_buffers@ == old(self).command_buffers@,
    {
        self.in_flight_frames.next()
    }

    /// The one submission of a frame, after an image was acquired: reset
    /// the slot's fence, write uniform buffer `image_index`, submit
    /// command buffer `image_index` waiting on the slot's image-available
    /// semaphore and signalling its render-finished semaphore, fenced by
    /// the slot, then present waiting on render-finished.
    pub fn frame_submission(&self, slot: usize, image_index: u32) -> (s: SubmissionSpec)
        requires
            self.wf(),
            slot < crate::frame::MAX_FRAMES_IN_FLIGHT,
            image_index < self.image_count,
        ensures
            s == submission_spec(slot, image_index as usize),
            s.command_buffer < self.command_buffers@.len(),
            s.ubo_index < self.uniform_buffer_count,
            s.image_index < self.descriptor_sets@.len(),
            self.descriptor_sets@[s.image_index as int].ubo_index == s.ubo_index,
    {
        SubmissionSpec {
            slot,
            image_index: image_index as usize,
            reset_fence_first: true,
            command_buffer: image_index as usize,
            ubo_index: image_index as usize,
            wait_image_available_slot: slot,
            wait_stage: crate::types::STAGE_COLOR_ATTACHMENT_OUTPUT,
            signal_render_finished_slot: slot,
            fence_slot: slot,
        }
    }

    /// Records the frame's outcome: the dirty flag becomes exactly the
    /// staleness the acquire and present calls reported.  `present` is
    /// `None` exactly when the acquire abandoned the frame; an abandoned
    /// frame left its fence unreset, which is safe because nothing new was
    /// fenced on it.
    pub fn finish_frame(
        &mut self,
        acquire: &AcquireOutcome,
        present: &Option<PresentOutcome>,
    ) -> (stale: bool)
        requires
            old(self).wf(),
            present is Some <==> acquire matches AcquireOutcome::Acquired { .. },
        ensures
            final(self).wf(),
            stale == frame_stale_spec(*acquire, *present),
            final(self).dirty_swapchain == stale,
            final(self).show_cubemap == old(self).show_cubemap,
            final(self).same_extent(*old(self)),
            final(self).same_textures(*old(self)),
            final(self).same_pipelines(*old(self)),
            final(self).same_transforms(*old(self)),
            final(self).same_ring(*old(self)),
            final(self).uniform_buffer_count == old(self).uniform_buffer_count,
            final(self).descriptor_sets@ == old(self).descriptor_sets@,
            final(self).command_buffers@ == old(self).command_buffers@,
    {
        let stale = match acquire {
            AcquireOutcome::OutOfDate => true,
            AcquireOutcome::Acquired { .. } => match present {
                Some(PresentOutcome::Presented { suboptimal }) => *suboptimal,
                Some(PresentOutcome::OutOfDate) => true,
                None => true,
            },
        };
        self.dirty_swapchain = stale;
        stale
    }

    /// The uniform data for the next frame: the user transform composed
    /// with the model's normalization, the camera, the projection the
    /// shell computed for the current aspect ratio, and the blend weight.
    pub fn build_ubo(&self, proj: Matrix4) -> (u: UniformBufferObject)
        requires
            mat_bounded(self.model_matrix, MAT_IN_BOUND as int),
            mat_bounded(self.initial_model_matrix, MAT_IN_BOUND as int),
        ensures
            u.model == mat_mul_spec(self.model_matrix, self.initial_model_matrix),
            u.view == self.view_matrix,
            u.proj == proj,
            u.texture_weight == self.texture_weight,
    {
        UniformBufferObject {
            model: self.model_matrix.mul(&self.initial_model_matrix),
            view: self.view_matrix,
            proj,
            texture_weight: self.texture_weight,
        }
    }

    /// Moves the blend weight by `delta`, clamped into the unit interval.
    pub fn apply_texture_weight_delta(&mut self, delta: i64)
        requires
            old(self).wf(),
            -0x7FFF_FFFF_0000 <= delta <= 0x7FFF_FFFF_0000,
        ensures
            final(self).wf(),
            final(self).texture_weight == fx_clamp01_spec(old(self).texture_weight + delta),
            *final(self) == (RenderCore {
                texture_weight: final(self).texture_weight,
                ..*old(self)
            }),
    {
        self.texture_weight = fx_clamp01(self.texture_weight + delta);
    }

    /// Puts the camera and the model transform back to their starting
    /// values for the current model.
    pub fn reset_ubo(&mut self)
        requires
            old(self).wf(),
        ensures
            final(self).wf(),
            final(self).view_matrix == view_matrix_spec(),
            final(self).model_matrix == identity_spec(),
            final(self).initial_model_matrix == model_matrix_spec(
                old(self).model_extent_min,
                old(self).model_extent_max,
            ),
            *final(self) == (RenderCore {
                view_matrix: final(self).view_matrix,
                model_matrix: final(self).model_matrix,
                initial_model_matrix: final(self).initial_model_matrix,
                ..*old(self)
            }),
    {
        self.view_matrix = UniformBufferObject::view_matrix();
        self.model_matrix = Matrix4::unit();
        self.initial_model_matrix = UniformBufferObject::model_matrix(
            self.model_extent_min,
            self.model_extent_max,
        );
    }

    /// Current swapchain extent, width then height.
    pub fn get_extent(&self) -> (r: (u32, u32))
        ensures
            r.0 == self.extent_width,
            r.1 == self.extent_height,
    {
        (self.extent_width, self.extent_height)
    }

    /// Marks the swapchain stale, as a window resize notification does.
    pub fn mark_dirty(&mut self)
        requires
            old(self).wf(),
        ensures
            final(self).wf(),
            final(self).dirty_swapchain,
            *final(self) == (RenderCore { dirty_swapchain: true, ..*old(self) }),
    {
        self.dirty_swapchain = true;
    }
}

/// The per-image resource counts — descriptor sets, command buffers,
/// uniform buffers — always equal the swapchain image count, after
/// creation and after every recreation alike.
pub proof fn lemma_resource_counts(c: RenderCore)
    requires
        c.wf(),
    ensures
        c.descriptor_sets@.len() == c.image_count,
        c.command_buffers@.len() == c.image_count,
        c.uniform_buffer_count == c.image_count,
{
}

/// Every descriptor set samples the core's current textures: binding 1 is
/// the model texture and binding 2 the cubemap on every set, so a
/// successful texture swap is visible to every frame that draws after it
/// and the old texture to none.
pub proof fn lemma_sets_sample_current_textures(c: RenderCore)
    requires
        c.wf(),
    ensures
        forall|i: int|
            0 <= i < c.descriptor_sets@.len() ==> (#[trigger] c.descriptor_sets@[i]).model_texture
                == c.model_texture && c.descriptor_sets@[i].cubemap_texture == c.cubemap_texture,
{
    assert forall|i: int|
        0 <= i < c.descriptor_sets@.len() implies (#[trigger] c.descriptor_sets@[i]).model_texture
        == c.model_texture && c.descriptor_sets@[i].cubemap_texture == c.cubemap_texture by {
        assert(c.descriptor_sets@[i] == set_model_spec(i, c.model_texture, c.cubemap_texture));
    }
}

/// What every command buffer draws follows the cubemap toggle: with the
/// cubemap visible two steps, the skybox first to seed depth, then the
/// model; with it hidden a single model step.  Toggling therefore changes
/// both the recorded pipeline count and order.
pub proof fn lemma_recorded_pipeline_order(c: RenderCore)
    requires
        c.wf(),
    ensures
        forall|i: int|
            0 <= i < c.command_buffers@.len() ==> (#[trigger] c.command_buffers@[i]).steps@.len()
                == (if c.show_cubemap {
                2int
            } else {
                1int
            }),
        c.show_cubemap ==> forall|i: int|
            0 <= i < c.command_buffers@.len() ==> (#[trigger] c.command_buffers@[i]).steps@[0].pipeline
                == PipelineKind::Skybox && c.command_buffers@[i].steps@[1].pipeline
                == PipelineKind::Model,
        !c.show_cubemap ==> forall|i: int|
            0 <= i < c.command_buffers@.len() ==> (#[trigger] c.command_buffers@[i]).steps@[0].pipeline
                == PipelineKind::Model,
{
    assert forall|i: int| 0 <= i < c.command_buffers@.len() implies {
        &&& (#[trigger] c.command_buffers@[i]).steps@.len() == (if c.show_cubemap {
            2int
        } else {
            1int
        })
        &&& (c.show_cubemap ==> c.command_buffers@[i].steps@[0].pipeline == PipelineKind::Skybox
            && c.command_buffers@[i].steps@[1].pipeline == PipelineKind::Model)
        &&& (!c.show_cubemap ==> c.command_buffers@[i].steps@[0].pipeline == PipelineKind::Model)
    } by {
        assert(crate::commands::buffer_recorded_ok(c.command_buffers@[i], i, c.draw_list()));
        if c.show_cubemap {
            assert(c.command_buffers@[i].steps@[0] == crate::commands::step_for(
                c.draw_list()[0],
                i,
            ));
            assert(c.command_buffers@[i].steps@[1] == crate::commands::step_for(
                c.draw_list()[1],
                i,
            ));
        } else {
            assert(c.command_buffers@[i].steps@[0] == crate::commands::step_for(
                c.draw_list()[0],
                i,
            ));
        }
    }
}

/// After a recreation the core is clean, so the next frame draws, and with
/// any in-range acquired image the frame is fully resourced: the image's
/// own command buffer, uniform buffer and descriptor set all exist and are
/// bound 1:1.  The frame reports staleness exactly when acquire or present
/// said the surface changed again.
pub proof fn lemma_recreate_then_draw(
    c: RenderCore,
    acquire: AcquireOutcome,
    present: Option<PresentOutcome>,
)
    requires
        c.wf(),
        !c.dirty_swapchain,
        present is Some <==> acquire matches AcquireOutcome::Acquired { .. },
        acquire matches AcquireOutcome::Acquired { image_index, .. } ==> image_index
            < c.image_count,
    ensures
        crate::swapchain::frame_gate_spec(c.dirty_swapchain, c.extent_width, c.extent_height)
            == crate::swapchain::FrameAction::Draw,
        acquire matches AcquireOutcome::Acquired { image_index, .. } ==> {
            let s = submission_spec(c.in_flight_frames.current_frame, image_index as usize);
            &&& s.command_buffer < c.command_buffers@.len()
            &&& s.ubo_index < c.uniform_buffer_count
            &&& s.image_index < c.descriptor_sets@.len()
            &&& c.descriptor_sets@[s.image_index as int].ubo_index == s.ubo_index
            &&& c.command_buffers@[s.command_buffer as int].framebuffer_index == s.command_buffer
        },
        frame_stale_spec(acquire, present) <==> (acquire == AcquireOutcome::OutOfDate || present
            == Some(PresentOutcome::OutOfDate) || present matches Some(
            PresentOutcome::Presented { suboptimal: true },
        )),
{
    if let AcquireOutcome::Acquired { image_index, .. } = acquire {
        let s = submission_spec(c.in_flight_frames.current_frame, image_index as usize);
        assert(c.descriptor_sets@[s.image_index as int] == set_model_spec(
            s.image_index as int,
            c.model_texture,
            c.cubemap_texture,
        ));
        assert(crate::commands::buffer_recorded_ok(
            c.command_buffers@[s.command_buffer as int],
            s.command_buffer as int,
            c.draw_list(),
        ));
    }
}

} // verus!
