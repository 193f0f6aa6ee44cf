use scop_core::descriptor::{create_uniform_buffers, UBO_SIZE};
use scop_core::frame::{AcquireOutcome, PresentOutcome};
use scop_core::input::{check_if_image, check_if_obj, KeyStates, MoveKey};
use scop_core::matrix::{Matrix4, Vector3, FX_ONE};
use scop_core::pipeline::{GeometryModel, PipelineKind};
use scop_core::render_core::RenderCore;
use scop_core::structs::{UniformBufferObject, Vertex};
use scop_core::texture::{DecodedImage, TextureError};

fn unit_box() -> (Vector3, Vector3) {
    (
        Vector3 { x: 0, y: 0, z: 0 },
        Vector3 { x: 2 * FX_ONE, y: FX_ONE, z: FX_ONE },
    )
}

fn test_core(image_count: usize) -> RenderCore {
    let (lo, hi) = unit_box();
    RenderCore::new(
        800,
        600,
        image_count,
        true,
        GeometryModel { index_count: 36 },
        GeometryModel { index_count: 36 },
        lo,
        hi,
    )
}

fn rgba(width: u32, height: u32) -> DecodedImage {
    DecodedImage { width, height, pixels: vec![0x55u8; (4 * width * height) as usize] }
}

#[test]
fn counts_track_image_count_through_recreation() {
    let mut core = test_core(3);
    assert_eq!(core.descriptor_sets.len(), 3);
    assert_eq!(core.command_buffers.len(), 3);
    assert_eq!(core.uniform_buffer_count, 3);
    assert!(!core.dirty_swapchain);

    core.recreate_swapchain(1024, 768, 5);
    assert_eq!(core.descriptor_sets.len(), 5);
    assert_eq!(core.command_buffers.len(), 5);
    assert_eq!(core.uniform_buffer_count, 5);
    assert_eq!(core.get_extent(), (1024, 768));
    assert!(!core.dirty_swapchain);

    core.recreate_swapchain(100, 100, 2);
    assert_eq!(core.descriptor_sets.len(), 2);
    assert_eq!(core.command_buffers.len(), 2);
    assert_eq!(core.uniform_buffer_count, 2);
}

#[test]
fn recreate_then_draw_is_stale_only_when_resized_again() {
    let mut core = test_core(3);
    core.mark_dirty();
    core.recreate_swapchain(640, 480, 3);
    assert!(!core.dirty_swapchain);

    // A clean frame: acquire and present both fine.
    let slot = core.begin_frame();
    let s = core.frame_submission(slot, 1);
    assert_eq!(s.command_buffer, 1);
    let stale = core.finish_frame(
        &AcquireOutcome::Acquired { image_index: 1, suboptimal: false },
        &Some(PresentOutcome::Presented { suboptimal: false }),
    );
    assert!(!stale);
    assert!(!core.dirty_swapchain);

    // The window changed again during the frame: present says suboptimal.
    let _ = core.begin_frame();
    let stale = core.finish_frame(
        &AcquireOutcome::Acquired { image_index: 0, suboptimal: false },
        &Some(PresentOutcome::Presented { suboptimal: true }),
    );
    assert!(stale);
    assert!(core.dirty_swapchain);
}

#[test]
fn ring_index_cycles_regardless_of_outcomes() {
    let mut core = test_core(3);
    let mut slots = Vec::new();
    let outcomes = [
        (AcquireOutcome::OutOfDate, None),
        (
            AcquireOutcome::Acquired { image_index: 0, suboptimal: false },
            Some(PresentOutcome::Presented { suboptimal: false }),
        ),
        (
            AcquireOutcome::Acquired { image_index: 2, suboptimal: true },
            Some(PresentOutcome::OutOfDate),
        ),
        (AcquireOutcome::OutOfDate, None),
        (
            AcquireOutcome::Acquired { image_index: 1, suboptimal: false },
            Some(PresentOutcome::Presented { suboptimal: true }),
        ),
        (
            AcquireOutcome::Acquired { image_index: 1, suboptimal: false },
            Some(PresentOutcome::Presented { suboptimal: false }),
        ),
    ];
    for (acquire, present) in outcomes.iter() {
        slots.push(core.begin_frame());
        let _ = core.finish_frame(acquire, present);
    }
    assert_eq!(slots, vec![0, 1, 0, 1, 0, 1]);
}

#[test]
fn abandoned_acquire_reports_stale_and_skips_fence_reset() {
    let mut core = test_core(2);
    let _ = core.begin_frame();
    let stale = core.finish_frame(&AcquireOutcome::OutOfDate, &None);
    assert!(stale);
    assert!(core.dirty_swapchain);
}

#[test]
fn new_texture_rebinds_every_set_and_never_the_old_one() {
    let mut core = test_core(4);
    let old_tex = core.model_texture;
    let old_cube = core.cubemap_texture;

    let plan = core.load_new_texture(rgba(8, 4)).unwrap();
    assert_eq!(plan.mip_levels, 3);
    let new_tex = core.model_texture;
    assert_ne!(new_tex, old_tex);
    assert_eq!(core.cubemap_texture, old_cube);
    assert_eq!(core.descriptor_sets.len(), 4);
    for (i, set) in core.descriptor_sets.iter().enumerate() {
        assert_eq!(set.model_texture, new_tex);
        assert_eq!(set.cubemap_texture, old_cube);
        assert_eq!(set.ubo_index, i);
        assert_eq!(set.ubo_range, UBO_SIZE);
    }
    assert_eq!(core.command_buffers.len(), 4);
}

#[test]
fn texture_load_refused_without_linear_blit_support() {
    let (lo, hi) = unit_box();
    let mut core = RenderCore::new(
        800,
        600,
        2,
        false,
        GeometryModel { index_count: 36 },
        GeometryModel { index_count: 36 },
        lo,
        hi,
    );
    let old_tex = core.model_texture;
    let err = core.load_new_texture(rgba(4, 4)).unwrap_err();
    assert_eq!(err, TextureError::LinearBlitUnsupported);
    assert_eq!(core.model_texture, old_tex);
}

#[test]
fn failed_texture_load_leaves_the_core_untouched() {
    let mut core = test_core(2);
    let old_tex = core.model_texture;
    let err = core
        .load_new_texture(DecodedImage { width: 4, height: 4, pixels: vec![0u8; 63] })
        .unwrap_err();
    assert_eq!(err, TextureError::InvalidImage);
    assert_eq!(core.model_texture, old_tex);
    for set in core.descriptor_sets.iter() {
        assert_eq!(set.model_texture, old_tex);
    }
}

#[test]
fn cubemap_toggle_changes_recorded_order_and_count() {
    let mut core = test_core(2);
    assert!(core.show_cubemap);
    for cb in core.command_buffers.iter() {
        assert_eq!(cb.steps.len(), 2);
        assert_eq!(cb.steps[0].pipeline, PipelineKind::Skybox);
        assert_eq!(cb.steps[1].pipeline, PipelineKind::Model);
        assert!(cb.simultaneous_use);
        // Every buffer clears to opaque black and the far depth plane.
        assert_eq!(
            (cb.clear.color_r, cb.clear.color_g, cb.clear.color_b, cb.clear.color_a),
            (0, 0, 0, FX_ONE)
        );
        assert_eq!(cb.clear.depth, FX_ONE);
        assert_eq!(cb.clear.stencil, 0);
    }

    core.set_show_cubemap(false);
    for cb in core.command_buffers.iter() {
        assert_eq!(cb.steps.len(), 1);
        assert_eq!(cb.steps[0].pipeline, PipelineKind::Model);
    }

    core.set_show_cubemap(true);
    for (i, cb) in core.command_buffers.iter().enumerate() {
        assert_eq!(cb.steps.len(), 2);
        assert_eq!(cb.steps[0].pipeline, PipelineKind::Skybox);
        assert_eq!(cb.steps[0].descriptor_set_index, i);
        assert_eq!(cb.steps[1].descriptor_set_index, i);
        assert_eq!(cb.framebuffer_index, i);
    }
}

#[test]
fn new_model_swaps_geometry_and_normalization() {
    let mut core = test_core(2);
    let lo = Vector3 { x: -FX_ONE, y: -FX_ONE, z: -FX_ONE };
    let hi = Vector3 { x: FX_ONE, y: FX_ONE, z: FX_ONE };
    core.load_new_model(GeometryModel { index_count: 99 }, lo, hi);
    assert_eq!(core.pipeline.geometry.unwrap().index_count, 99);
    assert_eq!(core.model_extent_min, lo);
    assert_eq!(core.model_extent_max, hi);
    for cb in core.command_buffers.iter() {
        // The model pipeline's step carries the new index count.
        assert_eq!(cb.steps[1].index_count, 99);
    }
}

#[test]
fn uniform_buffers_one_per_image() {
    let buffers = create_uniform_buffers(3);
    assert_eq!(buffers.len(), 3);
    for b in buffers.iter() {
        assert_eq!(b.size, UBO_SIZE);
        assert_eq!(b.usage, 0x10);
        assert_eq!(b.memory_properties, 0x6);
    }
    assert_eq!(UBO_SIZE, 196);
}

#[test]
fn view_matrix_is_the_fixed_camera() {
    let v = UniformBufferObject::view_matrix();
    assert_eq!(v.m00, FX_ONE);
    assert_eq!(v.m11, FX_ONE);
    assert_eq!(v.m22, FX_ONE);
    assert_eq!(v.m33, FX_ONE);
    assert_eq!(v.m23, -3 * FX_ONE);
    assert_eq!(v.m01 | v.m02 | v.m03 | v.m10 | v.m12 | v.m13 | v.m20 | v.m21, 0);
}

#[test]
fn model_matrix_centers_and_scales_the_box() {
    // A 2 x 1 x 1 box with its corner at the origin: the largest side is 2,
    // so everything scales by one half, and the center moves to the origin.
    let (lo, hi) = unit_box();
    let m = UniformBufferObject::model_matrix(lo, hi);
    let half = FX_ONE / 2;
    assert_eq!(m.m00, half);
    assert_eq!(m.m11, half);
    assert_eq!(m.m22, half);
    assert_eq!(m.m33, FX_ONE);
    assert_eq!(m.m03, -half);
    assert_eq!(m.m13, -half / 2);
    assert_eq!(m.m23, -half / 2);
}

#[test]
fn ubo_composes_model_with_normalization() {
    let mut core = test_core(2);
    core.reset_ubo();
    let proj = Matrix4::unit();
    let u = core.build_ubo(proj);
    assert_eq!(u.view, UniformBufferObject::view_matrix());
    assert_eq!(u.proj, proj);
    assert_eq!(u.texture_weight, 0);
    // model_matrix is the identity after a reset, so the composed model
    // transform is the normalization itself.
    let (lo, hi) = unit_box();
    assert_eq!(u.model, UniformBufferObject::model_matrix(lo, hi));
}

#[test]
fn texture_weight_clamps_to_unit_interval() {
    let mut core = test_core(2);
    assert_eq!(core.texture_weight, 0);
    core.apply_texture_weight_delta(FX_ONE / 4);
    assert_eq!(core.texture_weight, FX_ONE / 4);
    core.apply_texture_weight_delta(FX_ONE);
    assert_eq!(core.texture_weight, FX_ONE);
    core.apply_texture_weight_delta(-3 * FX_ONE);
    assert_eq!(core.texture_weight, 0);
}

#[test]
fn key_states_track_presses_and_cancel() {
    let mut keys = KeyStates::default();
    assert_eq!(keys.translation_steps(), (0, 0, 0));
    keys.set_pressed(MoveKey::Forward, true);
    keys.set_pressed(MoveKey::Left, true);
    assert_eq!(keys.translation_steps(), (1, 0, 1));
    keys.set_pressed(MoveKey::Right, true);
    keys.set_pressed(MoveKey::Backward, true);
    assert_eq!(keys.translation_steps(), (0, 0, 0));
    keys.set_pressed(MoveKey::Forward, false);
    keys.set_pressed(MoveKey::Up, true);
    assert_eq!(keys.translation_steps(), (0, -1, -1));
    keys.set_pressed(MoveKey::Up, false);
    keys.set_pressed(MoveKey::Down, true);
    assert_eq!(keys.translation_steps(), (0, 1, -1));
}

#[test]
fn file_kind_checks_go_by_extension() {
    assert!(check_if_obj("assets/models/cube.obj"));
    assert!(check_if_obj("cube.obj"));
    assert!(!check_if_obj("cube.OBJ"));
    assert!(!check_if_obj("archive.obj/readme"));
    assert!(!check_if_obj(".obj"));
    assert!(!check_if_obj("objects"));
    assert!(check_if_image("assets/images/tex.png"));
    assert!(check_if_image("photo.jpg"));
    assert!(!check_if_image("photo.jpeg"));
    assert!(!check_if_image("png"));
    assert!(check_if_obj("a.tar.obj"));
}

#[test]
fn extension_checks_agree_with_std_path_semantics() {
    let cases = [
        "a.obj", "dir/a.obj", ".obj", "a.", "a", "x.tar.obj", "weird.obj/readme",
        "dir.obj/x.png", "assets/images/t.jpg", "t.jpeg", "..obj", "a..obj",
    ];
    for p in cases {
        let ext = std::path::Path::new(p).extension();
        let is_obj = ext.map(|e| e == "obj").unwrap_or(false);
        let is_img = ext.map(|e| e == "jpg" || e == "png").unwrap_or(false);
        assert_eq!(check_if_obj(p), is_obj, "obj check disagrees on {p}");
        assert_eq!(check_if_image(p), is_img, "image check disagrees on {p}");
    }
}

#[test]
fn vertex_layout_matches_the_shader_interface() {
    let binding = Vertex::get_binding_description();
    assert_eq!(binding.binding, 0);
    assert_eq!(binding.stride, 32);
    assert!(!binding.per_instance);
    let attrs = Vertex::get_attribute_descriptions();
    assert_eq!(attrs.len(), 3);
    assert_eq!((attrs[0].location, attrs[0].offset), (0, 0));
    assert_eq!((attrs[1].location, attrs[1].offset), (1, 12));
    assert_eq!((attrs[2].location, attrs[2].offset), (2, 24));
}
