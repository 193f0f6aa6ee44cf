use scop_core::barrier::{transition_masks, BarrierMasks};
use scop_core::descriptor::{descriptor_pool_spec, descriptor_set_layout_bindings, DescriptorType};
use scop_core::memory::{find_memory_type, staged_buffer_plan, MemoryType};
use scop_core::mipmap::{generate_mipmap_commands, MipCommand};
use scop_core::matrix::{fx_mul, FX_ONE};
use scop_core::pipeline::{geometry_upload_plan, pipeline_config, spv_words, SpvError};
use scop_core::frame::create_sync_objects;
use scop_core::swapchain::{
    choose_image_count, choose_present_mode, choose_sharing_mode, create_render_pass,
    find_depth_format, frame_gate, swapchain_extent, FrameAction, LoadOp, PresentMode,
    SharingMode, StoreOp,
};
use scop_core::texture::{
    mip_level_count, plan_cubemap_upload, plan_texture_upload, DecodedImage, TextureError,
    ViewType,
};
use scop_core::types::{Format, ImageLayout};

fn rgba(width: u32, height: u32, seed: u8) -> DecodedImage {
    let n = (4 * width * height) as usize;
    let mut pixels = Vec::with_capacity(n);
    for i in 0..n {
        pixels.push(seed.wrapping_add(i as u8));
    }
    DecodedImage { width, height, pixels }
}

#[test]
fn mip_levels_formula() {
    assert_eq!(mip_level_count(512, 512), 10);
    assert_eq!(mip_level_count(1, 1), 1);
    assert_eq!(mip_level_count(1024, 512), 10);
    assert_eq!(mip_level_count(800, 600), 10);
    assert_eq!(mip_level_count(16384, 16384), 15);
    assert_eq!(mip_level_count(3, 7), 2);
}

#[test]
fn texture_plan_round_trips_level_zero_bytes() {
    let img = rgba(2, 2, 7);
    let source = img.pixels.clone();
    let plan = plan_texture_upload(img, true).unwrap();
    assert_eq!(plan.width, 2);
    assert_eq!(plan.height, 2);
    assert_eq!(plan.mip_levels, 2);
    assert_eq!(plan.layer_count, 1);
    assert_eq!(plan.staging_data, source);
    assert_eq!(plan.staging.size, 16);
    assert_eq!(plan.layer_offsets, vec![0]);
    assert_eq!(plan.image.array_layers, 1);
    assert_eq!(plan.image.format, Format::Rgba8Unorm);
    assert!(!plan.image.cube_compatible);
    assert_eq!(plan.copy.buffer_offset, 0);
    assert_eq!(plan.copy.mip_level, 0);
    assert_eq!(plan.copy.layer_count, 1);
    assert_eq!(plan.copy.width, 2);
    assert_eq!(plan.copy.height, 2);
    assert_eq!(plan.pre_copy_transition.old_layout, ImageLayout::Undefined);
    assert_eq!(plan.pre_copy_transition.new_layout, ImageLayout::TransferDstOptimal);
    assert_eq!(plan.pre_copy_transition.level_count, 2);
    assert_eq!(plan.view.view_type, ViewType::D2);
    assert_eq!(plan.view.mip_levels, 2);
    assert_eq!(plan.sampler.max_lod, 2);
    assert!(plan.sampler.linear_filter);
    assert_eq!(plan.mip_commands.len(), 4);
}

#[test]
fn texture_plan_rejects_degenerate_images() {
    let bad_len = DecodedImage { width: 2, height: 2, pixels: vec![0u8; 15] };
    assert_eq!(plan_texture_upload(bad_len, true).unwrap_err(), TextureError::InvalidImage);
    let zero_w = DecodedImage { width: 0, height: 2, pixels: vec![] };
    assert_eq!(plan_texture_upload(zero_w, true).unwrap_err(), TextureError::InvalidImage);
    let too_big = DecodedImage { width: 16385, height: 1, pixels: vec![0u8; 4 * 16385] };
    assert_eq!(plan_texture_upload(too_big, true).unwrap_err(), TextureError::InvalidImage);
}

#[test]
fn uploads_need_the_linear_blit_probe() {
    // A valid image on a device that cannot blit with linear filtering is
    // refused before any resource exists.
    let img = rgba(2, 2, 1);
    assert_eq!(plan_texture_upload(img, false).unwrap_err(), TextureError::LinearBlitUnsupported);
    // A degenerate image is reported as such even then.
    let bad = DecodedImage { width: 2, height: 2, pixels: vec![0u8; 3] };
    assert_eq!(plan_texture_upload(bad, false).unwrap_err(), TextureError::InvalidImage);
    let faces: Vec<DecodedImage> = (0..6).map(|_| rgba(2, 2, 0)).collect();
    assert_eq!(plan_cubemap_upload(faces, false).unwrap_err(), TextureError::LinearBlitUnsupported);
}

#[test]
fn cubemap_plan_concatenates_faces_in_order() {
    let faces: Vec<DecodedImage> = (0..6).map(|i| rgba(1, 1, 10 * i as u8)).collect();
    let mut expected = Vec::new();
    for f in &faces {
        expected.extend_from_slice(&f.pixels);
    }
    let plan = plan_cubemap_upload(faces, true).unwrap();
    assert_eq!(plan.layer_count, 6);
    assert_eq!(plan.staging_data, expected);
    assert_eq!(plan.staging.size, 24);
    assert_eq!(plan.layer_offsets, vec![0, 4, 8, 12, 16, 20]);
    assert_eq!(plan.image.array_layers, 6);
    assert!(plan.image.cube_compatible);
    assert_eq!(plan.view.view_type, ViewType::Cube);
    assert_eq!(plan.view.layer_count, 6);
    assert_eq!(plan.copy.layer_count, 6);
}

#[test]
fn cubemap_512_has_ten_mip_levels() {
    let faces: Vec<DecodedImage> = (0..6).map(|_| rgba(512, 512, 0)).collect();
    let plan = plan_cubemap_upload(faces, true).unwrap();
    assert_eq!(plan.mip_levels, 10);
    assert_eq!(plan.mip_commands.len(), 3 * 9 + 1);
}

#[test]
fn cubemap_mismatched_faces_fail_before_any_plan() {
    let mut faces: Vec<DecodedImage> = (0..6).map(|_| rgba(4, 4, 0)).collect();
    faces[3] = rgba(4, 2, 0);
    assert_eq!(plan_cubemap_upload(faces, true).unwrap_err(), TextureError::FaceSizeMismatch);

    let mut faces: Vec<DecodedImage> = (0..6).map(|_| rgba(4, 4, 0)).collect();
    faces[5].pixels.pop();
    assert_eq!(plan_cubemap_upload(faces, true).unwrap_err(), TextureError::InvalidImage);
}

#[test]
fn mipmap_commands_halve_and_retire_each_level() {
    let cmds = generate_mipmap_commands(4, 2, 3, true);
    assert_eq!(cmds.len(), 7);
    match cmds[0] {
        MipCommand::Barrier(b) => {
            assert_eq!(b.base_mip_level, 0);
            assert_eq!(b.old_layout, ImageLayout::TransferDstOptimal);
            assert_eq!(b.new_layout, ImageLayout::TransferSrcOptimal);
        }
        _ => panic!("expected a barrier first"),
    }
    match cmds[1] {
        MipCommand::Blit { src_level, dst_level, src_width, src_height, dst_width, dst_height } => {
            assert_eq!((src_level, dst_level), (0, 1));
            assert_eq!((src_width, src_height), (4, 2));
            assert_eq!((dst_width, dst_height), (2, 1));
        }
        _ => panic!("expected a blit second"),
    }
    match cmds[2] {
        MipCommand::Barrier(b) => {
            assert_eq!(b.base_mip_level, 0);
            assert_eq!(b.old_layout, ImageLayout::TransferSrcOptimal);
            assert_eq!(b.new_layout, ImageLayout::ShaderReadOnlyOptimal);
        }
        _ => panic!("expected a retiring barrier third"),
    }
    match cmds[4] {
        MipCommand::Blit { src_width, src_height, dst_width, dst_height, .. } => {
            // The height is already 1 and stays clamped there.
            assert_eq!((src_width, src_height), (2, 1));
            assert_eq!((dst_width, dst_height), (1, 1));
        }
        _ => panic!("expected the second blit"),
    }
    match cmds[6] {
        MipCommand::Barrier(b) => {
            assert_eq!(b.base_mip_level, 2);
            assert_eq!(b.old_layout, ImageLayout::TransferDstOptimal);
            assert_eq!(b.new_layout, ImageLayout::ShaderReadOnlyOptimal);
        }
        _ => panic!("expected the final barrier"),
    }
}

#[test]
fn transition_table_matches_the_four_supported_pairs() {
    let m = transition_masks(ImageLayout::Undefined, ImageLayout::TransferDstOptimal).unwrap();
    assert_eq!(
        m,
        BarrierMasks { src_access: 0, dst_access: 0x1000, src_stage: 0x1, dst_stage: 0x1000 }
    );
    let m = transition_masks(ImageLayout::TransferDstOptimal, ImageLayout::ShaderReadOnlyOptimal)
        .unwrap();
    assert_eq!(
        m,
        BarrierMasks { src_access: 0x1000, dst_access: 0x20, src_stage: 0x1000, dst_stage: 0x80 }
    );
    let m = transition_masks(ImageLayout::Undefined, ImageLayout::DepthStencilAttachmentOptimal)
        .unwrap();
    assert_eq!(
        m,
        BarrierMasks { src_access: 0, dst_access: 0x600, src_stage: 0x1, dst_stage: 0x100 }
    );
    let m = transition_masks(ImageLayout::Undefined, ImageLayout::ColorAttachmentOptimal).unwrap();
    assert_eq!(
        m,
        BarrierMasks { src_access: 0, dst_access: 0x180, src_stage: 0x1, dst_stage: 0x400 }
    );
    assert!(transition_masks(ImageLayout::TransferSrcOptimal, ImageLayout::Undefined).is_none());
    assert!(
        transition_masks(ImageLayout::ShaderReadOnlyOptimal, ImageLayout::TransferDstOptimal)
            .is_none()
    );
}

#[test]
fn memory_type_selection_takes_first_match() {
    let types = vec![
        MemoryType { property_flags: 0x1 },
        MemoryType { property_flags: 0x6 },
        MemoryType { property_flags: 0x7 },
    ];
    // Bits allow indexes 1 and 2; both carry the requested flags.
    assert_eq!(find_memory_type(&types, 0b110, 0x6), Some(1));
    // Bits allow only index 0, which lacks the flags.
    assert_eq!(find_memory_type(&types, 0b001, 0x6), None);
    assert_eq!(find_memory_type(&types, 0b111, 0x1), Some(0));
    assert_eq!(find_memory_type(&types, 0, 0), None);
}

#[test]
fn staged_upload_plan_shapes() {
    let p = staged_buffer_plan(4096, 0x80);
    assert_eq!(p.staging.size, 4096);
    assert_eq!(p.staging.usage, 0x1);
    assert_eq!(p.staging.memory_properties, 0x6);
    assert_eq!(p.device.size, 4096);
    assert_eq!(p.device.usage, 0x2 | 0x80);
    assert_eq!(p.device.memory_properties, 0x1);
    assert_eq!(p.copy_size, 4096);
}

#[test]
fn fixed_point_product_truncates_toward_zero() {
    assert_eq!(fx_mul(3 * FX_ONE, FX_ONE / 2), 3 * FX_ONE / 2);
    assert_eq!(fx_mul(-3 * FX_ONE, FX_ONE / 2), -3 * FX_ONE / 2);
    assert_eq!(fx_mul(1, 1), 0);
    assert_eq!(fx_mul(-1, 1), 0);
    assert_eq!(fx_mul(FX_ONE, FX_ONE), FX_ONE);
}

#[test]
fn geometry_uploads_stage_vertices_and_exact_index_bytes() {
    let indices: Vec<u32> = vec![0, 1, 0x0102_0304, u32::MAX];
    let plan = geometry_upload_plan(10, &indices);
    assert_eq!(plan.vertex.staging.size, 320);
    assert_eq!(plan.vertex.device.usage, 0x2 | 0x80);
    assert_eq!(plan.vertex.copy_size, 320);
    assert_eq!(plan.index.staging.size, 16);
    assert_eq!(plan.index.device.usage, 0x2 | 0x40);
    assert_eq!(plan.index.device.memory_properties, 0x1);
    assert_eq!(plan.geometry.index_count, 4);
    assert_eq!(
        plan.index_data,
        vec![
            0, 0, 0, 0, 1, 0, 0, 0, 0x04, 0x03, 0x02, 0x01, 0xFF, 0xFF, 0xFF, 0xFF,
        ]
    );
}

#[test]
fn sharing_mode_is_concurrent_only_across_families() {
    assert_eq!(choose_sharing_mode(0, 0), SharingMode::Exclusive);
    assert_eq!(choose_sharing_mode(0, 1), SharingMode::Concurrent);
}

#[test]
fn sync_objects_two_slots_with_signalled_fences() {
    let specs = create_sync_objects();
    assert_eq!(specs.len(), 2);
    for s in specs.iter() {
        assert!(s.fence_starts_signaled);
    }
}

#[test]
fn image_count_prefers_min_plus_one_clamped_to_max() {
    assert_eq!(choose_image_count(2, 0), 3);
    assert_eq!(choose_image_count(2, 8), 3);
    assert_eq!(choose_image_count(3, 3), 3);
    assert_eq!(choose_image_count(1, 2), 2);
}

#[test]
fn swapchain_extent_honors_the_surface_then_clamps() {
    // The surface pinned an extent: it wins.
    assert_eq!(swapchain_extent((640, 480), (1, 1), (4096, 4096), (800, 600)), (640, 480));
    // The sentinel leaves the choice to the window size, clamped.
    let sentinel = (u32::MAX, u32::MAX);
    assert_eq!(swapchain_extent(sentinel, (100, 100), (1000, 1000), (800, 600)), (800, 600));
    assert_eq!(swapchain_extent(sentinel, (100, 100), (1000, 1000), (50, 2000)), (100, 1000));
}

#[test]
fn present_mode_prefers_mailbox() {
    assert_eq!(choose_present_mode(true), PresentMode::Mailbox);
    assert_eq!(choose_present_mode(false), PresentMode::Fifo);
}

#[test]
fn depth_format_probe_takes_highest_precision_first() {
    assert_eq!(find_depth_format(&vec![true, true, true]), Some(Format::D32Sfloat));
    assert_eq!(find_depth_format(&vec![false, true, true]), Some(Format::D32SfloatS8Uint));
    assert_eq!(find_depth_format(&vec![false, false, true]), Some(Format::D24UnormS8Uint));
    assert_eq!(find_depth_format(&vec![false, false, false]), None);
}

#[test]
fn frame_gate_state_machine() {
    assert_eq!(frame_gate(false, 800, 600), FrameAction::Draw);
    assert_eq!(frame_gate(false, 0, 0), FrameAction::Draw);
    assert_eq!(frame_gate(true, 800, 600), FrameAction::RecreateThenDraw);
    assert_eq!(frame_gate(true, 0, 600), FrameAction::Skip);
    assert_eq!(frame_gate(true, 800, 0), FrameAction::Skip);
}

#[test]
fn render_pass_has_msaa_color_depth_and_resolve() {
    let rp = create_render_pass(Format::Surface, 8, Format::D32Sfloat);
    assert_eq!(rp.attachments.len(), 3);
    assert_eq!(rp.attachments[0].sample_count, 8);
    assert_eq!(rp.attachments[0].load_op, LoadOp::Clear);
    assert_eq!(rp.attachments[0].store_op, StoreOp::Store);
    assert_eq!(rp.attachments[0].final_layout, ImageLayout::ColorAttachmentOptimal);
    assert_eq!(rp.attachments[1].format, Format::D32Sfloat);
    assert_eq!(rp.attachments[1].store_op, StoreOp::DontCare);
    assert_eq!(rp.attachments[1].final_layout, ImageLayout::DepthStencilAttachmentOptimal);
    assert_eq!(rp.attachments[2].sample_count, 1);
    assert_eq!(rp.attachments[2].final_layout, ImageLayout::PresentSrc);
    assert_eq!(rp.subpass.color_attachment, 0);
    assert_eq!(rp.subpass.depth_attachment, 1);
    assert_eq!(rp.subpass.resolve_attachment, 2);
    assert_eq!(rp.dependency.dst_access, 0x180);
}

#[test]
fn spv_decoding_checks_length_and_magic() {
    let good = vec![0x03u8, 0x02, 0x23, 0x07, 0xAA, 0xBB, 0xCC, 0xDD];
    let words = spv_words(&good).unwrap();
    assert_eq!(words, vec![0x0723_0203, 0xDDCC_BBAA]);
    assert_eq!(spv_words(&vec![]).unwrap_err(), SpvError::BadLength);
    assert_eq!(spv_words(&vec![0x03, 0x02, 0x23, 0x07, 0x00]).unwrap_err(), SpvError::BadLength);
    assert_eq!(spv_words(&vec![0x00, 0x00, 0x00, 0x00]).unwrap_err(), SpvError::BadMagic);
}

#[test]
fn pipeline_config_fixed_function_state() {
    let c = pipeline_config(800, 600, 0x2, 4);
    assert_eq!(c.viewport_width, 800);
    assert_eq!(c.viewport_height, 600);
    assert_eq!(c.cull_mode, 0x2);
    assert_eq!(c.sample_count, 4);
    assert!(c.triangle_list && !c.primitive_restart);
    assert!(c.depth_test && c.depth_write && c.depth_compare_less);
    assert!(!c.blend_enabled);
    assert_eq!(c.subpass, 0);
    assert_eq!(c.entry_point, "main");
}

#[test]
fn descriptor_layout_and_pool() {
    let bindings = descriptor_set_layout_bindings();
    assert_eq!(bindings.len(), 3);
    assert_eq!(bindings[0].binding, 0);
    assert_eq!(bindings[0].descriptor_type, DescriptorType::UniformBuffer);
    assert_eq!(bindings[0].stages, 0x1);
    assert_eq!(bindings[1].binding, 1);
    assert_eq!(bindings[1].descriptor_type, DescriptorType::CombinedImageSampler);
    assert_eq!(bindings[1].stages, 0x10);
    assert_eq!(bindings[2].binding, 2);
    assert_eq!(bindings[2].descriptor_type, DescriptorType::CombinedImageSampler);
    assert_eq!(bindings[2].stages, 0x10);

    let pool = descriptor_pool_spec(3);
    assert_eq!(pool.uniform_descriptors, 3);
    assert_eq!(pool.sampler_descriptors, 6);
    assert_eq!(pool.max_sets, 3);
}
