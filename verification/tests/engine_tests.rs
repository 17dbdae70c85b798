use renderer::engine::{
    depth_image_info, depth_view_info, framebuffer_infos, render_pass_info, Engine, EngineBacking,
    FramePhase, LOAD_OP_CLEAR, STAGE_BOTTOM_OF_PIPE, STAGE_COLOR_ATTACHMENT_OUTPUT,
    STAGE_LATE_FRAGMENT_TESTS, SUBPASS_EXTERNAL,
};
use renderer::gpu::device::{Device, SurfaceInfo};
use renderer::gpu::types::{
    DestroyAction, DeviceLimits, Extent2d, MemoryProperties, PhysicalProperties,
    SurfaceCapabilities, SurfaceFormat, ASPECT_DEPTH, FORMAT_D16_UNORM,
    IMAGE_LAYOUT_DEPTH_STENCIL_ATTACHMENT_OPTIMAL, IMAGE_LAYOUT_PRESENT_SRC,
    IMAGE_LAYOUT_UNDEFINED, TRANSFORM_IDENTITY,
};
use renderer::gpuv2::push_constants::Ranges;
use renderer::gpuv2::shaders::{Stage, Stages};
use renderer::gpuv2::Cleanup;

fn test_device() -> Device {
    Device::new(
        3,
        4,
        7,
        8,
        0,
        9,
        10,
        Extent2d { width: 800, height: 600 },
        SurfaceInfo {
            caps: SurfaceCapabilities {
                min_image_count: 2,
                max_image_count: 0,
                current_extent: Extent2d { width: 800, height: 600 },
                supported_transforms: TRANSFORM_IDENTITY,
                current_transform: TRANSFORM_IDENTITY,
            },
            formats: vec![SurfaceFormat { format: 44, color_space: 0 }],
            present_modes: vec![2],
        },
        MemoryProperties { memory_types: vec![] },
        PhysicalProperties {
            limits: DeviceLimits {
                min_uniform_buffer_offset_alignment: 64,
                min_storage_buffer_offset_alignment: 64,
                min_texel_buffer_offset_alignment: 64,
            },
        },
    )
}

fn test_backing() -> EngineBacking {
    EngineBacking {
        swapchain: 50,
        present_image_views: vec![61, 62],
        depth_image: 70,
        depth_image_view: 71,
        depth_image_memory: 72,
        render_pass: 80,
        framebuffers: vec![91, 92],
        setup_fence: 95,
    }
}

#[test]
fn render_pass_clears_and_presents_colour_and_keeps_depth() {
    let info = render_pass_info(SurfaceFormat { format: 44, color_space: 0 });
    assert_eq!(info.attachments.len(), 2);
    assert_eq!(info.attachments[0].format, 44);
    assert_eq!(info.attachments[0].load_op, LOAD_OP_CLEAR);
    assert_eq!(info.attachments[0].final_layout, IMAGE_LAYOUT_PRESENT_SRC);
    assert_eq!(info.attachments[1].format, FORMAT_D16_UNORM);
    assert_eq!(
        info.attachments[1].final_layout,
        IMAGE_LAYOUT_DEPTH_STENCIL_ATTACHMENT_OPTIMAL
    );
    assert_eq!(info.color_attachment_ref.attachment, 0);
    assert_eq!(info.depth_attachment_ref.attachment, 1);
    assert_eq!(info.dependency.src_subpass, SUBPASS_EXTERNAL);
    assert_eq!(info.dependency.src_stage_mask, STAGE_COLOR_ATTACHMENT_OUTPUT);
}

#[test]
fn depth_image_matches_the_surface_resolution() {
    let info = depth_image_info(Extent2d { width: 800, height: 600 });
    assert_eq!(info.format, FORMAT_D16_UNORM);
    assert_eq!(info.extent, Extent2d { width: 800, height: 600 });
    assert_eq!(info.mip_levels, 1);
    let view = depth_view_info(70);
    assert_eq!(view.image, 70);
    assert_eq!(view.subresource_range.aspect_mask, ASPECT_DEPTH);
}

#[test]
fn framebuffers_pair_each_view_with_the_depth_view() {
    let infos = framebuffer_infos(&vec![61, 62], 71, 80, Extent2d { width: 800, height: 600 });
    assert_eq!(infos.len(), 2);
    assert_eq!(infos[0].attachments, vec![61, 71]);
    assert_eq!(infos[1].attachments, vec![62, 71]);
    assert_eq!(infos[0].width, 800);
    assert_eq!(infos[0].height, 600);
}

#[test]
fn setup_transitions_the_depth_layout_once() {
    let mut e = Engine::new(0, &test_device(), test_backing());
    assert_eq!(e.depth_layout, IMAGE_LAYOUT_UNDEFINED);
    assert!(!e.setup_done);
    let barrier = e.depth_barrier();
    assert_eq!(barrier.image, 70);
    assert_eq!(barrier.old_layout, IMAGE_LAYOUT_UNDEFINED);
    assert_eq!(barrier.new_layout, IMAGE_LAYOUT_DEPTH_STENCIL_ATTACHMENT_OPTIMAL);
    assert_eq!(barrier.src_stage_mask, STAGE_BOTTOM_OF_PIPE);
    assert_eq!(barrier.dst_stage_mask, STAGE_LATE_FRAGMENT_TESTS);
    e.setup();
    assert_eq!(e.depth_layout, IMAGE_LAYOUT_DEPTH_STENCIL_ATTACHMENT_OPTIMAL);
    assert!(e.setup_done);
}

#[test]
fn frame_cycle_walks_idle_to_presented() {
    let mut e = Engine::new(0, &test_device(), test_backing());
    e.setup();
    e.wait_reset_fence();
    assert!(matches!(e.frame, FramePhase::Idle));
    let idx = e.present_idx(1);
    assert_eq!(idx, 1);
    e.record_command_buffer();
    assert!(matches!(e.frame, FramePhase::CommandsRecorded));
    e.submit();
    assert!(matches!(e.frame, FramePhase::Submitted));
    assert!(e.in_flight);
    let presented = e.present();
    assert_eq!(presented, 1);
    assert!(matches!(e.frame, FramePhase::Presented));
    e.wait_reset_fence();
    assert!(matches!(e.frame, FramePhase::Idle));
    assert!(!e.in_flight);
}

#[test]
fn engine_cleanup_is_strictly_ordered() {
    let e = Engine::new(0, &test_device(), test_backing());
    assert_eq!(
        e.cleanup(),
        vec![
            DestroyAction::Fence(95),
            DestroyAction::Framebuffer(91),
            DestroyAction::Framebuffer(92),
            DestroyAction::RenderPass(80),
            DestroyAction::FreeMemory(72),
            DestroyAction::ImageView(71),
            DestroyAction::Image(70),
            DestroyAction::ImageView(61),
            DestroyAction::ImageView(62),
            DestroyAction::Swapchain(50),
        ]
    );
}

#[test]
fn shader_stages_keep_order_and_modules() {
    let stages = Stages::new(&vec![Stage::new(0x1, 301), Stage::new(0x10, 302)]);
    let built = stages.build();
    assert_eq!(built.len(), 2);
    assert_eq!(built[0].module, 301);
    assert_eq!(built[0].stage, 0x1);
    assert_eq!(built[1].module, 302);
    assert_eq!(
        stages.cleanup(),
        vec![DestroyAction::ShaderModule(301), DestroyAction::ShaderModule(302)]
    );
    assert_eq!(Stage::new(0x1, 301).cleanup(), vec![DestroyAction::ShaderModule(301)]);
}

#[test]
fn push_constant_ranges_size_by_type() {
    let ranges = Ranges::new().add::<u32>(0, 0x11);
    let built = ranges.build();
    assert_eq!(built.len(), 1);
    assert_eq!(built[0].offset, 0);
    assert_eq!(built[0].stage_flags, 0x11);
    assert_eq!(built[0].size, 4);
}
