use renderer::gpu::device::{
    Device, SurfaceInfo, COMPOSITE_ALPHA_OPAQUE, IMAGE_USAGE_COLOR_ATTACHMENT,
};
use renderer::gpu::types::{
    DeviceLimits, Extent2d, MemoryProperties, PhysicalProperties, SurfaceCapabilities,
    SurfaceFormat, EXTENT_UNDEFINED, PRESENT_MODE_FIFO, PRESENT_MODE_MAILBOX, SHARING_EXCLUSIVE,
    TRANSFORM_IDENTITY,
};

fn device_with(caps: SurfaceCapabilities, window: Extent2d, modes: Vec<u32>) -> Device {
    Device::new(
        0,
        0,
        7,
        8,
        2,
        9,
        10,
        window,
        SurfaceInfo {
            caps,
            formats: vec![
                SurfaceFormat { format: 44, color_space: 0 },
                SurfaceFormat { format: 50, color_space: 1 },
            ],
            present_modes: modes,
        },
        MemoryProperties { memory_types: vec![] },
        PhysicalProperties {
            limits: DeviceLimits {
                min_uniform_buffer_offset_alignment: 64,
                min_storage_buffer_offset_alignment: 32,
                min_texel_buffer_offset_alignment: 16,
            },
        },
    )
}

fn caps(min: u32, max: u32, extent: Extent2d) -> SurfaceCapabilities {
    SurfaceCapabilities {
        min_image_count: min,
        max_image_count: max,
        current_extent: extent,
        supported_transforms: TRANSFORM_IDENTITY,
        current_transform: TRANSFORM_IDENTITY,
    }
}

#[test]
fn desired_image_count_is_min_plus_one_when_unbounded() {
    let d = device_with(
        caps(2, 0, Extent2d { width: 100, height: 100 }),
        Extent2d { width: 800, height: 600 },
        vec![],
    );
    assert_eq!(d.desired_image_count(), 3);
}

#[test]
fn desired_image_count_clamps_to_max() {
    let d = device_with(
        caps(3, 3, Extent2d { width: 100, height: 100 }),
        Extent2d { width: 800, height: 600 },
        vec![],
    );
    assert_eq!(d.desired_image_count(), 3);
}

#[test]
fn desired_image_count_under_bounded_max() {
    let d = device_with(
        caps(2, 8, Extent2d { width: 100, height: 100 }),
        Extent2d { width: 800, height: 600 },
        vec![],
    );
    assert_eq!(d.desired_image_count(), 3);
}

#[test]
fn surface_resolution_falls_back_to_window_on_sentinel() {
    let d = device_with(
        caps(2, 0, Extent2d { width: EXTENT_UNDEFINED, height: 77 }),
        Extent2d { width: 800, height: 600 },
        vec![],
    );
    let r = d.surface_resolution();
    assert_eq!(r.width, 800);
    assert_eq!(r.height, 600);
}

#[test]
fn surface_resolution_uses_reported_extent() {
    let d = device_with(
        caps(2, 0, Extent2d { width: 1024, height: 768 }),
        Extent2d { width: 800, height: 600 },
        vec![],
    );
    let r = d.surface_resolution();
    assert_eq!(r.width, 1024);
    assert_eq!(r.height, 768);
}

#[test]
fn pre_transform_prefers_identity() {
    let d = device_with(
        caps(2, 0, Extent2d { width: 10, height: 10 }),
        Extent2d { width: 800, height: 600 },
        vec![],
    );
    assert_eq!(d.pre_transform(), TRANSFORM_IDENTITY);
}

#[test]
fn pre_transform_falls_back_to_current() {
    let mut c = caps(2, 0, Extent2d { width: 10, height: 10 });
    c.supported_transforms = 0x4;
    c.current_transform = 0x4;
    let d = device_with(c, Extent2d { width: 800, height: 600 }, vec![]);
    assert_eq!(d.pre_transform(), 0x4);
}

#[test]
fn present_mode_prefers_mailbox() {
    let d = device_with(
        caps(2, 0, Extent2d { width: 10, height: 10 }),
        Extent2d { width: 800, height: 600 },
        vec![PRESENT_MODE_FIFO, PRESENT_MODE_MAILBOX],
    );
    assert_eq!(d.present_mode(), PRESENT_MODE_MAILBOX);
}

#[test]
fn present_mode_falls_back_to_fifo() {
    let d = device_with(
        caps(2, 0, Extent2d { width: 10, height: 10 }),
        Extent2d { width: 800, height: 600 },
        vec![PRESENT_MODE_FIFO, 0],
    );
    assert_eq!(d.present_mode(), PRESENT_MODE_FIFO);
}

#[test]
fn surface_format_takes_first_reported() {
    let d = device_with(
        caps(2, 0, Extent2d { width: 10, height: 10 }),
        Extent2d { width: 800, height: 600 },
        vec![],
    );
    let f = d.surface_format();
    assert_eq!(f.format, 44);
    assert_eq!(f.color_space, 0);
}

#[test]
fn swapchain_composes_every_decision() {
    let d = device_with(
        caps(2, 0, Extent2d { width: EXTENT_UNDEFINED, height: 0 }),
        Extent2d { width: 800, height: 600 },
        vec![PRESENT_MODE_MAILBOX],
    );
    let info = d.swapchain(123);
    assert_eq!(info.surface, 123);
    assert_eq!(info.min_image_count, 3);
    assert_eq!(info.image_format, 44);
    assert_eq!(info.image_color_space, 0);
    assert_eq!(info.image_extent, Extent2d { width: 800, height: 600 });
    assert_eq!(info.image_usage, IMAGE_USAGE_COLOR_ATTACHMENT);
    assert_eq!(info.sharing_mode, SHARING_EXCLUSIVE);
    assert_eq!(info.pre_transform, TRANSFORM_IDENTITY);
    assert_eq!(info.composite_alpha, COMPOSITE_ALPHA_OPAQUE);
    assert_eq!(info.present_mode, PRESENT_MODE_MAILBOX);
    assert!(info.clipped);
    assert_eq!(info.image_array_layers, 1);
}

#[test]
fn present_image_views_cover_each_image() {
    let d = device_with(
        caps(2, 0, Extent2d { width: 10, height: 10 }),
        Extent2d { width: 800, height: 600 },
        vec![],
    );
    let views = d.present_image_views(&vec![31, 32, 33]);
    assert_eq!(views.len(), 3);
    for (k, v) in views.iter().enumerate() {
        assert_eq!(v.image, 31 + k as u64);
        assert_eq!(v.format, 44);
    }
}

#[test]
fn present_mode_with_no_modes_reported() {
    let d = device_with(
        caps(2, 0, Extent2d { width: 10, height: 10 }),
        Extent2d { width: 800, height: 600 },
        vec![],
    );
    assert_eq!(d.present_mode(), PRESENT_MODE_FIFO);
}

#[test]
fn capability_getters_hand_back_the_snapshot() {
    let c = caps(2, 5, Extent2d { width: 10, height: 20 });
    let d = device_with(c, Extent2d { width: 800, height: 600 }, vec![]);
    assert_eq!(d.surface_capabilities(), c);
    assert_eq!(d.present_modes(), Vec::<u32>::new());
    assert_eq!(d.memory_properties().memory_types.len(), 0);
    assert_eq!(
        d.physical_device_properties().limits.min_uniform_buffer_offset_alignment,
        64
    );
}
