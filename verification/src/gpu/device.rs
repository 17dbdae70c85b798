//! The logical device and its capability-driven decisions: surface format,
//! swapchain image count, resolution, transform and present mode, composed
//! into one swapchain creation request.
use vstd::prelude::*;
use crate::gpu::types::{
    ComponentMapping, Extent2d, ImageSubresourceRange, ImageViewCreateInfo, MemoryProperties,
    PhysicalProperties, SurfaceCapabilities, SurfaceFormat, EXTENT_UNDEFINED, PRESENT_MODE_FIFO,
    PRESENT_MODE_MAILBOX, TRANSFORM_IDENTITY,
};

verus! {

/// Image usage bit for swapchain images: they are rendered to as colour
/// attachments.
pub const IMAGE_USAGE_COLOR_ATTACHMENT: u32 = 0x10;

/// The opaque composite-alpha mode the swapchain is created with.
pub const COMPOSITE_ALPHA_OPAQUE: u32 = 0x1;

/// Everything the presentation engine is told when the swapchain is
/// (re)built. The unverified shell passes these fields to the native call
/// unchanged.
#[derive(Clone, Copy, Debug, PartialEq, Eq, Structural)]
pub struct SwapchainCreateInfo {
    pub surface: u64,
    pub min_image_count: u32,
    pub image_color_space: u32,
    pub image_format: u32,
    pub image_extent: Extent2d,
    pub image_usage: u32,
    pub sharing_mode: u32,
    pub pre_transform: u32,
    pub composite_alpha: u32,
    pub present_mode: u32,
    pub clipped: bool,
    pub image_array_layers: u32,
}

/// What the adapter currently reports about the surface. The shell queries
/// these live and refreshes them whenever the swapchain is rebuilt, so the
/// decisions below always work on a fresh report.
#[derive(Clone, Debug)]
pub struct SurfaceInfo {
    pub caps: SurfaceCapabilities,
    pub formats: Vec<SurfaceFormat>,
    pub present_modes: Vec<u32>,
}

/// A logical device on one chosen adapter and queue family, bound to the
/// surface it presents to. Native handles are opaque `u64` values issued by
/// the shell; `surface_id` and `instance_id` are registry keys of the
/// parents this device must not outlive.
#[derive(Clone, Debug)]
pub struct Device {
    pub surface_id: usize,
    pub instance_id: usize,
    pub pdevice: u64,
    pub device: u64,
    pub queue_family_idx: u32,
    pub queue: u64,
    pub command_pool: u64,
    pub window_extent: Extent2d,
    pub surface_info: SurfaceInfo,
    pub memory: MemoryProperties,
    pub physical_props: PhysicalProperties,
}

/// The number of swapchain images asked for: one more than the reported
/// minimum, clamped to the maximum when the maximum is bounded.
pub open spec fn spec_desired_image_count(caps: SurfaceCapabilities) -> int {
    if caps.max_image_count > 0 && caps.min_image_count + 1 > caps.max_image_count {
        caps.max_image_count as int
    } else {
        caps.min_image_count + 1
    }
}

/// The extent the swapchain is built at: the surface's reported extent,
/// unless the report is the "undefined" sentinel, in which case the
/// window's own logical size decides.
pub open spec fn spec_surface_resolution(caps: SurfaceCapabilities, window: Extent2d) -> Extent2d {
    if caps.current_extent.width == EXTENT_UNDEFINED {
        window
    } else {
        caps.current_extent
    }
}

/// The transform the swapchain is created with: identity when the adapter
/// supports it, else whatever the surface currently uses.
pub open spec fn spec_pre_transform(caps: SurfaceCapabilities) -> u32 {
    if caps.supported_transforms & TRANSFORM_IDENTITY != 0 {
        TRANSFORM_IDENTITY
    } else {
        caps.current_transform
    }
}

/// The present mode chosen from what the adapter offers: low-latency
/// mailbox when available, else the universally supported vsync'd fifo.
pub open spec fn spec_present_mode(modes: Seq<u32>) -> u32 {
    if modes.contains(PRESENT_MODE_MAILBOX) {
        PRESENT_MODE_MAILBOX
    } else {
        PRESENT_MODE_FIFO
    }
}

impl Device {
    /// A device report fit to make decisions over: at least one surface
    /// format, and image-count bounds no real adapter violates.
    pub open spec fn wf(self) -> bool {
        &&& self.surface_info.formats.len() > 0
        &&& self.surface_info.caps.wf()
    }

    pub fn new(
        surface_id: usize,
        instance_id: usize,
        pdevice: u64,
        device: u64,
        queue_family_idx: u32,
        queue: u64,
        command_pool: u64,
        window_extent: Extent2d,
        surface_info: SurfaceInfo,
        memory: MemoryProperties,
        physical_props: PhysicalProperties,
    ) -> (r: Device)
        ensures
            r.surface_id == surface_id,
            r.instance_id == instance_id,
            r.pdevice == pdevice,
            r.device == device,
            r.queue_family_idx == queue_family_idx,
            r.queue == queue,
            r.command_pool == command_pool,
            r.window_extent == window_extent,
            r.surface_info == surface_info,
            r.memory == memory,
            r.physical_props == physical_props,
    {
        Device {
            surface_id,
            instance_id,
            pdevice,
            device,
            queue_family_idx,
            queue,
            command_pool,
            window_extent,
            surface_info,
            memory,
            physical_props,
        }
    }

    /// The first format the adapter reports; the design accepts any and
    /// does not rank.
    pub fn surface_format(&self) -> (r: SurfaceFormat)
        requires
            self.surface_info.formats.len() > 0,
        ensures
            r == self.surface_info.formats[0],
    {
        self.surface_info.formats[0]
    }

    pub fn surface_capabilities(&self) -> (r: SurfaceCapabilities)
        ensures
            r == self.surface_info.caps,
    {
        self.surface_info.caps
    }

    pub fn desired_image_count(&self) -> (r: u32)
        requires
            self.surface_info.caps.wf(),
        ensures
            r == spec_desired_image_count(self.surface_info.caps),
    {
        let caps = self.surface_capabilities();
        let mut desired_image_count = caps.min_image_count + 1;
        if caps.max_image_count > 0 && desired_image_count > caps.max_image_count {
            desired_image_count = caps.max_image_count;
        }
        desired_image_count
    }

    pub fn surface_resolution(&self) -> (r: Extent2d)
        ensures
            r == spec_surface_resolution(self.surface_info.caps, self.window_extent),
    {
        let caps = self.surface_capabilities();
        if caps.current_extent.width == EXTENT_UNDEFINED {
            Extent2d { width: self.window_extent.width, height: self.window_extent.height }
        } else {
            caps.current_extent
        }
    }

    pub fn pre_transform(&self) -> (r: u32)
        ensures
            r == spec_pre_transform(self.surface_info.caps),
    {
        let caps = self.surface_capabilities();
        if caps.supported_transforms & TRANSFORM_IDENTITY != 0 {
            TRANSFORM_IDENTITY
        } else {
            caps.current_transform
        }
    }

    pub fn present_modes(&self) -> (r: Vec<u32>)
        ensures
            r@ == self.surface_info.present_modes@,
    {
        let r = self.surface_info.present_modes.clone();
        proof {
            assert(r@ =~= self.surface_info.present_modes@);
        }
        r
    }

    pub fn present_mode(&self) -> (r: u32)
        ensures
            r == spec_present_mode(self.surface_info.present_modes@),
    {
        let modes = &self.surface_info.present_modes;
        let n = modes.len();
        let mut i: usize = 0;
        while i < n
            invariant
                modes@ == self.surface_info.present_modes@,
                n == modes.len(),
                i <= n,
                forall|k: int| 0 <= k < i ==> modes@[k] != PRESENT_MODE_MAILBOX,
            decreases n - i,
        {
            let m: u32 = modes[i];
            if m == PRESENT_MODE_MAILBOX {
                proof {
                    assert(self.surface_info.present_modes@[i as int] == PRESENT_MODE_MAILBOX);
                }
                return PRESENT_MODE_MAILBOX;
            }
            i += 1;
        }
        assert(!self.surface_info.present_modes@.contains(PRESENT_MODE_MAILBOX));
        PRESENT_MODE_FIFO
    }

    /// Composes every decision above into the one swapchain creation
    /// request; the shell may issue it again after the surface is
    /// invalidated, e.g. by a resize.
    pub fn swapchain(&self, surface: u64) -> (r: SwapchainCreateInfo)
        requires
            self.wf(),
        ensures
            r.surface == surface,
            r.min_image_count == spec_desired_image_count(self.surface_info.caps),
            r.image_color_space == self.surface_info.formats[0].color_space,
            r.image_format == self.surface_info.formats[0].format,
            r.image_extent == spec_surface_resolution(self.surface_info.caps, self.window_extent),
            r.image_usage == IMAGE_USAGE_COLOR_ATTACHMENT,
            r.sharing_mode == crate::gpu::types::SHARING_EXCLUSIVE,
            r.pre_transform == spec_pre_transform(self.surface_info.caps),
            r.composite_alpha == COMPOSITE_ALPHA_OPAQUE,
            r.present_mode == spec_present_mode(self.surface_info.present_modes@),
            r.clipped,
            r.image_array_layers == 1,
    {
        let surface_format = self.surface_format();
        SwapchainCreateInfo {
            surface,
            min_image_count: self.desired_image_count(),
            image_color_space: surface_format.color_space,
            image_format: surface_format.format,
            image_extent: self.surface_resolution(),
            image_usage: IMAGE_USAGE_COLOR_ATTACHMENT,
            sharing_mode: crate::gpu::types::SHARING_EXCLUSIVE,
            pre_transform: self.pre_transform(),
            composite_alpha: COMPOSITE_ALPHA_OPAQUE,
            present_mode: self.present_mode(),
            clipped: true,
            image_array_layers: 1,
        }
    }

    /// The create request for one presentable image's view: a plain 2D
    /// colour view in the surface's own format, channels mapped
    /// one-to-one.
    pub open spec fn spec_present_image_view(self, image: u64) -> ImageViewCreateInfo {
        ImageViewCreateInfo {
            view_type: crate::gpu::types::VIEW_TYPE_2D,
            format: self.surface_info.formats[0].format,
            components: ComponentMapping {
                r: crate::gpu::types::SWIZZLE_R,
                g: crate::gpu::types::SWIZZLE_G,
                b: crate::gpu::types::SWIZZLE_B,
                a: crate::gpu::types::SWIZZLE_A,
            },
            subresource_range: ImageSubresourceRange {
                aspect_mask: crate::gpu::types::ASPECT_COLOR,
                base_mip_level: 0,
                level_count: 1,
                base_array_layer: 0,
                layer_count: 1,
            },
            image,
        }
    }

    /// One view request per swapchain image the shell handed back, in
    /// swapchain order.
    pub fn present_image_views(&self, images: &Vec<u64>) -> (r: Vec<ImageViewCreateInfo>)
        requires
            self.surface_info.formats.len() > 0,
        ensures
            r@.len() == images@.len(),
            forall|k: int| 0 <= k < r@.len() ==> r@[k] == self.spec_present_image_view(
                images@[k],
            ),
    {
        let surface_format = self.surface_format();
        let mut r: Vec<ImageViewCreateInfo> = Vec::new();
        let n = images.len();
        let mut i: usize = 0;
        while i < n
            invariant
                n == images@.len(),
                i <= n,
                surface_format == self.surface_info.formats[0],
                self.surface_info.formats.len() > 0,
                r@.len() == i,
                forall|k: int| 0 <= k < i ==> r@[k] == self.spec_present_image_view(images@[k]),
            decreases n - i,
        {
            r.push(
                ImageViewCreateInfo {
                    view_type: crate::gpu::types::VIEW_TYPE_2D,
                    format: surface_format.format,
                    components: ComponentMapping {
                        r: crate::gpu::types::SWIZZLE_R,
                        g: crate::gpu::types::SWIZZLE_G,
                        b: crate::gpu::types::SWIZZLE_B,
                        a: crate::gpu::types::SWIZZLE_A,
                    },
                    subresource_range: ImageSubresourceRange {
                        aspect_mask: crate::gpu::types::ASPECT_COLOR,
                        base_mip_level: 0,
                        level_count: 1,
                        base_array_layer: 0,
                        layer_count: 1,
                    },
                    image: images[i],
                },
            );
            i += 1;
        }
        r
    }

    pub fn memory_properties(&self) -> (r: MemoryProperties)
        ensures
            r.memory_types@ == self.memory.memory_types@,
    {
        let types = self.memory.memory_types.clone();
        proof {
            assert(types@ =~= self.memory.memory_types@);
        }
        MemoryProperties { memory_types: types }
    }

    pub fn physical_device_properties(&self) -> (r: PhysicalProperties)
        ensures
            r == self.physical_props,
    {
        self.physical_props
    }
}

/// The image count the device asks for always lies between the reported
/// minimum and the reported maximum when the maximum is bounded, and is
/// exactly one above the minimum when it is not.
pub proof fn lemma_desired_image_count_bounds(caps: SurfaceCapabilities)
    requires
        caps.wf(),
    ensures
        caps.max_image_count > 0 ==> caps.min_image_count <= spec_desired_image_count(caps)
            <= caps.max_image_count,
        caps.max_image_count == 0 ==> spec_desired_image_count(caps) == caps.min_image_count + 1,
{
}

} // verus!
