//! Plain-value models of the native API's data: extents, surface
//! capabilities and formats, memory descriptions, and the numeric constants
//! the renderer's decisions are written over. Native object handles are
//! carried as `u64` values and never interpreted here.
use vstd::prelude::*;

verus! {

/// Width and height of a drawable area, in pixels.
#[derive(Clone, Copy, Debug, PartialEq, Eq, Structural)]
pub struct Extent2d {
    pub width: u32,
    pub height: u32,
}

/// A surface format paired with the colour space it is presented in.
#[derive(Clone, Copy, Debug, PartialEq, Eq, Structural)]
pub struct SurfaceFormat {
    pub format: u32,
    pub color_space: u32,
}

/// What the adapter reports about presenting to a surface.
#[derive(Clone, Copy, Debug, PartialEq, Eq, Structural)]
pub struct SurfaceCapabilities {
    pub min_image_count: u32,
    pub max_image_count: u32,
    pub current_extent: Extent2d,
    pub supported_transforms: u32,
    pub current_transform: u32,
}

impl SurfaceCapabilities {
    /// What every real adapter guarantees of its own report: a zero
    /// `max_image_count` means "no upper bound", a nonzero one is never
    /// below the minimum, and the minimum leaves room for one spare image.
    pub open spec fn wf(self) -> bool {
        &&& self.min_image_count < 0xffff_ffffu32
        &&& (self.max_image_count == 0 || self.min_image_count <= self.max_image_count)
    }
}

/// The sentinel width reported in `current_extent` when the surface size is
/// undefined and the window's own size decides.
pub const EXTENT_UNDEFINED: u32 = 0xffff_ffff;

/// Presentation engine modes, by their native numeric values.
pub const PRESENT_MODE_MAILBOX: u32 = 1;
pub const PRESENT_MODE_FIFO: u32 = 2;

/// Surface transform bits; identity is preferred when supported.
pub const TRANSFORM_IDENTITY: u32 = 0x1;

/// One memory type an adapter exposes.
#[derive(Clone, Copy, Debug, PartialEq, Eq, Structural)]
pub struct MemoryType {
    pub property_flags: u32,
}

/// The adapter's memory types, in the order the adapter reports them.
#[derive(Clone, Debug)]
pub struct MemoryProperties {
    pub memory_types: Vec<MemoryType>,
}

/// What the device demands of the backing memory of a buffer or image.
#[derive(Clone, Copy, Debug, PartialEq, Eq, Structural)]
pub struct MemoryRequirements {
    pub size: u64,
    pub alignment: u64,
    pub memory_type_bits: u32,
}

/// Memory property bits.
pub const MEMORY_DEVICE_LOCAL: u32 = 0x1;
pub const MEMORY_HOST_VISIBLE: u32 = 0x2;
pub const MEMORY_HOST_COHERENT: u32 = 0x4;

/// The device limits the buffer allocator reads.
#[derive(Clone, Copy, Debug, PartialEq, Eq, Structural)]
pub struct DeviceLimits {
    pub min_uniform_buffer_offset_alignment: u64,
    pub min_storage_buffer_offset_alignment: u64,
    pub min_texel_buffer_offset_alignment: u64,
}

/// The slice of the adapter's static properties this crate reads.
#[derive(Clone, Copy, Debug, PartialEq, Eq, Structural)]
pub struct PhysicalProperties {
    pub limits: DeviceLimits,
}

/// Buffer usage bits.
pub const USAGE_UNIFORM_TEXEL_BUFFER: u32 = 0x4;
pub const USAGE_UNIFORM_BUFFER: u32 = 0x10;
pub const USAGE_STORAGE_BUFFER: u32 = 0x20;
pub const USAGE_INDEX_BUFFER: u32 = 0x40;
pub const USAGE_VERTEX_BUFFER: u32 = 0x80;

/// Descriptor types, by their native numeric values.
pub const DESCRIPTOR_UNIFORM_BUFFER: u32 = 6;
pub const DESCRIPTOR_STORAGE_BUFFER: u32 = 7;
pub const DESCRIPTOR_UNIFORM_BUFFER_DYNAMIC: u32 = 8;

/// Shader stage bits.
pub const STAGE_VERTEX: u32 = 0x1;
pub const STAGE_FRAGMENT: u32 = 0x10;

/// Buffer sharing modes.
pub const SHARING_EXCLUSIVE: u32 = 0;

/// The descriptor range meaning "to the end of the buffer".
pub const WHOLE_SIZE: u64 = 0xffff_ffff_ffff_ffff;

/// Image formats and layouts, by their native numeric values.
pub const FORMAT_D16_UNORM: u32 = 124;

pub const IMAGE_LAYOUT_UNDEFINED: u32 = 0;
pub const IMAGE_LAYOUT_COLOR_ATTACHMENT_OPTIMAL: u32 = 2;
pub const IMAGE_LAYOUT_DEPTH_STENCIL_ATTACHMENT_OPTIMAL: u32 = 3;
pub const IMAGE_LAYOUT_PRESENT_SRC: u32 = 1000001002;

/// Image aspect bits.
pub const ASPECT_COLOR: u32 = 0x1;
pub const ASPECT_DEPTH: u32 = 0x2;

/// Two-dimensional image view.
pub const VIEW_TYPE_2D: u32 = 1;

/// Component swizzles naming each channel explicitly.
pub const SWIZZLE_R: u32 = 3;
pub const SWIZZLE_G: u32 = 4;
pub const SWIZZLE_B: u32 = 5;
pub const SWIZZLE_A: u32 = 6;

/// How an image view reads the image's channels.
#[derive(Clone, Copy, Debug, PartialEq, Eq, Structural)]
pub struct ComponentMapping {
    pub r: u32,
    pub g: u32,
    pub b: u32,
    pub a: u32,
}

/// Which mip levels and array layers of an image a view exposes.
#[derive(Clone, Copy, Debug, PartialEq, Eq, Structural)]
pub struct ImageSubresourceRange {
    pub aspect_mask: u32,
    pub base_mip_level: u32,
    pub level_count: u32,
    pub base_array_layer: u32,
    pub layer_count: u32,
}

/// What a native image view is created with.
#[derive(Clone, Copy, Debug, PartialEq, Eq, Structural)]
pub struct ImageViewCreateInfo {
    pub view_type: u32,
    pub format: u32,
    pub components: ComponentMapping,
    pub subresource_range: ImageSubresourceRange,
    pub image: u64,
}

/// One native destruction the shell must carry out, named by kind and
/// handle. Teardown functions return the exact ordered sequence of these;
/// executing them in any other order risks using a native handle after its
/// parent is gone.
#[derive(Clone, Copy, Debug, PartialEq, Eq, Structural)]
pub enum DestroyAction {
    Fence(u64),
    Semaphore(u64),
    Framebuffer(u64),
    RenderPass(u64),
    ImageView(u64),
    Image(u64),
    FreeMemory(u64),
    Swapchain(u64),
    BufferHandle(u64),
    DescriptorSetLayout(u64),
    DescriptorPool(u64),
    ShaderModule(u64),
    Pipeline(u64),
    PipelineLayout(u64),
    CommandPool(u64),
    Device(u64),
    Surface(u64),
    Instance(u64),
}

} // verus!
