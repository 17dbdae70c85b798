//! The frame context built on one device: swapchain, present-image views,
//! depth buffer, render pass and framebuffers, the one-time setup
//! submission that puts the depth image into its working layout, the
//! per-frame synchronisation cycle, and the strictly ordered teardown plan.
use vstd::prelude::*;
use crate::gpu::types::{
    DestroyAction, Extent2d, ImageSubresourceRange, SurfaceFormat, ASPECT_DEPTH, FORMAT_D16_UNORM,
    IMAGE_LAYOUT_DEPTH_STENCIL_ATTACHMENT_OPTIMAL, IMAGE_LAYOUT_UNDEFINED, SHARING_EXCLUSIVE,
    VIEW_TYPE_2D,
};
use crate::gpuv2::Cleanup;

verus! {

/// Attachment load and store operations.
pub const LOAD_OP_CLEAR: u32 = 1;
pub const STORE_OP_STORE: u32 = 0;

/// One sample per pixel.
pub const SAMPLE_COUNT_1: u32 = 1;

/// Pipeline stage bits the render pass dependency and the setup barrier
/// name.
pub const STAGE_COLOR_ATTACHMENT_OUTPUT: u32 = 0x400;
pub const STAGE_LATE_FRAGMENT_TESTS: u32 = 0x100;
pub const STAGE_BOTTOM_OF_PIPE: u32 = 0x2000;

/// Access bits.
pub const ACCESS_COLOR_ATTACHMENT_READ: u32 = 0x80;
pub const ACCESS_COLOR_ATTACHMENT_WRITE: u32 = 0x100;
pub const ACCESS_DEPTH_STENCIL_ATTACHMENT_READ: u32 = 0x200;
pub const ACCESS_DEPTH_STENCIL_ATTACHMENT_WRITE: u32 = 0x400;

/// The implicit subpass outside the render pass.
pub const SUBPASS_EXTERNAL: u32 = 0xffff_ffff;

/// Optimal image tiling and the 2D image type.
pub const IMAGE_TILING_OPTIMAL: u32 = 0;
pub const IMAGE_TYPE_2D: u32 = 1;

/// Image usage bit for the depth buffer.
pub const IMAGE_USAGE_DEPTH_STENCIL_ATTACHMENT: u32 = 0x20;

/// One attachment of the render pass.
#[derive(Clone, Copy, Debug, PartialEq, Eq, Structural)]
pub struct AttachmentDescription {
    pub format: u32,
    pub samples: u32,
    pub load_op: u32,
    pub store_op: u32,
    pub initial_layout: u32,
    pub final_layout: u32,
}

/// A reference from the one subpass into the attachment list.
#[derive(Clone, Copy, Debug, PartialEq, Eq, Structural)]
pub struct AttachmentReference {
    pub attachment: u32,
    pub layout: u32,
}

/// The render pass's one external dependency.
#[derive(Clone, Copy, Debug, PartialEq, Eq, Structural)]
pub struct SubpassDependency {
    pub src_subpass: u32,
    pub src_stage_mask: u32,
    pub dst_access_mask: u32,
    pub dst_stage_mask: u32,
}

/// Everything the native render pass is created with: a colour attachment
/// in the surface's format presented at the end, and a depth attachment
/// kept in depth-stencil-optimal layout.
#[derive(Clone, Debug)]
pub struct RenderPassInfo {
    pub attachments: Vec<AttachmentDescription>,
    pub color_attachment_ref: AttachmentReference,
    pub depth_attachment_ref: AttachmentReference,
    pub dependency: SubpassDependency,
}

/// What the depth image is created with.
#[derive(Clone, Copy, Debug, PartialEq, Eq, Structural)]
pub struct ImageCreateInfo {
    pub image_type: u32,
    pub format: u32,
    pub extent: Extent2d,
    pub mip_levels: u32,
    pub array_layers: u32,
    pub samples: u32,
    pub tiling: u32,
    pub usage: u32,
    pub sharing_mode: u32,
}

/// What one framebuffer is created with: the presentable view first, the
/// shared depth view second, at the surface's resolution.
#[derive(Clone, Debug)]
pub struct FramebufferInfo {
    pub render_pass: u64,
    pub attachments: Vec<u64>,
    pub width: u32,
    pub height: u32,
    pub layers: u32,
}

/// The one-time layout transition of the depth image, and the stages it
/// is ordered between.
#[derive(Clone, Copy, Debug, PartialEq, Eq, Structural)]
pub struct ImageMemoryBarrier {
    pub image: u64,
    pub src_stage_mask: u32,
    pub dst_stage_mask: u32,
    pub dst_access_mask: u32,
    pub old_layout: u32,
    pub new_layout: u32,
    pub subresource_range: ImageSubresourceRange,
}

/// Where one frame stands in its cycle.
#[derive(Clone, Copy, Debug, PartialEq, Eq, Structural)]
pub enum FramePhase {
    Idle,
    CommandsRecorded,
    Submitted,
    Presented,
}

/// The native objects the shell created while building an engine.
#[derive(Clone, Debug)]
pub struct EngineBacking {
    pub swapchain: u64,
    pub present_image_views: Vec<u64>,
    pub depth_image: u64,
    pub depth_image_view: u64,
    pub depth_image_memory: u64,
    pub render_pass: u64,
    pub framebuffers: Vec<u64>,
    pub setup_fence: u64,
}

/// The render pass request for a surface format: colour attachment
/// cleared on load, stored, handed to the presentation engine; depth
/// attachment cleared on load and kept depth-stencil-optimal; one
/// dependency ordering colour output after the previous frame's.
pub fn render_pass_info(surface_format: SurfaceFormat) -> (r: RenderPassInfo)
    ensures
        r.attachments@.len() == 2,
        r.attachments@[0] == (AttachmentDescription {
            format: surface_format.format,
            samples: SAMPLE_COUNT_1,
            load_op: LOAD_OP_CLEAR,
            store_op: STORE_OP_STORE,
            initial_layout: IMAGE_LAYOUT_UNDEFINED,
            final_layout: crate::gpu::types::IMAGE_LAYOUT_PRESENT_SRC,
        }),
        r.attachments@[1] == (AttachmentDescription {
            format: FORMAT_D16_UNORM,
            samples: SAMPLE_COUNT_1,
            load_op: LOAD_OP_CLEAR,
            store_op: STORE_OP_STORE,
            initial_layout: IMAGE_LAYOUT_DEPTH_STENCIL_ATTACHMENT_OPTIMAL,
            final_layout: IMAGE_LAYOUT_DEPTH_STENCIL_ATTACHMENT_OPTIMAL,
        }),
        r.color_attachment_ref == (AttachmentReference {
            attachment: 0,
            layout: crate::gpu::types::IMAGE_LAYOUT_COLOR_ATTACHMENT_OPTIMAL,
        }),
        r.depth_attachment_ref == (AttachmentReference {
            attachment: 1,
            layout: IMAGE_LAYOUT_DEPTH_STENCIL_ATTACHMENT_OPTIMAL,
        }),
        r.dependency == (SubpassDependency {
            src_subpass: SUBPASS_EXTERNAL,
            src_stage_mask: STAGE_COLOR_ATTACHMENT_OUTPUT,
            dst_access_mask: ACCESS_COLOR_ATTACHMENT_READ | ACCESS_COLOR_ATTACHMENT_WRITE,
            dst_stage_mask: STAGE_COLOR_ATTACHMENT_OUTPUT,
        }),
{
    let mut attachments: Vec<AttachmentDescription> = Vec::new();
    attachments.push(
        AttachmentDescription {
            format: surface_format.format,
            samples: SAMPLE_COUNT_1,
            load_op: LOAD_OP_CLEAR,
            store_op: STORE_OP_STORE,
            initial_layout: IMAGE_LAYOUT_UNDEFINED,
            final_layout: crate::gpu::types::IMAGE_LAYOUT_PRESENT_SRC,
        },
    );
    attachments.push(
        AttachmentDescription {
            format: FORMAT_D16_UNORM,
            samples: SAMPLE_COUNT_1,
            load_op: LOAD_OP_CLEAR,
            store_op: STORE_OP_STORE,
            initial_layout: IMAGE_LAYOUT_DEPTH_STENCIL_ATTACHMENT_OPTIMAL,
            final_layout: IMAGE_LAYOUT_DEPTH_STENCIL_ATTACHMENT_OPTIMAL,
        },
    );
    RenderPassInfo {
        attachments,
        color_attachment_ref: AttachmentReference {
            attachment: 0,
            layout: crate::gpu::types::IMAGE_LAYOUT_COLOR_ATTACHMENT_OPTIMAL,
        },
        depth_attachment_ref: AttachmentReference {
            attachment: 1,
            layout: IMAGE_LAYOUT_DEPTH_STENCIL_ATTACHMENT_OPTIMAL,
        },
        dependency: SubpassDependency {
            src_subpass: SUBPASS_EXTERNAL,
            src_stage_mask: STAGE_COLOR_ATTACHMENT_OUTPUT,
            dst_access_mask: ACCESS_COLOR_ATTACHMENT_READ | ACCESS_COLOR_ATTACHMENT_WRITE,
            dst_stage_mask: STAGE_COLOR_ATTACHMENT_OUTPUT,
        },
    }
}

/// The depth image request for a surface resolution: a 2D, single-sample,
/// optimally tiled depth-stencil attachment in 16-bit depth format.
pub fn depth_image_info(resolution: Extent2d) -> (r: ImageCreateInfo)
    ensures
        r == (ImageCreateInfo {
            image_type: IMAGE_TYPE_2D,
            format: FORMAT_D16_UNORM,
            extent: resolution,
            mip_levels: 1,
            array_layers: 1,
            samples: SAMPLE_COUNT_1,
            tiling: IMAGE_TILING_OPTIMAL,
            usage: IMAGE_USAGE_DEPTH_STENCIL_ATTACHMENT,
            sharing_mode: SHARING_EXCLUSIVE,
        }),
{
    ImageCreateInfo {
        image_type: IMAGE_TYPE_2D,
        format: FORMAT_D16_UNORM,
        extent: resolution,
        mip_levels: 1,
        array_layers: 1,
        samples: SAMPLE_COUNT_1,
        tiling: IMAGE_TILING_OPTIMAL,
        usage: IMAGE_USAGE_DEPTH_STENCIL_ATTACHMENT,
        sharing_mode: SHARING_EXCLUSIVE,
    }
}

/// The view over the depth image: its depth aspect, one level, one layer.
pub fn depth_view_info(image: u64) -> (r: crate::gpu::types::ImageViewCreateInfo)
    ensures
        r.image == image,
        r.format == FORMAT_D16_UNORM,
        r.view_type == VIEW_TYPE_2D,
        r.subresource_range.aspect_mask == ASPECT_DEPTH,
        r.subresource_range.level_count == 1,
        r.subresource_range.layer_count == 1,
{
    crate::gpu::types::ImageViewCreateInfo {
        view_type: VIEW_TYPE_2D,
        format: FORMAT_D16_UNORM,
        components: crate::gpu::types::ComponentMapping { r: 0, g: 0, b: 0, a: 0 },
        subresource_range: ImageSubresourceRange {
            aspect_mask: ASPECT_DEPTH,
            base_mip_level: 0,
            level_count: 1,
            base_array_layer: 0,
            layer_count: 1,
        },
        image,
    }
}

/// A framebuffer request for one presentable view: that view first, the
/// shared depth view second, at the surface's resolution.
pub open spec fn fb_ok(
    fb: FramebufferInfo,
    view: u64,
    depth_image_view: u64,
    render_pass: u64,
    resolution: Extent2d,
) -> bool {
    &&& fb.render_pass == render_pass
    &&& fb.attachments@.len() == 2
    &&& fb.attachments@[0] == view
    &&& fb.attachments@[1] == depth_image_view
    &&& fb.width == resolution.width
    &&& fb.height == resolution.height
    &&& fb.layers == 1
}

/// One framebuffer request per presentable view: that view first, the
/// shared depth view second, sized to the surface resolution.
pub fn framebuffer_infos(
    present_image_views: &Vec<u64>,
    depth_image_view: u64,
    render_pass: u64,
    resolution: Extent2d,
) -> (r: Vec<FramebufferInfo>)
    ensures
        r@.len() == present_image_views@.len(),
        forall|k: int| 0 <= k < r@.len() ==> fb_ok(
            #[trigger] r@[k],
            present_image_views@[k],
            depth_image_view,
            render_pass,
            resolution,
        ),
{
    let mut r: Vec<FramebufferInfo> = Vec::new();
    let n = present_image_views.len();
    let mut i: usize = 0;
    while i < n
        invariant
            n == present_image_views@.len(),
            i <= n,
            r@.len() == i,
            forall|k: int| 0 <= k < i ==> fb_ok(
                #[trigger] r@[k],
                present_image_views@[k],
                depth_image_view,
                render_pass,
                resolution,
            ),
        decreases n - i,
    {
        let mut attachments: Vec<u64> = Vec::new();
        attachments.push(present_image_views[i]);
        attachments.push(depth_image_view);
        let fb = FramebufferInfo {
            render_pass,
            attachments,
            width: resolution.width,
            height: resolution.height,
            layers: 1,
        };
        proof {
            assert(fb_ok(fb, present_image_views@[i as int], depth_image_view, render_pass,
                resolution));
        }
        r.push(fb);
        i += 1;
    }
    r
}

/// One engine wraps exactly one device at a time: the swapchain and
/// everything built on it, plus the per-frame synchronisation state.
///
/// The sync model: `in_flight` is the per-frame fence (raised by a
/// submission, lowered by waiting it out), `acquired_image` is the index
/// the presentation engine handed out, whose image-available semaphore the
/// next submission must wait on; the render-complete semaphore that
/// submission signals is what presentation waits on. The phase transitions
/// encode exactly that ordering, so skipping a step is refused, not just
/// discouraged.
#[derive(Clone, Debug)]
pub struct Engine {
    pub device_id: usize,
    pub surface_id: usize,
    pub instance_id: usize,
    pub swapchain: u64,
    pub present_image_views: Vec<u64>,
    pub depth_image: u64,
    pub depth_image_view: u64,
    pub depth_image_memory: u64,
    pub render_pass: u64,
    pub framebuffers: Vec<u64>,
    pub setup_fence: u64,
    pub depth_layout: u32,
    pub setup_done: bool,
    pub frame: FramePhase,
    pub in_flight: bool,
    pub acquired_image: Option<u32>,
}

impl Engine {
    /// Wraps a device and takes ownership of the natives the shell built
    /// for it — one framebuffer per presentable view. The depth image
    /// starts in the undefined layout and the setup fence starts
    /// signalled, so `setup` can run exactly once before the first frame.
    pub fn new(device_id: usize, device: &crate::gpu::device::Device, backing: EngineBacking) -> (r:
        Engine)
        requires
            backing.framebuffers@.len() == backing.present_image_views@.len(),
        ensures
            r.device_id == device_id,
            r.surface_id == device.surface_id,
            r.instance_id == device.instance_id,
            r.swapchain == backing.swapchain,
            r.present_image_views@ == backing.present_image_views@,
            r.depth_image == backing.depth_image,
            r.depth_image_view == backing.depth_image_view,
            r.depth_image_memory == backing.depth_image_memory,
            r.render_pass == backing.render_pass,
            r.framebuffers@ == backing.framebuffers@,
            r.setup_fence == backing.setup_fence,
            r.depth_layout == IMAGE_LAYOUT_UNDEFINED,
            !r.setup_done,
            r.frame is Idle,
            !r.in_flight,
            r.acquired_image is None,
    {
        Engine {
            device_id,
            surface_id: device.surface_id,
            instance_id: device.instance_id,
            swapchain: backing.swapchain,
            present_image_views: backing.present_image_views,
            depth_image: backing.depth_image,
            depth_image_view: backing.depth_image_view,
            depth_image_memory: backing.depth_image_memory,
            render_pass: backing.render_pass,
            framebuffers: backing.framebuffers,
            setup_fence: backing.setup_fence,
            depth_layout: IMAGE_LAYOUT_UNDEFINED,
            setup_done: false,
            frame: FramePhase::Idle,
            in_flight: false,
            acquired_image: None,
        }
    }

    /// The barrier the setup submission records: the depth image from
    /// undefined to depth-attachment-optimal, ordered before the late
    /// fragment tests of the first frame.
    pub fn depth_barrier(&self) -> (r: ImageMemoryBarrier)
        ensures
            r == (ImageMemoryBarrier {
                image: self.depth_image,
                src_stage_mask: STAGE_BOTTOM_OF_PIPE,
                dst_stage_mask: STAGE_LATE_FRAGMENT_TESTS,
                dst_access_mask: ACCESS_DEPTH_STENCIL_ATTACHMENT_READ
                    | ACCESS_DEPTH_STENCIL_ATTACHMENT_WRITE,
                old_layout: IMAGE_LAYOUT_UNDEFINED,
                new_layout: IMAGE_LAYOUT_DEPTH_STENCIL_ATTACHMENT_OPTIMAL,
                subresource_range: ImageSubresourceRange {
                    aspect_mask: ASPECT_DEPTH,
                    base_mip_level: 0,
                    level_count: 1,
                    base_array_layer: 0,
                    layer_count: 1,
                },
            }),
    {
        ImageMemoryBarrier {
            image: self.depth_image,
            src_stage_mask: STAGE_BOTTOM_OF_PIPE,
            dst_stage_mask: STAGE_LATE_FRAGMENT_TESTS,
            dst_access_mask: ACCESS_DEPTH_STENCIL_ATTACHMENT_READ
                | ACCESS_DEPTH_STENCIL_ATTACHMENT_WRITE,
            old_layout: IMAGE_LAYOUT_UNDEFINED,
            new_layout: IMAGE_LAYOUT_DEPTH_STENCIL_ATTACHMENT_OPTIMAL,
            subresource_range: ImageSubresourceRange {
                aspect_mask: ASPECT_DEPTH,
                base_mip_level: 0,
                level_count: 1,
                base_array_layer: 0,
                layer_count: 1,
            },
        }
    }

    /// The one-time setup submission, gated by the dedicated fence that
    /// starts signalled: waits it out, resets it, and submits the
    /// `depth_barrier` transition with the fence raised again. Skipping
    /// this before the first frame leaves the depth image in an undefined
    /// layout, so rendering before `setup` is refused.
    pub fn setup(&mut self)
        requires
            !old(self).setup_done,
        ensures
            final(self).depth_layout == IMAGE_LAYOUT_DEPTH_STENCIL_ATTACHMENT_OPTIMAL,
            final(self).setup_done,
            *final(self) == (Engine {
                depth_layout: IMAGE_LAYOUT_DEPTH_STENCIL_ATTACHMENT_OPTIMAL,
                setup_done: true,
                ..*old(self)
            }),
    {
        self.depth_layout = IMAGE_LAYOUT_DEPTH_STENCIL_ATTACHMENT_OPTIMAL;
        self.setup_done = true;
    }

    /// One frame's fence wait: blocks (driver-side) until the previous
    /// submission against this frame is done, then resets the fence for
    /// reuse. Must come before the frame's command buffer is touched
    /// again.
    pub fn wait_reset_fence(&mut self)
        requires
            old(self).frame is Idle || old(self).frame is Presented,
        ensures
            *final(self) == (Engine { frame: FramePhase::Idle, in_flight: false, ..*old(self) }),
    {
        self.frame = FramePhase::Idle;
        self.in_flight = false;
    }

    /// Records the index the presentation engine handed out for this
    /// frame, with the image-available semaphore now pending: the next
    /// submission must wait on it. The driver never returns an index
    /// outside the swapchain, so the shell checks the bound before
    /// handing the index in.
    pub fn present_idx(&mut self, image_index: u32) -> (r: u32)
        requires
            old(self).frame is Idle,
            !old(self).in_flight,
            image_index < old(self).framebuffers@.len(),
        ensures
            r == image_index,
            *final(self) == (Engine { acquired_image: Some(image_index), ..*old(self) }),
    {
        self.acquired_image = Some(image_index);
        image_index
    }

    /// One frame's command recording: reset the buffer (not the pool),
    /// begin one-time-submit recording, let the caller's draw commands in,
    /// end recording. Refused unless the frame's fence has been waited out
    /// and an image index is known, and the recording itself must neither
    /// submit nor reset.
    pub fn record_command_buffer(&mut self)
        requires
            old(self).frame is Idle,
            !old(self).in_flight,
            old(self).acquired_image is Some,
            old(self).setup_done,
        ensures
            *final(self) == (Engine { frame: FramePhase::CommandsRecorded, ..*old(self) }),
    {
        self.frame = FramePhase::CommandsRecorded;
    }

    /// Submits the recorded commands: waits on the image-available
    /// semaphore at colour-attachment output, signals the render-complete
    /// semaphore, and raises this frame's fence. Submitting without the
    /// acquired image's semaphore would race the presentation engine, so
    /// the phase order refuses it.
    pub fn submit(&mut self)
        requires
            old(self).frame is CommandsRecorded,
            old(self).acquired_image is Some,
        ensures
            *final(self) == (Engine { frame: FramePhase::Submitted, in_flight: true, ..*old(self) }),
    {
        self.frame = FramePhase::Submitted;
        self.in_flight = true;
    }

    /// Presents the acquired image, waiting on the render-complete
    /// semaphore the submission signalled; the index goes back to the
    /// presentation engine and the frame comes full circle.
    pub fn present(&mut self) -> (r: u32)
        requires
            old(self).frame is Submitted,
            old(self).acquired_image is Some,
        ensures
            r == old(self).acquired_image->0,
            *final(self) == (Engine {
                frame: FramePhase::Presented,
                acquired_image: None,
                ..*old(self)
            }),
    {
        let r = self.acquired_image.unwrap();
        self.frame = FramePhase::Presented;
        self.acquired_image = None;
        r
    }
}

impl Cleanup for Engine {
    /// Teardown owes, strictly in this order: the setup fence, every
    /// framebuffer, the render pass, the depth memory, view and image,
    /// every present-image view, and last the swapchain. Parents — device,
    /// surface, instance — are the system's to release afterwards.
    open spec fn cleanup_plan(&self) -> Seq<DestroyAction> {
        seq![DestroyAction::Fence(self.setup_fence)]
            + self.framebuffers@.map_values(|h: u64| DestroyAction::Framebuffer(h))
            + seq![
            DestroyAction::RenderPass(self.render_pass),
            DestroyAction::FreeMemory(self.depth_image_memory),
            DestroyAction::ImageView(self.depth_image_view),
            DestroyAction::Image(self.depth_image),
        ] + self.present_image_views@.map_values(|h: u64| DestroyAction::ImageView(h))
            + seq![DestroyAction::Swapchain(self.swapchain)]
    }

    fn cleanup(&self) -> (r: Vec<DestroyAction>) {
        let mut r: Vec<DestroyAction> = Vec::new();
        r.push(DestroyAction::Fence(self.setup_fence));
        let fn_count = self.framebuffers.len();
        let mut i: usize = 0;
        while i < fn_count
            invariant
                fn_count == self.framebuffers@.len(),
                i <= fn_count,
                r@ == seq![DestroyAction::Fence(self.setup_fence)] + self.framebuffers@.take(
                    i as int,
                ).map_values(|h: u64| DestroyAction::Framebuffer(h)),
            decreases fn_count - i,
        {
            let h = self.framebuffers[i];
            r.push(DestroyAction::Framebuffer(h));
            proof {
                assert(r@ =~= seq![DestroyAction::Fence(self.setup_fence)]
                    + self.framebuffers@.take(i + 1).map_values(
                    |h: u64| DestroyAction::Framebuffer(h),
                ));
            }
            i += 1;
        }
        proof {
            assert(self.framebuffers@.take(fn_count as int) =~= self.framebuffers@);
        }
        r.push(DestroyAction::RenderPass(self.render_pass));
        r.push(DestroyAction::FreeMemory(self.depth_image_memory));
        r.push(DestroyAction::ImageView(self.depth_image_view));
        r.push(DestroyAction::Image(self.depth_image));
        let ghost mid = r@;
        let vn = self.present_image_views.len();
        let mut i: usize = 0;
        while i < vn
            invariant
                vn == self.present_image_views@.len(),
                i <= vn,
                r@ == mid + self.present_image_views@.take(i as int).map_values(
                    |h: u64| DestroyAction::ImageView(h),
                ),
            decreases vn - i,
        {
            let h = self.present_image_views[i];
            r.push(DestroyAction::ImageView(h));
            proof {
                assert(r@ =~= mid + self.present_image_views@.take(i + 1).map_values(
                    |h: u64| DestroyAction::ImageView(h),
                ));
            }
            i += 1;
        }
        proof {
            assert(self.present_image_views@.take(vn as int) =~= self.present_image_views@);
        }
        r.push(DestroyAction::Swapchain(self.swapchain));
        proof {
            assert(r@ =~= self.cleanup_plan());
        }
        r
    }
}

} // verus!
