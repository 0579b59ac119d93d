//! The resources whose validity depends on the surface: what each of them is
//! created as, and the order in which they are destroyed.
//!
//! An [`Apparatus`] holds the handles of a complete set of such resources.
//! It is never patched: when the surface changes, the whole set is torn down,
//! as [`Apparatus::destroy`] lists it, and a new set is constructed.

use vstd::prelude::*;
use ash::vk;
use crate::surface::{Extent2D, Format, SurfaceCapabilities, SurfaceFormat};

verus! {

/// `VK_FORMAT_R32G32_SFLOAT`: two 32-bit floats.
pub const FORMAT_R32G32_SFLOAT: i32 = 103;

/// `VK_FORMAT_R32G32B32_SFLOAT`: three 32-bit floats.
pub const FORMAT_R32G32B32_SFLOAT: i32 = 106;

/// Bytes taken by one 32-bit float.
pub const FLOAT_SIZE: u32 = 4;

/// Floats of a vertex's position.
pub const POSITION_COMPONENTS: u32 = 2;

/// Floats of a vertex's color.
pub const COLOR_COMPONENTS: u32 = 3;

/// The red, green, blue and alpha bits of a color write mask.
pub const COLOR_COMPONENTS_ALL: u32 = 0xF;

/// Vertices drawn by each recorded command buffer.
pub const VERTEX_COUNT: u32 = 3;

/// Dimensionality of an image view.
#[derive(Clone, Copy, Debug, PartialEq, Eq, Structural)]
pub enum ImageViewType {
    Type1D,
    Type2D,
    Type3D,
}

/// How a view maps the channels of its image.
#[derive(Clone, Copy, Debug, PartialEq, Eq, Structural)]
pub enum ChannelMapping {
    /// Every channel reads itself.
    Identity,
}

/// The part of an image that a view covers.
#[derive(Clone, Copy, Debug, PartialEq, Eq, Structural)]
pub enum ImageAspect {
    Color,
    Depth,
}

/// What happens to an attachment's contents when a render pass begins.
#[derive(Clone, Copy, Debug, PartialEq, Eq, Structural)]
pub enum LoadOp {
    Load,
    Clear,
    DontCare,
}

/// What happens to an attachment's contents when a render pass ends.
#[derive(Clone, Copy, Debug, PartialEq, Eq, Structural)]
pub enum StoreOp {
    Store,
    DontCare,
}

/// Memory layout of an image.
#[derive(Clone, Copy, Debug, PartialEq, Eq, Structural)]
pub enum ImageLayout {
    Undefined,
    ColorAttachmentOptimal,
    PresentSrc,
}

/// How vertices are assembled into primitives.
#[derive(Clone, Copy, Debug, PartialEq, Eq, Structural)]
pub enum Topology {
    TriangleList,
    TriangleStrip,
}

/// How the rasterizer draws a polygon.
#[derive(Clone, Copy, Debug, PartialEq, Eq, Structural)]
pub enum PolygonMode {
    Fill,
    Line,
}

/// Which faces the rasterizer discards.
#[derive(Clone, Copy, Debug, PartialEq, Eq, Structural)]
pub enum CullMode {
    Nothing,
    Front,
    Back,
}

/// Winding order of a front face.
#[derive(Clone, Copy, Debug, PartialEq, Eq, Structural)]
pub enum FrontFace {
    CounterClockwise,
    Clockwise,
}

/// A view of one target image.
#[derive(Clone, Copy, Debug, PartialEq, Eq, Structural)]
pub struct ImageViewDesc {
    pub format: Format,
    pub view_type: ImageViewType,
    pub channels: ChannelMapping,
    pub aspect: ImageAspect,
    pub base_mip_level: u32,
    pub level_count: u32,
    pub base_array_layer: u32,
    pub layer_count: u32,
}

/// A render pass with one color attachment and one subpass that draws to it.
#[derive(Clone, Copy, Debug, PartialEq, Eq, Structural)]
pub struct RenderPassDesc {
    pub format: Format,
    pub samples: u32,
    pub load_op: LoadOp,
    pub store_op: StoreOp,
    pub stencil_load_op: LoadOp,
    pub stencil_store_op: StoreOp,
    pub initial_layout: ImageLayout,
    pub final_layout: ImageLayout,
    /// Index of the attachment that the subpass draws to.
    pub subpass_attachment: u32,
    pub subpass_layout: ImageLayout,
}

/// One attribute of a vertex, read from a vertex buffer binding.
#[derive(Clone, Copy, Debug, PartialEq, Eq, Structural)]
pub struct VertexAttribute {
    pub location: u32,
    pub binding: u32,
    pub format: Format,
    /// Offset in bytes from the start of the vertex.
    pub offset: u32,
    /// Size in bytes.
    pub size: u32,
}

/// The fixed state of the graphics pipeline.
#[derive(Clone, Copy, Debug, PartialEq, Eq, Structural)]
pub struct PipelineDesc {
    /// Bytes from one vertex to the next.
    pub vertex_stride: u32,
    pub position: VertexAttribute,
    pub color: VertexAttribute,
    pub topology: Topology,
    /// The viewport and the scissor both cover this extent from the origin.
    pub viewport: Extent2D,
    pub polygon_mode: PolygonMode,
    pub cull_mode: CullMode,
    pub front_face: FrontFace,
    pub samples: u32,
    pub blend_enable: bool,
    /// The color channels that are written, as color component bits.
    pub color_write_mask: u32,
    /// Index of the subpass the pipeline is used in.
    pub subpass: u32,
}

/// The commands recorded, once, into the command buffer of a frame slot.
#[derive(Clone, Copy, Debug, PartialEq, Eq)]
pub struct Recording {
    pub command_buffer: vk::CommandBuffer,
    /// The recording may be pending on the queue more than once at a time.
    pub simultaneous_use: bool,
    pub render_pass: vk::RenderPass,
    pub framebuffer: vk::Framebuffer,
    pub render_area: Extent2D,
    pub pipeline: vk::Pipeline,
    pub vertex_buffer: vk::Buffer,
    pub vertex_count: u32,
    pub instance_count: u32,
}

/// The view created for each target image.
pub open spec fn image_view_desc(format: Format) -> ImageViewDesc {
    ImageViewDesc {
        format,
        view_type: ImageViewType::Type2D,
        channels: ChannelMapping::Identity,
        aspect: ImageAspect::Color,
        base_mip_level: 0,
        level_count: 1,
        base_array_layer: 0,
        layer_count: 1,
    }
}

/// The render pass: contents before it are of no interest, the result is
/// stored and left ready to be presented.
pub open spec fn render_pass_desc(format: Format) -> RenderPassDesc {
    RenderPassDesc {
        format,
        samples: 1,
        load_op: LoadOp::DontCare,
        store_op: StoreOp::Store,
        stencil_load_op: LoadOp::DontCare,
        stencil_store_op: StoreOp::DontCare,
        initial_layout: ImageLayout::Undefined,
        final_layout: ImageLayout::PresentSrc,
        subpass_attachment: 0,
        subpass_layout: ImageLayout::ColorAttachmentOptimal,
    }
}

/// The pipeline: position then color, tightly packed in one binding,
/// filled triangles, back faces culled, no multisampling, no blending, every
/// color channel written.
pub open spec fn pipeline_desc(extent: Extent2D) -> PipelineDesc {
    PipelineDesc {
        vertex_stride: 20,
        position: VertexAttribute {
            location: 0,
            binding: 0,
            format: Format { raw: FORMAT_R32G32_SFLOAT },
            offset: 0,
            size: 8,
        },
        color: VertexAttribute {
            location: 1,
            binding: 0,
            format: Format { raw: FORMAT_R32G32B32_SFLOAT },
            offset: 8,
            size: 12,
        },
        topology: Topology::TriangleList,
        viewport: extent,
        polygon_mode: PolygonMode::Fill,
        cull_mode: CullMode::Back,
        front_face: FrontFace::CounterClockwise,
        samples: 1,
        blend_enable: false,
        color_write_mask: COLOR_COMPONENTS_ALL,
        subpass: 0,
    }
}

/// The view created for each target image.
pub fn image_view_for(format: Format) -> (r: ImageViewDesc)
    ensures
        r == image_view_desc(format),
{
    ImageViewDesc {
        format,
        view_type: ImageViewType::Type2D,
        channels: ChannelMapping::Identity,
        aspect: ImageAspect::Color,
        base_mip_level: 0,
        level_count: 1,
        base_array_layer: 0,
        layer_count: 1,
    }
}

/// The render pass for target images of the given format.
pub fn render_pass_for(format: Format) -> (r: RenderPassDesc)
    ensures
        r == render_pass_desc(format),
{
    RenderPassDesc {
        format,
        samples: 1,
        load_op: LoadOp::DontCare,
        store_op: StoreOp::Store,
        stencil_load_op: LoadOp::DontCare,
        stencil_store_op: StoreOp::DontCare,
        initial_layout: ImageLayout::Undefined,
        final_layout: ImageLayout::PresentSrc,
        subpass_attachment: 0,
        subpass_layout: ImageLayout::ColorAttachmentOptimal,
    }
}

/// The pipeline for target images of the given extent. The vertex layout is
/// computed from the attributes' sizes: each starts where the one before ends.
pub fn pipeline_for(extent: Extent2D) -> (r: PipelineDesc)
    ensures
        r == pipeline_desc(extent),
{
    let position_size = POSITION_COMPONENTS * FLOAT_SIZE;
    let color_size = COLOR_COMPONENTS * FLOAT_SIZE;
    PipelineDesc {
        vertex_stride: position_size + color_size,
        position: VertexAttribute {
            location: 0,
            binding: 0,
            format: Format { raw: FORMAT_R32G32_SFLOAT },
            offset: 0,
            size: position_size,
        },
        color: VertexAttribute {
            location: 1,
            binding: 0,
            format: Format { raw: FORMAT_R32G32B32_SFLOAT },
            offset: position_size,
            size: color_size,
        },
        topology: Topology::TriangleList,
        viewport: extent,
        polygon_mode: PolygonMode::Fill,
        cull_mode: CullMode::Back,
        front_face: FrontFace::CounterClockwise,
        samples: 1,
        blend_enable: false,
        color_write_mask: COLOR_COMPONENTS_ALL,
        subpass: 0,
    }
}

/// Size in bytes of the vertex data that the recorded commands draw from.
pub open spec fn vertex_data_size() -> nat {
    (VERTEX_COUNT * (POSITION_COMPONENTS + COLOR_COMPONENTS) * FLOAT_SIZE) as nat
}

/// Size in bytes of the vertex data that the recorded commands draw from:
/// every vertex drawn takes one stride of the vertex buffer.
pub fn vertex_buffer_size() -> (size: usize)
    ensures
        size == vertex_data_size(),
        size == VERTEX_COUNT * pipeline_desc(Extent2D { width: 0, height: 0 }).vertex_stride,
{
    let stride = (POSITION_COMPONENTS + COLOR_COMPONENTS) * FLOAT_SIZE;
    (VERTEX_COUNT * stride) as usize
}

/// The vertex layout leaves no gap and no overlap: the position starts the
/// vertex, the color follows it at once, and the stride is their total size.
pub proof fn lemma_vertex_layout_is_tight(extent: Extent2D)
    ensures
        ({
            let p = pipeline_desc(extent);
            &&& p.position.offset == 0
            &&& p.position.size == POSITION_COMPONENTS * FLOAT_SIZE
            &&& p.color.offset == p.position.offset + p.position.size
            &&& p.color.size == COLOR_COMPONENTS * FLOAT_SIZE
            &&& p.vertex_stride == p.color.offset + p.color.size
            &&& p.position.binding == p.color.binding
        }),
{
}

/// One step of tearing the resources down.
#[derive(Clone, Copy, Debug, PartialEq, Eq)]
pub enum DestroyCommand {
    /// Block until the device has finished all submitted work.
    WaitDeviceIdle,
    DestroySemaphore(vk::Semaphore),
    DestroyFence(vk::Fence),
    DestroyPipelineLayout(vk::PipelineLayout),
    DestroyPipeline(vk::Pipeline),
    DestroyFramebuffer(vk::Framebuffer),
    DestroyRenderPass(vk::RenderPass),
    DestroyImageView(vk::ImageView),
    DestroySwapchain(vk::SwapchainKHR),
}

/// The resources that must be rebuilt whenever the surface changes.
pub struct Apparatus {
    pub surface_caps: SurfaceCapabilities,
    pub surface_formats: Vec<SurfaceFormat>,
    pub swapchain: vk::SwapchainKHR,
    pub swapchain_format: Format,
    pub swapchain_extent: Extent2D,
    pub swapchain_images: Vec<vk::Image>,
    pub swapchain_imageviews: Vec<vk::ImageView>,
    pub render_pass: vk::RenderPass,
    pub framebuffers: Vec<vk::Framebuffer>,
    pub pipeline_layout: vk::PipelineLayout,
    pub graphics_pipeline: vk::Pipeline,
    pub command_buffers: Vec<vk::CommandBuffer>,
    pub image_available_semaphores: Vec<vk::Semaphore>,
    pub render_finished_semaphores: Vec<vk::Semaphore>,
    pub command_buffer_complete_fences: Vec<vk::Fence>,
}

/// Whether the object that `dependent` destroys was created from the object
/// that `base` destroys, and needs it for as long as it exists: a
/// framebuffer its render pass and its image view, a pipeline its render
/// pass, an image view the image chain that owns its image. (A pipeline
/// layout is read only while the pipeline is created.)
pub open spec fn built_on(dependent: DestroyCommand, base: DestroyCommand) -> bool {
    match (dependent, base) {
        (DestroyCommand::DestroyFramebuffer(_), DestroyCommand::DestroyRenderPass(_)) => true,
        (DestroyCommand::DestroyFramebuffer(_), DestroyCommand::DestroyImageView(_)) => true,
        (DestroyCommand::DestroyPipeline(_), DestroyCommand::DestroyRenderPass(_)) => true,
        (DestroyCommand::DestroyImageView(_), DestroyCommand::DestroySwapchain(_)) => true,
        _ => false,
    }
}

/// The place of a command's kind in the teardown: what is torn down earlier
/// has a lower rank.
pub open spec fn teardown_rank(command: DestroyCommand) -> nat {
    match command {
        DestroyCommand::WaitDeviceIdle => 0,
        DestroyCommand::DestroySemaphore(_) => 1,
        DestroyCommand::DestroyFence(_) => 1,
        DestroyCommand::DestroyPipelineLayout(_) => 2,
        DestroyCommand::DestroyPipeline(_) => 3,
        DestroyCommand::DestroyFramebuffer(_) => 4,
        DestroyCommand::DestroyRenderPass(_) => 5,
        DestroyCommand::DestroyImageView(_) => 6,
        DestroyCommand::DestroySwapchain(_) => 7,
    }
}

/// Teardown of the frame slots' synchronization objects, slot by slot: the
/// two semaphores, then the fence.
pub open spec fn sync_teardown(
    image_available: Seq<vk::Semaphore>,
    render_finished: Seq<vk::Semaphore>,
    fences: Seq<vk::Fence>,
) -> Seq<DestroyCommand> {
    Seq::new(
        3 * fences.len(),
        |k: int|
            if k % 3 == 0 {
                DestroyCommand::DestroySemaphore(image_available[k / 3])
            } else if k % 3 == 1 {
                DestroyCommand::DestroySemaphore(render_finished[k / 3])
            } else {
                DestroyCommand::DestroyFence(fences[k / 3])
            },
    )
}

/// Teardown of each framebuffer, in the order of their creation.
pub open spec fn framebuffer_teardown(framebuffers: Seq<vk::Framebuffer>) -> Seq<DestroyCommand> {
    Seq::new(framebuffers.len(), |i: int| DestroyCommand::DestroyFramebuffer(framebuffers[i]))
}

/// Teardown of each image view, in the order of their creation.
pub open spec fn view_teardown(views: Seq<vk::ImageView>) -> Seq<DestroyCommand> {
    Seq::new(views.len(), |i: int| DestroyCommand::DestroyImageView(views[i]))
}

impl Apparatus {
    /// The collections made per target image match the images one for one,
    /// and those made per frame slot match each other.
    pub open spec fn wf(&self) -> bool {
        &&& self.swapchain_imageviews@.len() == self.swapchain_images@.len()
        &&& self.framebuffers@.len() == self.swapchain_images@.len()
        &&& self.command_buffers@.len() <= self.framebuffers@.len()
        &&& self.command_buffers@.len() > 0
        &&& self.image_available_semaphores@.len() == self.command_buffers@.len()
        &&& self.render_finished_semaphores@.len() == self.command_buffers@.len()
        &&& self.command_buffer_complete_fences@.len() == self.command_buffers@.len()
        &&& self.command_buffers@.len() <= u32::MAX
    }

    /// Number of frame slots the resources were built for.
    pub open spec fn slot_count(&self) -> nat {
        self.command_buffers@.len()
    }

    /// The whole teardown: after the device has gone idle, the
    /// synchronization objects, the pipeline layout, the pipeline, the
    /// framebuffers, the render pass, the image views and last the image
    /// chain itself.
    pub open spec fn teardown(&self) -> Seq<DestroyCommand> {
        seq![DestroyCommand::WaitDeviceIdle] + sync_teardown(
            self.image_available_semaphores@,
            self.render_finished_semaphores@,
            self.command_buffer_complete_fences@,
        ) + seq![
            DestroyCommand::DestroyPipelineLayout(self.pipeline_layout),
            DestroyCommand::DestroyPipeline(self.graphics_pipeline),
        ] + framebuffer_teardown(self.framebuffers@) + seq![
            DestroyCommand::DestroyRenderPass(self.render_pass),
        ] + view_teardown(self.swapchain_imageviews@) + seq![
            DestroyCommand::DestroySwapchain(self.swapchain),
        ]
    }

    /// Number of frame slots the resources were built for.
    pub fn frame_slots(&self) -> (n: u32)
        requires
            self.wf(),
        ensures
            n == self.slot_count(),
            n > 0,
    {
        self.command_buffers.len() as u32
    }

    /// Lists, in order, the commands that destroy the resources. Nothing is
    /// destroyed before what depends on it.
    pub fn destroy(&self) -> (commands: Vec<DestroyCommand>)
        requires
            self.wf(),
        ensures
            commands@ == self.teardown(),
    {
        let mut commands: Vec<DestroyCommand> = Vec::new();
        commands.push(DestroyCommand::WaitDeviceIdle);
        let ghost head = seq![DestroyCommand::WaitDeviceIdle];
        let slots = self.command_buffer_complete_fences.len();
        let mut i: usize = 0;
        while i < slots
            invariant
                self.wf(),
                slots == self.command_buffer_complete_fences@.len(),
                i <= slots,
                head == seq![DestroyCommand::WaitDeviceIdle],
                commands@ == head + sync_teardown(
                    self.image_available_semaphores@,
                    self.render_finished_semaphores@,
                    self.command_buffer_complete_fences@.take(i as int),
                ),
            decreases slots - i,
        {
            commands.push(DestroyCommand::DestroySemaphore(self.image_available_semaphores[i]));
            commands.push(DestroyCommand::DestroySemaphore(self.render_finished_semaphores[i]));
            commands.push(DestroyCommand::DestroyFence(self.command_buffer_complete_fences[i]));
            i = i + 1;
        }
        assert(self.command_buffer_complete_fences@.take(slots as int)
            == self.command_buffer_complete_fences@);
        commands.push(DestroyCommand::DestroyPipelineLayout(self.pipeline_layout));
        commands.push(DestroyCommand::DestroyPipeline(self.graphics_pipeline));
        let ghost before_framebuffers = commands@;
        let mut j: usize = 0;
        while j < self.framebuffers.len()
            invariant
                j <= self.framebuffers@.len(),
                commands@ == before_framebuffers + framebuffer_teardown(
                    self.framebuffers@.take(j as int),
                ),
            decreases self.framebuffers@.len() - j,
        {
            commands.push(DestroyCommand::DestroyFramebuffer(self.framebuffers[j]));
            j = j + 1;
        }
        assert(self.framebuffers@.take(self.framebuffers@.len() as int) == self.framebuffers@);
        commands.push(DestroyCommand::DestroyRenderPass(self.render_pass));
        let ghost before_views = commands@;
        let mut k: usize = 0;
        while k < self.swapchain_imageviews.len()
            invariant
                k <= self.swapchain_imageviews@.len(),
                commands@ == before_views + view_teardown(
                    self.swapchain_imageviews@.take(k as int),
                ),
            decreases self.swapchain_imageviews@.len() - k,
        {
            commands.push(DestroyCommand::DestroyImageView(self.swapchain_imageviews[k]));
            k = k + 1;
        }
        assert(self.swapchain_imageviews@.take(self.swapchain_imageviews@.len() as int)
            == self.swapchain_imageviews@);
        commands.push(DestroyCommand::DestroySwapchain(self.swapchain));
        commands
    }
}

/// A teardown goes kind by kind: after the wait for the device come the
/// synchronization objects, the pipeline layout, the pipeline, the
/// framebuffers, the render pass, the image views and the image chain.
pub proof fn lemma_teardown_is_ordered_by_kind(apparatus: &Apparatus, i: int, j: int)
    requires
        apparatus.wf(),
        0 <= i <= j < apparatus.teardown().len(),
    ensures
        teardown_rank(apparatus.teardown()[i]) <= teardown_rank(apparatus.teardown()[j]),
        apparatus.teardown()[0] == DestroyCommand::WaitDeviceIdle,
        i > 0 ==> apparatus.teardown()[i] != DestroyCommand::WaitDeviceIdle,
{
}

/// In a teardown nothing outlives what it depends on: no object is destroyed
/// before an object that was built on it, and nothing at all before the
/// device has gone idle.
pub proof fn lemma_teardown_respects_dependencies(apparatus: &Apparatus, i: int, j: int)
    requires
        apparatus.wf(),
        0 <= i < j < apparatus.teardown().len(),
    ensures
        !built_on(apparatus.teardown()[j], apparatus.teardown()[i]),
        apparatus.teardown()[0] == DestroyCommand::WaitDeviceIdle,
{
    lemma_teardown_is_ordered_by_kind(apparatus, i, j);
}

/// A teardown is as long as there are objects, and one more: a command for
/// each synchronization object, framebuffer and image view, one each for the
/// pipeline layout, the pipeline, the render pass and the image chain, and
/// the wait for the device.
pub proof fn lemma_teardown_length(apparatus: &Apparatus)
    requires
        apparatus.wf(),
    ensures
        apparatus.teardown().len() == 5 + 3 * apparatus.slot_count()
            + 2 * apparatus.swapchain_images@.len(),
{
}

} // verus!
