//! Choosing the parameters of the presentable image chain from what a surface supports.

use vstd::prelude::*;

verus! {

/// Width and height in pixels.
#[derive(Clone, Copy, Debug, PartialEq, Eq, Structural)]
pub struct Extent2D {
    pub width: u32,
    pub height: u32,
}

/// A pixel format, by its Vulkan code.
#[derive(Clone, Copy, Debug, PartialEq, Eq, Structural)]
pub struct Format {
    pub raw: i32,
}

/// A color space, by its Vulkan code.
#[derive(Clone, Copy, Debug, PartialEq, Eq, Structural)]
pub struct ColorSpace {
    pub raw: i32,
}

/// A presentation mode, by its Vulkan code.
#[derive(Clone, Copy, Debug, PartialEq, Eq, Structural)]
pub struct PresentMode {
    pub raw: i32,
}

/// A pixel format together with the color space it is presented in.
#[derive(Clone, Copy, Debug, PartialEq, Eq, Structural)]
pub struct SurfaceFormat {
    pub format: Format,
    pub color_space: ColorSpace,
}

/// What the selection reads of a surface's capabilities.
#[derive(Clone, Copy, Debug, PartialEq, Eq, Structural)]
pub struct SurfaceCapabilities {
    pub min_image_count: u32,
    pub current_extent: Extent2D,
    pub min_image_extent: Extent2D,
    pub max_image_extent: Extent2D,
}

/// The queue families used for drawing and for presenting.
#[derive(Clone, Copy, Debug, PartialEq, Eq, Structural)]
pub struct QueueFamilies {
    pub graphics: u32,
    pub present: u32,
}

/// How the images of the chain are shared between queue families.
#[derive(Clone, Copy, Debug, PartialEq, Eq, Structural)]
pub enum ImageSharing {
    /// One family owns the images.
    Exclusive,
    /// The two named families access the images concurrently.
    Concurrent { graphics: u32, present: u32 },
}

/// Everything needed to create the presentable image chain.
#[derive(Clone, Copy, Debug, PartialEq, Eq, Structural)]
pub struct SwapchainPlan {
    pub min_image_count: u32,
    pub format: SurfaceFormat,
    pub extent: Extent2D,
    pub present_mode: PresentMode,
    pub sharing: ImageSharing,
    /// Number of array layers of each image.
    pub image_array_layers: u32,
    /// What the images are used for, as image usage bits.
    pub image_usage: u32,
    /// How the images are transformed when presented, as a surface transform bit.
    pub pre_transform: u32,
    /// How the alpha channel is composited, as a composite alpha bit.
    pub composite_alpha: u32,
    /// Pixels hidden by other windows may be discarded.
    pub clipped: bool,
}

/// `VK_FORMAT_B8G8R8A8_SRGB`.
pub const FORMAT_B8G8R8A8_SRGB: i32 = 50;

/// `VK_COLOR_SPACE_SRGB_NONLINEAR_KHR`.
pub const COLOR_SPACE_SRGB_NONLINEAR: i32 = 0;

/// `VK_PRESENT_MODE_MAILBOX_KHR`: the newest image replaces a waiting one, the caller never blocks.
pub const PRESENT_MODE_MAILBOX: i32 = 1;

/// `VK_PRESENT_MODE_FIFO_KHR`: images queue up and the caller blocks; every surface supports it.
pub const PRESENT_MODE_FIFO: i32 = 2;

/// `VK_IMAGE_USAGE_TRANSFER_SRC_BIT`: the image may be the source of a transfer.
pub const IMAGE_USAGE_TRANSFER_SRC: u32 = 0x1;

/// `VK_IMAGE_USAGE_COLOR_ATTACHMENT_BIT`: the image is rendered to.
pub const IMAGE_USAGE_COLOR_ATTACHMENT: u32 = 0x10;

/// `VK_SURFACE_TRANSFORM_IDENTITY_BIT_KHR`: no rotation, no mirroring.
pub const SURFACE_TRANSFORM_IDENTITY: u32 = 0x1;

/// `VK_COMPOSITE_ALPHA_OPAQUE_BIT_KHR`: the alpha channel is ignored.
pub const COMPOSITE_ALPHA_OPAQUE: u32 = 0x1;

/// The width a surface reports when its extent is decided by the swapchain.
pub const UNDEFINED_EXTENT: u32 = 0xFFFF_FFFF;

/// The format and color space asked for when the surface offers them.
pub open spec fn preferred_format() -> SurfaceFormat {
    SurfaceFormat {
        format: Format { raw: FORMAT_B8G8R8A8_SRGB },
        color_space: ColorSpace { raw: COLOR_SPACE_SRGB_NONLINEAR },
    }
}

/// The larger of the surface's minimum and the number of frame slots.
pub open spec fn image_count_for(min_image_count: u32, slot_count: u32) -> u32 {
    if min_image_count >= slot_count {
        min_image_count
    } else {
        slot_count
    }
}

/// `wanted` if the surface offers it, else the first format offered.
pub open spec fn format_for(supported: Seq<SurfaceFormat>, wanted: SurfaceFormat) -> SurfaceFormat {
    if supported.contains(wanted) {
        wanted
    } else {
        supported[0]
    }
}

/// `value` raised to `lo`, then lowered to `hi`.
pub open spec fn clamped(value: u32, lo: u32, hi: u32) -> u32 {
    let raised = if value >= lo { value } else { lo };
    if raised <= hi {
        raised
    } else {
        hi
    }
}

/// The extent of the images: the surface's own, or the window's size clamped
/// to what the surface allows when the surface leaves the choice open.
pub open spec fn extent_for(caps: SurfaceCapabilities, window: Extent2D) -> Extent2D {
    if caps.current_extent.width == UNDEFINED_EXTENT {
        Extent2D {
            width: clamped(window.width, caps.min_image_extent.width, caps.max_image_extent.width),
            height: clamped(
                window.height,
                caps.min_image_extent.height,
                caps.max_image_extent.height,
            ),
        }
    } else {
        caps.current_extent
    }
}

/// Mailbox when offered, FIFO otherwise.
pub open spec fn present_mode_for(supported: Seq<PresentMode>) -> PresentMode {
    if supported.contains(PresentMode { raw: PRESENT_MODE_MAILBOX }) {
        PresentMode { raw: PRESENT_MODE_MAILBOX }
    } else {
        PresentMode { raw: PRESENT_MODE_FIFO }
    }
}

/// Concurrent between the two families when they differ, exclusive when they are one.
pub open spec fn sharing_for(queues: QueueFamilies) -> ImageSharing {
    if queues.graphics != queues.present {
        ImageSharing::Concurrent { graphics: queues.graphics, present: queues.present }
    } else {
        ImageSharing::Exclusive
    }
}

/// The plan for the image chain: the choices above, for images of one layer
/// that are rendered to and may be copied from, presented untransformed,
/// opaque and clipped.
pub open spec fn swapchain_plan_for(
    caps: SurfaceCapabilities,
    formats: Seq<SurfaceFormat>,
    present_modes: Seq<PresentMode>,
    window: Extent2D,
    queues: QueueFamilies,
    slot_count: u32,
) -> SwapchainPlan {
    SwapchainPlan {
        min_image_count: image_count_for(caps.min_image_count, slot_count),
        format: format_for(formats, preferred_format()),
        extent: extent_for(caps, window),
        present_mode: present_mode_for(present_modes),
        sharing: sharing_for(queues),
        image_array_layers: 1,
        image_usage: IMAGE_USAGE_COLOR_ATTACHMENT | IMAGE_USAGE_TRANSFER_SRC,
        pre_transform: SURFACE_TRANSFORM_IDENTITY,
        composite_alpha: COMPOSITE_ALPHA_OPAQUE,
        clipped: true,
    }
}

/// The format and color space asked for when the surface offers them.
pub fn preferred_surface_format() -> (r: SurfaceFormat)
    ensures
        r == preferred_format(),
{
    SurfaceFormat {
        format: Format { raw: FORMAT_B8G8R8A8_SRGB },
        color_space: ColorSpace { raw: COLOR_SPACE_SRGB_NONLINEAR },
    }
}

/// Number of images to ask for: never fewer than the surface's minimum, nor than the frame slots.
pub fn choose_image_count(min_image_count: u32, slot_count: u32) -> (r: u32)
    ensures
        r == image_count_for(min_image_count, slot_count),
{
    if min_image_count >= slot_count {
        min_image_count
    } else {
        slot_count
    }
}

/// Picks `wanted` when the surface offers it, whatever its place in the list,
/// and the first format offered otherwise.
pub fn choose_surface_format(supported: &Vec<SurfaceFormat>, wanted: SurfaceFormat) -> (r:
    SurfaceFormat)
    requires
        supported@.len() > 0,
    ensures
        r == format_for(supported@, wanted),
{
    let mut i: usize = 0;
    while i < supported.len()
        invariant
            i <= supported@.len(),
            forall|j: int| 0 <= j < i ==> supported@[j] != wanted,
        decreases supported@.len() - i,
    {
        if supported[i] == wanted {
            assert(supported@.contains(wanted));
            return wanted;
        }
        i = i + 1;
    }
    assert(!supported@.contains(wanted));
    supported[0]
}

/// Raises `value` to `lo`, then lowers it to `hi`.
pub fn clamp_dimension(value: u32, lo: u32, hi: u32) -> (r: u32)
    ensures
        r == clamped(value, lo, hi),
{
    let raised = if value >= lo {
        value
    } else {
        lo
    };
    if raised <= hi {
        raised
    } else {
        hi
    }
}

/// Takes the surface's extent as it is, unless the surface leaves it open:
/// then the window's size, clamped dimension by dimension.
pub fn choose_extent(caps: &SurfaceCapabilities, window: Extent2D) -> (r: Extent2D)
    ensures
        r == extent_for(*caps, window),
{
    if caps.current_extent.width == UNDEFINED_EXTENT {
        Extent2D {
            width: clamp_dimension(
                window.width,
                caps.min_image_extent.width,
                caps.max_image_extent.width,
            ),
            height: clamp_dimension(
                window.height,
                caps.min_image_extent.height,
                caps.max_image_extent.height,
            ),
        }
    } else {
        caps.current_extent
    }
}

/// Mailbox when the surface offers it, FIFO otherwise.
pub fn choose_present_mode(supported: &Vec<PresentMode>) -> (r: PresentMode)
    ensures
        r == present_mode_for(supported@),
{
    let mailbox = PresentMode { raw: PRESENT_MODE_MAILBOX };
    let mut i: usize = 0;
    while i < supported.len()
        invariant
            i <= supported@.len(),
            mailbox == (PresentMode { raw: PRESENT_MODE_MAILBOX }),
            forall|j: int| 0 <= j < i ==> supported@[j] != mailbox,
        decreases supported@.len() - i,
    {
        if supported[i] == mailbox {
            assert(supported@.contains(mailbox));
            return mailbox;
        }
        i = i + 1;
    }
    assert(!supported@.contains(mailbox));
    PresentMode { raw: PRESENT_MODE_FIFO }
}

/// Shares the images between the two families only when they differ.
pub fn choose_sharing(queues: QueueFamilies) -> (r: ImageSharing)
    ensures
        r == sharing_for(queues),
{
    if queues.graphics != queues.present {
        ImageSharing::Concurrent { graphics: queues.graphics, present: queues.present }
    } else {
        ImageSharing::Exclusive
    }
}

/// Decides every parameter of the presentable image chain.
pub fn plan_swapchain(
    caps: &SurfaceCapabilities,
    formats: &Vec<SurfaceFormat>,
    present_modes: &Vec<PresentMode>,
    window: Extent2D,
    queues: QueueFamilies,
    slot_count: u32,
) -> (plan: SwapchainPlan)
    requires
        formats@.len() > 0,
    ensures
        plan == swapchain_plan_for(
            *caps,
            formats@,
            present_modes@,
            window,
            queues,
            slot_count,
        ),
{
    SwapchainPlan {
        min_image_count: choose_image_count(caps.min_image_count, slot_count),
        format: choose_surface_format(formats, preferred_surface_format()),
        extent: choose_extent(caps, window),
        present_mode: choose_present_mode(present_modes),
        sharing: choose_sharing(queues),
        image_array_layers: 1,
        image_usage: IMAGE_USAGE_COLOR_ATTACHMENT | IMAGE_USAGE_TRANSFER_SRC,
        pre_transform: SURFACE_TRANSFORM_IDENTITY,
        composite_alpha: COMPOSITE_ALPHA_OPAQUE,
        clipped: true,
    }
}

/// Clamping agrees with the usual `max(lo, min(hi, value))` and stays within
/// `[lo, hi]` whenever that range is not empty.
pub proof fn lemma_clamped_in_range(value: u32, lo: u32, hi: u32)
    requires
        lo <= hi,
    ensures
        lo <= clamped(value, lo, hi) <= hi,
        clamped(value, lo, hi) == vstd::math::max(
            lo as int,
            vstd::math::min(hi as int, value as int),
        ),
{
}

/// The chosen extent is the surface's own whenever the surface reports one;
/// otherwise each dimension is the window's, clamped, and lies within what the
/// surface advertises (given that the advertised range is not empty).
pub proof fn lemma_extent_selection(caps: SurfaceCapabilities, window: Extent2D)
    requires
        caps.min_image_extent.width <= caps.max_image_extent.width,
        caps.min_image_extent.height <= caps.max_image_extent.height,
    ensures
        caps.current_extent.width != UNDEFINED_EXTENT ==> extent_for(caps, window)
            == caps.current_extent,
        caps.current_extent.width == UNDEFINED_EXTENT ==> {
            let e = extent_for(caps, window);
            &&& caps.min_image_extent.width <= e.width <= caps.max_image_extent.width
            &&& caps.min_image_extent.height <= e.height <= caps.max_image_extent.height
            &&& e.width == vstd::math::max(
                caps.min_image_extent.width as int,
                vstd::math::min(caps.max_image_extent.width as int, window.width as int),
            )
            &&& e.height == vstd::math::max(
                caps.min_image_extent.height as int,
                vstd::math::min(caps.max_image_extent.height as int, window.height as int),
            )
        },
{
    lemma_clamped_in_range(window.width, caps.min_image_extent.width, caps.max_image_extent.width);
    lemma_clamped_in_range(
        window.height,
        caps.min_image_extent.height,
        caps.max_image_extent.height,
    );
}

/// The order in which a surface lists its formats does not matter when the
/// wanted format is among them: any two lists with the same formats give it.
pub proof fn lemma_format_selection_ignores_order(
    first: Seq<SurfaceFormat>,
    second: Seq<SurfaceFormat>,
    wanted: SurfaceFormat,
)
    requires
        first.to_multiset() == second.to_multiset(),
        first.contains(wanted),
    ensures
        format_for(first, wanted) == wanted,
        format_for(second, wanted) == wanted,
{
    first.to_multiset_ensures();
    second.to_multiset_ensures();
    assert(first.to_multiset().count(wanted) > 0);
    assert(second.to_multiset().count(wanted) > 0);
    assert(second.contains(wanted));
}

/// Without the wanted format the choice is the first format offered.
pub proof fn lemma_format_selection_falls_back(supported: Seq<SurfaceFormat>, wanted: SurfaceFormat)
    requires
        !supported.contains(wanted),
    ensures
        format_for(supported, wanted) == supported[0],
{
}

/// The present mode chosen is mailbox exactly when the surface offers it, and
/// FIFO in every other case.
pub proof fn lemma_present_mode_selection(supported: Seq<PresentMode>)
    ensures
        supported.contains(PresentMode { raw: PRESENT_MODE_MAILBOX }) ==> present_mode_for(
            supported,
        ).raw == PRESENT_MODE_MAILBOX,
        !supported.contains(PresentMode { raw: PRESENT_MODE_MAILBOX }) ==> present_mode_for(
            supported,
        ).raw == PRESENT_MODE_FIFO,
        present_mode_for(supported).raw == PRESENT_MODE_MAILBOX || present_mode_for(
            supported,
        ).raw == PRESENT_MODE_FIFO,
{
}

} // verus!
