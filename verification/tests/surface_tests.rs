use grapheme::surface::{
    choose_extent, choose_image_count, choose_present_mode, choose_sharing,
    choose_surface_format, clamp_dimension, plan_swapchain, preferred_surface_format,
    ColorSpace, Extent2D, Format, ImageSharing, PresentMode, QueueFamilies,
    SurfaceCapabilities, SurfaceFormat, COLOR_SPACE_SRGB_NONLINEAR, COMPOSITE_ALPHA_OPAQUE,
    FORMAT_B8G8R8A8_SRGB, IMAGE_USAGE_COLOR_ATTACHMENT, IMAGE_USAGE_TRANSFER_SRC,
    PRESENT_MODE_FIFO, PRESENT_MODE_MAILBOX, SURFACE_TRANSFORM_IDENTITY, UNDEFINED_EXTENT,
};

fn extent(width: u32, height: u32) -> Extent2D {
    Extent2D { width, height }
}

fn format(format: i32, color_space: i32) -> SurfaceFormat {
    SurfaceFormat { format: Format { raw: format }, color_space: ColorSpace { raw: color_space } }
}

fn mode(raw: i32) -> PresentMode {
    PresentMode { raw }
}

fn open_caps(min_image_count: u32) -> SurfaceCapabilities {
    SurfaceCapabilities {
        min_image_count,
        current_extent: extent(UNDEFINED_EXTENT, UNDEFINED_EXTENT),
        min_image_extent: extent(1, 1),
        max_image_extent: extent(4096, 4096),
    }
}

#[test]
fn codes_agree_with_ash() {
    assert_eq!(FORMAT_B8G8R8A8_SRGB, ash::vk::Format::B8G8R8A8_SRGB.as_raw());
    assert_eq!(COLOR_SPACE_SRGB_NONLINEAR, ash::vk::ColorSpaceKHR::SRGB_NONLINEAR.as_raw());
    assert_eq!(PRESENT_MODE_MAILBOX, ash::vk::PresentModeKHR::MAILBOX.as_raw());
    assert_eq!(PRESENT_MODE_FIFO, ash::vk::PresentModeKHR::FIFO.as_raw());
    assert_eq!(UNDEFINED_EXTENT, u32::MAX);
    assert_eq!(IMAGE_USAGE_TRANSFER_SRC, ash::vk::ImageUsageFlags::TRANSFER_SRC.as_raw());
    assert_eq!(IMAGE_USAGE_COLOR_ATTACHMENT, ash::vk::ImageUsageFlags::COLOR_ATTACHMENT.as_raw());
    assert_eq!(SURFACE_TRANSFORM_IDENTITY, ash::vk::SurfaceTransformFlagsKHR::IDENTITY.as_raw());
    assert_eq!(COMPOSITE_ALPHA_OPAQUE, ash::vk::CompositeAlphaFlagsKHR::OPAQUE.as_raw());
}

#[test]
fn preferred_format_is_srgb_bgra() {
    assert_eq!(preferred_surface_format(), format(50, 0));
}

#[test]
fn image_count_is_the_larger_of_minimum_and_slots() {
    assert_eq!(choose_image_count(3, 2), 3);
    assert_eq!(choose_image_count(1, 2), 2);
    assert_eq!(choose_image_count(2, 2), 2);
    assert_eq!(choose_image_count(0, 0), 0);
    assert_eq!(choose_image_count(u32::MAX, 2), u32::MAX);
}

#[test]
fn preferred_format_is_chosen_wherever_it_stands() {
    let wanted = format(50, 0);
    let first = vec![wanted, format(44, 0), format(37, 0)];
    let middle = vec![format(44, 0), wanted, format(37, 0)];
    let last = vec![format(37, 0), format(44, 0), wanted];
    assert_eq!(choose_surface_format(&first, wanted), wanted);
    assert_eq!(choose_surface_format(&middle, wanted), wanted);
    assert_eq!(choose_surface_format(&last, wanted), wanted);
}

#[test]
fn first_format_is_the_fallback() {
    let wanted = format(50, 0);
    let supported = vec![format(44, 0), format(37, 0)];
    assert_eq!(choose_surface_format(&supported, wanted), format(44, 0));
    let reordered = vec![format(37, 0), format(44, 0)];
    assert_eq!(choose_surface_format(&reordered, wanted), format(37, 0));
}

#[test]
fn format_and_color_space_must_both_match() {
    let wanted = format(50, 0);
    let supported = vec![format(50, 1000104001), format(44, 0)];
    assert_eq!(choose_surface_format(&supported, wanted), format(50, 1000104001));
    let with_pair = vec![format(50, 1000104001), format(44, 0), format(50, 0)];
    assert_eq!(choose_surface_format(&with_pair, wanted), wanted);
}

#[test]
fn clamping_raises_then_lowers() {
    assert_eq!(clamp_dimension(800, 1, 4096), 800);
    assert_eq!(clamp_dimension(0, 1, 4096), 1);
    assert_eq!(clamp_dimension(5000, 1, 4096), 4096);
    assert_eq!(clamp_dimension(1, 1, 4096), 1);
    assert_eq!(clamp_dimension(4096, 1, 4096), 4096);
    // An empty range: the upper bound has the last word.
    assert_eq!(clamp_dimension(7, 10, 5), 5);
}

#[test]
fn open_extent_follows_the_window() {
    let caps = open_caps(3);
    assert_eq!(choose_extent(&caps, extent(800, 600)), extent(800, 600));
    assert_eq!(choose_extent(&caps, extent(0, 0)), extent(1, 1));
    assert_eq!(choose_extent(&caps, extent(10_000, 300)), extent(4096, 300));
    assert_eq!(choose_extent(&caps, extent(300, 10_000)), extent(300, 4096));
}

#[test]
fn reported_extent_is_taken_verbatim() {
    let caps = SurfaceCapabilities {
        min_image_count: 2,
        current_extent: extent(1280, 720),
        min_image_extent: extent(1, 1),
        max_image_extent: extent(4096, 4096),
    };
    assert_eq!(choose_extent(&caps, extent(800, 600)), extent(1280, 720));
    // Verbatim even where it lies outside the advertised range.
    let odd = SurfaceCapabilities {
        min_image_count: 2,
        current_extent: extent(8000, 0),
        min_image_extent: extent(1, 1),
        max_image_extent: extent(4096, 4096),
    };
    assert_eq!(choose_extent(&odd, extent(800, 600)), extent(8000, 0));
}

#[test]
fn only_the_width_marks_an_open_extent() {
    let caps = SurfaceCapabilities {
        min_image_count: 2,
        current_extent: extent(640, UNDEFINED_EXTENT),
        min_image_extent: extent(1, 1),
        max_image_extent: extent(4096, 4096),
    };
    assert_eq!(choose_extent(&caps, extent(800, 600)), extent(640, UNDEFINED_EXTENT));
}

#[test]
fn mailbox_is_chosen_whenever_offered() {
    assert_eq!(choose_present_mode(&vec![mode(0), mode(1), mode(2)]), mode(1));
    assert_eq!(choose_present_mode(&vec![mode(1)]), mode(1));
    assert_eq!(choose_present_mode(&vec![mode(2), mode(3), mode(1)]), mode(1));
}

#[test]
fn fifo_is_chosen_otherwise() {
    assert_eq!(choose_present_mode(&vec![mode(0), mode(2), mode(3)]), mode(2));
    assert_eq!(choose_present_mode(&vec![mode(0), mode(3)]), mode(2));
    assert_eq!(choose_present_mode(&vec![]), mode(2));
}

#[test]
fn present_mode_is_never_a_third() {
    let lists = vec![
        vec![],
        vec![mode(0)],
        vec![mode(3)],
        vec![mode(0), mode(3), mode(1000111000)],
        vec![mode(1), mode(0)],
        vec![mode(2), mode(1)],
    ];
    for list in lists.iter() {
        let chosen = choose_present_mode(list);
        assert!(chosen == mode(PRESENT_MODE_MAILBOX) || chosen == mode(PRESENT_MODE_FIFO));
        assert_eq!(chosen == mode(PRESENT_MODE_MAILBOX), list.contains(&mode(1)));
    }
}

#[test]
fn sharing_is_concurrent_only_between_different_families() {
    assert_eq!(
        choose_sharing(QueueFamilies { graphics: 0, present: 0 }),
        ImageSharing::Exclusive
    );
    assert_eq!(
        choose_sharing(QueueFamilies { graphics: 0, present: 2 }),
        ImageSharing::Concurrent { graphics: 0, present: 2 }
    );
}

#[test]
fn plan_for_an_open_surface_with_three_images() {
    let caps = open_caps(3);
    let formats = vec![format(44, 0), format(50, 0)];
    let modes = vec![mode(2), mode(1)];
    let plan = plan_swapchain(
        &caps,
        &formats,
        &modes,
        extent(800, 600),
        QueueFamilies { graphics: 0, present: 0 },
        2,
    );
    assert_eq!(plan.extent, extent(800, 600));
    assert_eq!(plan.min_image_count, 3);
    assert_eq!(plan.format, format(50, 0));
    assert_eq!(plan.present_mode, mode(1));
    assert_eq!(plan.sharing, ImageSharing::Exclusive);
    assert_eq!(plan.image_array_layers, 1);
    assert_eq!(plan.image_usage, 0x11);
    assert_eq!(plan.pre_transform, 0x1);
    assert_eq!(plan.composite_alpha, 0x1);
    assert!(plan.clipped);
}

#[test]
fn plan_asks_for_a_slot_per_image_at_least() {
    let caps = open_caps(1);
    let formats = vec![format(44, 0)];
    let modes = vec![mode(2)];
    let plan = plan_swapchain(
        &caps,
        &formats,
        &modes,
        extent(5000, 0),
        QueueFamilies { graphics: 1, present: 3 },
        2,
    );
    assert_eq!(plan.min_image_count, 2);
    assert_eq!(plan.extent, extent(4096, 1));
    assert_eq!(plan.format, format(44, 0));
    assert_eq!(plan.present_mode, mode(2));
    assert_eq!(plan.sharing, ImageSharing::Concurrent { graphics: 1, present: 3 });
}
