use ash::vk;
use ash::vk::Handle;
use grapheme::apparatus::{
    image_view_for, pipeline_for, render_pass_for, vertex_buffer_size, Apparatus,
    ChannelMapping, CullMode, DestroyCommand, FrontFace, ImageAspect, ImageLayout,
    ImageViewType, LoadOp, PolygonMode, Recording, StoreOp, Topology,
    FORMAT_R32G32B32_SFLOAT, FORMAT_R32G32_SFLOAT, VERTEX_COUNT,
};
use grapheme::builder::{ApparatusBuilder, BuildAction, BuildFailure, BuildStage, Created};
use grapheme::surface::{
    ColorSpace, Extent2D, Format, PresentMode, QueueFamilies, SurfaceCapabilities,
    SurfaceFormat, UNDEFINED_EXTENT,
};

fn h<T: Handle>(raw: u64) -> T {
    T::from_raw(raw)
}

fn hs<T: Handle>(raw: &[u64]) -> Vec<T> {
    raw.iter().map(|r| T::from_raw(*r)).collect()
}

fn vertex_buffer() -> vk::Buffer {
    h(900)
}

fn pool() -> vk::CommandPool {
    h(800)
}

fn srgb() -> SurfaceFormat {
    SurfaceFormat { format: Format { raw: 50 }, color_space: ColorSpace { raw: 0 } }
}

fn caps(min_image_count: u32) -> SurfaceCapabilities {
    SurfaceCapabilities {
        min_image_count,
        current_extent: Extent2D { width: UNDEFINED_EXTENT, height: UNDEFINED_EXTENT },
        min_image_extent: Extent2D { width: 1, height: 1 },
        max_image_extent: Extent2D { width: 4096, height: 4096 },
    }
}

fn start(slot_count: u32) -> ApparatusBuilder {
    Apparatus::new(QueueFamilies { graphics: 0, present: 0 }, pool(), slot_count, vertex_buffer())
}

/// Answers the query of the surface: three images at least, format sRGB,
/// FIFO only, an open extent and a window of 800 by 600.
fn answer_query(builder: &mut ApparatusBuilder) {
    builder.surface_queried(
        caps(3),
        vec![srgb()],
        &vec![PresentMode { raw: 2 }],
        Extent2D { width: 800, height: 600 },
    );
}

/// A construction that has asked the surface and is about to create the
/// image chain.
fn queried(slot_count: u32) -> ApparatusBuilder {
    let mut builder = start(slot_count);
    answer_query(&mut builder);
    builder
}

/// The object that the device hands back for an operation that creates one.
fn object_for(action: &BuildAction, raw: u64) -> Option<Created> {
    match action {
        BuildAction::CreateSwapchain(_) => Some(Created::Swapchain(h(raw))),
        BuildAction::CreateImageView { .. } => Some(Created::ImageView(h(raw))),
        BuildAction::CreateRenderPass(_) => Some(Created::RenderPass(h(raw))),
        BuildAction::CreateFramebuffer { .. } => Some(Created::Framebuffer(h(raw))),
        BuildAction::CreatePipelineLayout => Some(Created::PipelineLayout(h(raw))),
        BuildAction::CreateGraphicsPipeline { .. } => Some(Created::Pipeline(h(raw))),
        BuildAction::CreateSemaphore => Some(Created::Semaphore(h(raw))),
        BuildAction::CreateFence { .. } => Some(Created::Fence(h(raw))),
        _ => None,
    }
}

/// Carries out every operation the builder asks for, handing out handles
/// `first_handle`, `first_handle + 1`, ... and `image_count` images.
fn build(builder: &mut ApparatusBuilder, image_count: u64, first_handle: u64) -> Vec<BuildAction> {
    let mut actions = Vec::new();
    let mut next = first_handle;
    loop {
        let action = builder.next_action();
        actions.push(action);
        match action {
            BuildAction::Finished | BuildAction::Fatal { .. } => return actions,
            BuildAction::QuerySurface => answer_query(builder),
            BuildAction::GetSwapchainImages { .. } => {
                builder.images_fetched((0..image_count).map(|i| h(10 + i)).collect());
            }
            BuildAction::AllocateCommandBuffers { count, .. } => {
                builder.command_buffers_allocated((0..count as u64).map(|i| h(70 + i)).collect());
            }
            BuildAction::RecordCommands(_) => builder.recorded(),
            BuildAction::Destroy(_) => builder.destroyed(),
            other => {
                builder.created(object_for(&other, next).unwrap());
                next += 1;
            }
        }
        assert!(actions.len() < 1000);
    }
}

/// Carries the construction on until `stage` is what is due.
fn build_until(builder: &mut ApparatusBuilder, wanted: fn(&BuildAction) -> bool) {
    let mut next = 1;
    loop {
        let action = builder.next_action();
        if wanted(&action) {
            return;
        }
        match action {
            BuildAction::QuerySurface => answer_query(builder),
            BuildAction::GetSwapchainImages { .. } => builder.images_fetched(hs(&[10, 11])),
            BuildAction::AllocateCommandBuffers { .. } => {
                builder.command_buffers_allocated(hs(&[70, 71]))
            }
            BuildAction::RecordCommands(_) => builder.recorded(),
            BuildAction::Destroy(_) => builder.destroyed(),
            BuildAction::Finished | BuildAction::Fatal { .. } => panic!("never due: {:?}", action),
            other => {
                builder.created(object_for(&other, next).unwrap());
                next += 1;
            }
        }
    }
}

#[test]
fn vertex_format_codes_agree_with_ash() {
    assert_eq!(FORMAT_R32G32_SFLOAT, vk::Format::R32G32_SFLOAT.as_raw());
    assert_eq!(FORMAT_R32G32B32_SFLOAT, vk::Format::R32G32B32_SFLOAT.as_raw());
}

#[test]
fn image_view_is_two_dimensional_color_identity() {
    let view = image_view_for(Format { raw: 50 });
    assert_eq!(view.format, Format { raw: 50 });
    assert_eq!(view.view_type, ImageViewType::Type2D);
    assert_eq!(view.channels, ChannelMapping::Identity);
    assert_eq!(view.aspect, ImageAspect::Color);
    assert_eq!((view.base_mip_level, view.level_count), (0, 1));
    assert_eq!((view.base_array_layer, view.layer_count), (0, 1));
}

#[test]
fn render_pass_stores_and_leaves_the_image_presentable() {
    let pass = render_pass_for(Format { raw: 44 });
    assert_eq!(pass.format, Format { raw: 44 });
    assert_eq!(pass.samples, 1);
    assert_eq!(pass.load_op, LoadOp::DontCare);
    assert_eq!(pass.store_op, StoreOp::Store);
    assert_eq!(pass.stencil_load_op, LoadOp::DontCare);
    assert_eq!(pass.stencil_store_op, StoreOp::DontCare);
    assert_eq!(pass.initial_layout, ImageLayout::Undefined);
    assert_eq!(pass.final_layout, ImageLayout::PresentSrc);
    assert_eq!(pass.subpass_attachment, 0);
    assert_eq!(pass.subpass_layout, ImageLayout::ColorAttachmentOptimal);
}

#[test]
fn pipeline_packs_position_and_color_tightly() {
    let extent = Extent2D { width: 800, height: 600 };
    let pipeline = pipeline_for(extent);
    assert_eq!(pipeline.vertex_stride, 20);
    assert_eq!(pipeline.position.location, 0);
    assert_eq!(pipeline.position.binding, 0);
    assert_eq!(pipeline.position.format, Format { raw: 103 });
    assert_eq!(pipeline.position.offset, 0);
    assert_eq!(pipeline.position.size, 8);
    assert_eq!(pipeline.color.location, 1);
    assert_eq!(pipeline.color.binding, 0);
    assert_eq!(pipeline.color.format, Format { raw: 106 });
    assert_eq!(pipeline.color.offset, 8);
    assert_eq!(pipeline.color.size, 12);
    assert_eq!(pipeline.topology, Topology::TriangleList);
    assert_eq!(pipeline.viewport, extent);
    assert_eq!(pipeline.polygon_mode, PolygonMode::Fill);
    assert_eq!(pipeline.color_write_mask, 0xF);
    assert_eq!(pipeline.color_write_mask, vk::ColorComponentFlags::all().as_raw());
    assert_eq!(pipeline.cull_mode, CullMode::Back);
    assert_eq!(pipeline.front_face, FrontFace::CounterClockwise);
    assert_eq!(pipeline.samples, 1);
    assert!(!pipeline.blend_enable);
    assert_eq!(pipeline.subpass, 0);
}

#[test]
fn vertex_data_takes_a_stride_per_vertex() {
    assert_eq!(vertex_buffer_size(), 60);
    assert_eq!(vertex_buffer_size(), 15 * std::mem::size_of::<f32>());
}

#[test]
fn construction_with_two_slots_and_three_images() {
    let mut builder = start(2);
    assert!(!builder.is_complete());
    let actions = build(&mut builder, 3, 100);
    let extent = Extent2D { width: 800, height: 600 };
    let format = Format { raw: 50 };
    // handles: swapchain 100, views 101..103, render pass 104, framebuffers
    // 105..107, layout 108, pipeline 109, then per slot semaphore, semaphore, fence
    let recording = |slot: u64| Recording {
        command_buffer: h(70 + slot),
        simultaneous_use: true,
        render_pass: h(104),
        framebuffer: h(105 + slot),
        render_area: extent,
        pipeline: h(109),
        vertex_buffer: vertex_buffer(),
        vertex_count: 3,
        instance_count: 1,
    };
    let view =
        |image: u64| BuildAction::CreateImageView { image: h(image), desc: image_view_for(format) };
    let framebuffer = |view: u64| BuildAction::CreateFramebuffer {
        render_pass: h(104),
        view: h(view),
        extent,
        layers: 1,
    };
    let expected = vec![
        BuildAction::QuerySurface,
        actions[1],
        BuildAction::GetSwapchainImages { swapchain: h(100) },
        view(10),
        view(11),
        view(12),
        BuildAction::CreateRenderPass(render_pass_for(format)),
        framebuffer(101),
        framebuffer(102),
        framebuffer(103),
        BuildAction::CreatePipelineLayout,
        BuildAction::CreateGraphicsPipeline {
            layout: h(108),
            render_pass: h(104),
            state: pipeline_for(extent),
        },
        BuildAction::AllocateCommandBuffers { command_pool: pool(), count: 2 },
        BuildAction::RecordCommands(recording(0)),
        BuildAction::RecordCommands(recording(1)),
        BuildAction::CreateSemaphore,
        BuildAction::CreateSemaphore,
        BuildAction::CreateFence { signaled: true },
        BuildAction::CreateSemaphore,
        BuildAction::CreateSemaphore,
        BuildAction::CreateFence { signaled: true },
        BuildAction::Finished,
    ];
    assert_eq!(actions, expected);
    match actions[1] {
        BuildAction::CreateSwapchain(plan) => {
            assert_eq!(plan.extent, extent);
            assert_eq!(plan.min_image_count, 3);
            assert_eq!(plan.format, srgb());
            assert_eq!(plan.present_mode, PresentMode { raw: 2 });
        }
        other => panic!("the image chain comes after the query, not {:?}", other),
    }
    assert_eq!(VERTEX_COUNT, 3);
    assert!(builder.is_complete());

    let apparatus = builder.finish().unwrap();
    assert_eq!(apparatus.surface_caps, caps(3));
    assert_eq!(apparatus.surface_formats, vec![srgb()]);
    assert_eq!(apparatus.swapchain, h(100));
    assert_eq!(apparatus.swapchain_format, format);
    assert_eq!(apparatus.swapchain_extent, extent);
    assert_eq!(apparatus.swapchain_images, hs(&[10, 11, 12]));
    assert_eq!(apparatus.swapchain_imageviews, hs(&[101, 102, 103]));
    assert_eq!(apparatus.render_pass, h(104));
    assert_eq!(apparatus.framebuffers, hs(&[105, 106, 107]));
    assert_eq!(apparatus.pipeline_layout, h(108));
    assert_eq!(apparatus.graphics_pipeline, h(109));
    assert_eq!(apparatus.command_buffers, hs(&[70, 71]));
    assert_eq!(apparatus.image_available_semaphores, hs(&[110, 113]));
    assert_eq!(apparatus.render_finished_semaphores, hs(&[111, 114]));
    assert_eq!(apparatus.command_buffer_complete_fences, hs(&[112, 115]));
    assert_eq!(apparatus.frame_slots(), 2);

    assert_eq!(
        apparatus.destroy(),
        vec![
            DestroyCommand::WaitDeviceIdle,
            DestroyCommand::DestroySemaphore(h(110)),
            DestroyCommand::DestroySemaphore(h(111)),
            DestroyCommand::DestroyFence(h(112)),
            DestroyCommand::DestroySemaphore(h(113)),
            DestroyCommand::DestroySemaphore(h(114)),
            DestroyCommand::DestroyFence(h(115)),
            DestroyCommand::DestroyPipelineLayout(h(108)),
            DestroyCommand::DestroyPipeline(h(109)),
            DestroyCommand::DestroyFramebuffer(h(105)),
            DestroyCommand::DestroyFramebuffer(h(106)),
            DestroyCommand::DestroyFramebuffer(h(107)),
            DestroyCommand::DestroyRenderPass(h(104)),
            DestroyCommand::DestroyImageView(h(101)),
            DestroyCommand::DestroyImageView(h(102)),
            DestroyCommand::DestroyImageView(h(103)),
            DestroyCommand::DestroySwapchain(h(100)),
        ]
    );
}

#[test]
fn construction_with_one_slot_and_one_image() {
    let mut builder = start(1);
    let actions = build(&mut builder, 1, 1);
    // Thirteen operations, then the report that nothing is left to do.
    assert_eq!(actions.len(), 14);
    assert_eq!(actions[13], BuildAction::Finished);
    let apparatus = builder.finish().unwrap();
    assert_eq!(apparatus.swapchain_images.len(), 1);
    assert_eq!(apparatus.swapchain_imageviews.len(), 1);
    assert_eq!(apparatus.framebuffers.len(), 1);
    assert_eq!(apparatus.command_buffers.len(), 1);
    assert_eq!(apparatus.command_buffer_complete_fences.len(), 1);
    assert_eq!(apparatus.destroy().len(), 5 + 3 + 2);
}

#[test]
fn an_unfinished_construction_yields_nothing() {
    let builder = start(2);
    assert!(builder.finish().is_none());
    let mut halfway = queried(2);
    halfway.created(Created::Swapchain(h(1)));
    halfway.images_fetched(hs(&[10, 11]));
    halfway.created(Created::ImageView(h(2)));
    assert!(!halfway.is_complete());
    assert!(halfway.finish().is_none());
}

#[test]
fn a_failed_call_ends_the_construction() {
    let mut builder = queried(2);
    builder.created(Created::Swapchain(h(1)));
    builder.images_fetched(hs(&[10, 11]));
    builder.failed();
    let fatal = BuildAction::Fatal { stage: BuildStage::Views, failure: BuildFailure::DeviceCall };
    assert_eq!(builder.next_action(), fatal);
    builder.created(Created::ImageView(h(5)));
    builder.recorded();
    builder.destroyed();
    builder.images_fetched(hs(&[1]));
    builder.command_buffers_allocated(hs(&[1, 2]));
    answer_query(&mut builder);
    builder.failed();
    assert_eq!(builder.next_action(), fatal);
    assert!(!builder.is_complete());
    assert!(builder.finish().is_none());
}

#[test]
fn a_result_of_the_wrong_kind_ends_the_construction() {
    let unexpected = |stage| BuildAction::Fatal { stage, failure: BuildFailure::UnexpectedResult };

    let mut builder = queried(2);
    builder.images_fetched(hs(&[10]));
    assert_eq!(builder.next_action(), unexpected(BuildStage::Swapchain));

    let mut builder = queried(2);
    builder.created(Created::Swapchain(h(1)));
    builder.created(Created::ImageView(h(2)));
    assert_eq!(builder.next_action(), unexpected(BuildStage::Images));

    let mut builder = queried(2);
    builder.recorded();
    assert_eq!(builder.next_action(), unexpected(BuildStage::Swapchain));

    let mut builder = queried(2);
    builder.command_buffers_allocated(hs(&[1, 2]));
    assert_eq!(builder.next_action(), unexpected(BuildStage::Swapchain));

    // Before the surface has been asked nothing can be created, and the
    // surface is asked once.
    let mut builder = start(2);
    builder.created(Created::Swapchain(h(1)));
    assert_eq!(builder.next_action(), unexpected(BuildStage::Query));

    let mut builder = queried(2);
    answer_query(&mut builder);
    assert_eq!(builder.next_action(), unexpected(BuildStage::Swapchain));

    let mut done = start(1);
    build(&mut done, 1, 1);
    done.created(Created::Fence(h(99)));
    assert_eq!(done.next_action(), unexpected(BuildStage::Complete));
}

#[test]
fn an_object_of_another_kind_than_the_one_due_ends_the_construction() {
    let unexpected = |stage| BuildAction::Fatal { stage, failure: BuildFailure::UnexpectedResult };

    let mut builder = queried(2);
    builder.created(Created::Fence(h(1)));
    assert_eq!(builder.next_action(), unexpected(BuildStage::Swapchain));

    let mut builder = start(2);
    build_until(&mut builder, |a| matches!(a, BuildAction::CreateImageView { .. }));
    builder.created(Created::Framebuffer(h(1)));
    assert_eq!(builder.next_action(), unexpected(BuildStage::Views));

    let mut builder = start(2);
    build_until(&mut builder, |a| matches!(a, BuildAction::CreateRenderPass(_)));
    builder.created(Created::ImageView(h(1)));
    assert_eq!(builder.next_action(), unexpected(BuildStage::RenderPass));

    let mut builder = start(2);
    build_until(&mut builder, |a| matches!(a, BuildAction::CreateGraphicsPipeline { .. }));
    builder.created(Created::PipelineLayout(h(1)));
    assert_eq!(builder.next_action(), unexpected(BuildStage::Pipeline));

    // A fence where a semaphore is due, and a semaphore where the fence is.
    let mut builder = start(2);
    build_until(&mut builder, |a| matches!(a, BuildAction::CreateSemaphore));
    builder.created(Created::Fence(h(1)));
    assert_eq!(builder.next_action(), unexpected(BuildStage::SyncObjects));

    let mut builder = start(2);
    build_until(&mut builder, |a| matches!(a, BuildAction::CreateFence { .. }));
    builder.created(Created::Semaphore(h(1)));
    assert_eq!(builder.next_action(), unexpected(BuildStage::SyncObjects));
}

#[test]
fn a_surface_without_formats_ends_the_construction() {
    let mut builder = start(2);
    assert_eq!(builder.next_action(), BuildAction::QuerySurface);
    builder.surface_queried(
        caps(3),
        vec![],
        &vec![PresentMode { raw: 2 }],
        Extent2D { width: 800, height: 600 },
    );
    assert_eq!(
        builder.next_action(),
        BuildAction::Fatal { stage: BuildStage::Query, failure: BuildFailure::NoSurfaceFormat }
    );
    assert!(builder.finish().is_none());
}

#[test]
fn the_plan_is_decided_from_what_the_surface_answers() {
    let mut builder =
        Apparatus::new(QueueFamilies { graphics: 1, present: 2 }, pool(), 2, vertex_buffer());
    builder.surface_queried(
        SurfaceCapabilities {
            min_image_count: 1,
            current_extent: Extent2D { width: 640, height: 480 },
            min_image_extent: Extent2D { width: 1, height: 1 },
            max_image_extent: Extent2D { width: 4096, height: 4096 },
        },
        vec![SurfaceFormat { format: Format { raw: 44 }, color_space: ColorSpace { raw: 0 } }],
        &vec![PresentMode { raw: 0 }, PresentMode { raw: 1 }],
        Extent2D { width: 800, height: 600 },
    );
    match builder.next_action() {
        BuildAction::CreateSwapchain(plan) => {
            assert_eq!(plan.min_image_count, 2);
            assert_eq!(plan.extent, Extent2D { width: 640, height: 480 });
            assert_eq!(plan.format.format, Format { raw: 44 });
            assert_eq!(plan.present_mode, PresentMode { raw: 1 });
            assert_eq!(
                plan.sharing,
                grapheme::surface::ImageSharing::Concurrent { graphics: 1, present: 2 }
            );
        }
        other => panic!("the image chain is due, not {:?}", other),
    }
}

#[test]
fn another_number_of_command_buffers_ends_the_construction() {
    for handed_over in [vec![], vec![70], vec![70, 71, 72]] {
        let mut builder = start(2);
        build_until(&mut builder, |a| matches!(a, BuildAction::AllocateCommandBuffers { .. }));
        assert_eq!(
            builder.next_action(),
            BuildAction::AllocateCommandBuffers { command_pool: pool(), count: 2 }
        );
        builder.command_buffers_allocated(hs(&handed_over));
        assert_eq!(
            builder.next_action(),
            BuildAction::Fatal {
                stage: BuildStage::CommandBuffers,
                failure: BuildFailure::CommandBufferCount,
            }
        );
    }
}

#[test]
fn fewer_images_than_slots_ends_the_construction_at_the_recording() {
    let mut builder = start(2);
    let actions = build(&mut builder, 1, 100);
    let fatal = BuildAction::Fatal {
        stage: BuildStage::Recording,
        failure: BuildFailure::MissingFramebuffer,
    };
    assert_eq!(actions.last(), Some(&fatal));
    // The first slot was recorded before the second was found to have no image.
    let recordings = actions.iter().filter(|a| matches!(a, BuildAction::RecordCommands(_))).count();
    assert_eq!(recordings, 1);
    builder.recorded();
    assert_eq!(builder.next_action(), fatal);
    assert!(builder.finish().is_none());
}

#[test]
fn no_image_at_all_skips_views_and_framebuffers() {
    let mut builder = start(1);
    let actions = build(&mut builder, 0, 100);
    assert!(!actions.iter().any(|a| matches!(a, BuildAction::CreateImageView { .. })));
    assert!(!actions.iter().any(|a| matches!(a, BuildAction::CreateFramebuffer { .. })));
    assert_eq!(
        actions.last(),
        Some(&BuildAction::Fatal {
            stage: BuildStage::Recording,
            failure: BuildFailure::MissingFramebuffer,
        })
    );
}

#[test]
fn a_rebuild_tears_down_before_it_creates() {
    let mut builder = start(2);
    build(&mut builder, 3, 100);
    let old = builder.finish().unwrap();
    let mut rebuild =
        old.rebuild(QueueFamilies { graphics: 0, present: 0 }, pool(), vertex_buffer());
    let teardown = old.destroy();
    assert_eq!(teardown.len(), 17);
    let mut actions = Vec::new();
    for command in teardown.iter() {
        assert_eq!(rebuild.next_action(), BuildAction::Destroy(*command));
        actions.push(rebuild.next_action());
        rebuild.destroyed();
    }
    // Only now is the surface asked, and it answers otherwise than before.
    assert_eq!(rebuild.next_action(), BuildAction::QuerySurface);
    rebuild.surface_queried(
        caps(2),
        vec![srgb()],
        &vec![PresentMode { raw: 1 }],
        Extent2D { width: 1024, height: 768 },
    );
    actions.extend(build(&mut rebuild, 2, 500));
    assert!(matches!(actions[17], BuildAction::CreateSwapchain(_)));
    let destroys = actions.iter().filter(|a| matches!(a, BuildAction::Destroy(_))).count();
    assert_eq!(destroys, 17);
    assert_eq!(actions.last(), Some(&BuildAction::Finished));
    let new = rebuild.finish().unwrap();
    assert_eq!(new.frame_slots(), 2);
    assert_eq!(new.swapchain, h(500));
    assert_eq!(new.swapchain_extent, Extent2D { width: 1024, height: 768 });
    assert_eq!(new.swapchain_images.len(), 2);
}

#[test]
fn a_result_during_the_teardown_ends_the_rebuild() {
    let mut builder = start(1);
    build(&mut builder, 1, 100);
    let old = builder.finish().unwrap();
    let fresh =
        || old.rebuild(QueueFamilies { graphics: 0, present: 0 }, pool(), vertex_buffer());
    let unexpected = BuildAction::Fatal {
        stage: BuildStage::Teardown,
        failure: BuildFailure::UnexpectedResult,
    };
    let mut rebuild = fresh();
    assert_eq!(rebuild.next_action(), BuildAction::Destroy(DestroyCommand::WaitDeviceIdle));
    rebuild.created(Created::Swapchain(h(1)));
    assert_eq!(rebuild.next_action(), unexpected);
    let mut rebuild = fresh();
    rebuild.destroyed();
    rebuild.images_fetched(hs(&[1]));
    assert_eq!(rebuild.next_action(), unexpected);
    let mut rebuild = fresh();
    answer_query(&mut rebuild);
    assert_eq!(rebuild.next_action(), unexpected);
    let mut rebuild = fresh();
    rebuild.failed();
    assert_eq!(
        rebuild.next_action(),
        BuildAction::Fatal { stage: BuildStage::Teardown, failure: BuildFailure::DeviceCall }
    );
    // Outside a teardown nothing is destroyed.
    let mut plain = start(1);
    plain.destroyed();
    assert_eq!(
        plain.next_action(),
        BuildAction::Fatal { stage: BuildStage::Query, failure: BuildFailure::UnexpectedResult }
    );
}

#[test]
fn teardown_never_destroys_an_object_before_its_dependents() {
    let mut builder = start(2);
    build(&mut builder, 3, 100);
    let commands = builder.finish().unwrap().destroy();
    let rank = |command: &DestroyCommand| match command {
        DestroyCommand::WaitDeviceIdle => 0,
        DestroyCommand::DestroySemaphore(_) | DestroyCommand::DestroyFence(_) => 1,
        DestroyCommand::DestroyPipelineLayout(_) => 2,
        DestroyCommand::DestroyPipeline(_) => 3,
        DestroyCommand::DestroyFramebuffer(_) => 4,
        DestroyCommand::DestroyRenderPass(_) => 5,
        DestroyCommand::DestroyImageView(_) => 6,
        DestroyCommand::DestroySwapchain(_) => 7,
    };
    for pair in commands.windows(2) {
        assert!(rank(&pair[0]) <= rank(&pair[1]));
    }
    assert_eq!(commands.len(), 5 + 3 * 2 + 2 * 3);
}
