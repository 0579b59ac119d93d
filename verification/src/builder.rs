//! Step-by-step construction of the surface-dependent resources.
//!
//! The builder never touches the device. It names the operation that is due,
//! the caller performs it and reports what came back. The order is fixed by
//! what depends on what: what the surface supports is asked first, then come
//! the image chain, its images, a view per image, the render pass, a
//! framebuffer per view, the pipeline layout and pipeline, a command buffer
//! per frame slot, their recordings, and last the semaphores and fence of
//! each slot. Where resources came before, their teardown is due before
//! anything else, all of it.

use vstd::prelude::*;
use ash::vk;
use crate::apparatus::{
    image_view_desc, image_view_for, pipeline_desc, pipeline_for, render_pass_desc,
    render_pass_for, Apparatus, DestroyCommand, ImageViewDesc, PipelineDesc, Recording,
    RenderPassDesc, VERTEX_COUNT,
};
use crate::surface::{
    plan_swapchain, swapchain_plan_for, Extent2D, PresentMode, QueueFamilies,
    SurfaceCapabilities, SurfaceFormat, SwapchainPlan,
};

verus! {

/// What the builder is waiting to have done.
#[derive(Clone, Copy, Debug, PartialEq, Eq, Structural)]
pub enum BuildStage {
    /// The resources that came before are still being torn down.
    Teardown,
    /// What the surface supports is not known yet.
    Query,
    Swapchain,
    Images,
    Views,
    RenderPass,
    Framebuffers,
    PipelineLayout,
    Pipeline,
    CommandBuffers,
    Recording,
    SyncObjects,
    Complete,
}

/// Why a construction cannot go on.
#[derive(Clone, Copy, Debug, PartialEq, Eq, Structural)]
pub enum BuildFailure {
    /// The device reported that the requested operation failed.
    DeviceCall,
    /// A result was reported that the due operation does not produce.
    UnexpectedResult,
    /// The device handed over another number of command buffers than asked for.
    CommandBufferCount,
    /// A frame slot has no target image to record its commands against.
    MissingFramebuffer,
    /// The surface supports no format at all.
    NoSurfaceFormat,
}

/// One device operation, with everything needed to perform it.
#[derive(Clone, Copy, Debug, PartialEq, Eq)]
pub enum BuildAction {
    /// Carry out one step of tearing down the resources that came before.
    Destroy(DestroyCommand),
    /// Ask for the capabilities of the surface, the formats and the present
    /// modes it supports, and the size of the window.
    QuerySurface,
    CreateSwapchain(SwapchainPlan),
    GetSwapchainImages { swapchain: vk::SwapchainKHR },
    CreateImageView { image: vk::Image, desc: ImageViewDesc },
    CreateRenderPass(RenderPassDesc),
    CreateFramebuffer {
        render_pass: vk::RenderPass,
        view: vk::ImageView,
        extent: Extent2D,
        layers: u32,
    },
    /// Create a pipeline layout without descriptor sets or push constants.
    CreatePipelineLayout,
    CreateGraphicsPipeline {
        layout: vk::PipelineLayout,
        render_pass: vk::RenderPass,
        state: PipelineDesc,
    },
    /// Allocate `count` primary command buffers from the pool.
    AllocateCommandBuffers { command_pool: vk::CommandPool, count: u32 },
    RecordCommands(Recording),
    CreateSemaphore,
    CreateFence { signaled: bool },
    /// Nothing is left to do: the resources are complete.
    Finished,
    /// The construction has failed at the given stage and cannot be resumed.
    Fatal { stage: BuildStage, failure: BuildFailure },
}

/// An object that the device has created.
#[derive(Clone, Copy, Debug, PartialEq, Eq)]
pub enum Created {
    Swapchain(vk::SwapchainKHR),
    ImageView(vk::ImageView),
    RenderPass(vk::RenderPass),
    Framebuffer(vk::Framebuffer),
    PipelineLayout(vk::PipelineLayout),
    Pipeline(vk::Pipeline),
    Semaphore(vk::Semaphore),
    Fence(vk::Fence),
}

impl BuildStage {
    /// The place of the stage in a construction.
    pub open spec fn order(self) -> nat {
        match self {
            BuildStage::Teardown => 0,
            BuildStage::Query => 1,
            BuildStage::Swapchain => 2,
            BuildStage::Images => 3,
            BuildStage::Views => 4,
            BuildStage::RenderPass => 5,
            BuildStage::Framebuffers => 6,
            BuildStage::PipelineLayout => 7,
            BuildStage::Pipeline => 8,
            BuildStage::CommandBuffers => 9,
            BuildStage::Recording => 10,
            BuildStage::SyncObjects => 11,
            BuildStage::Complete => 12,
        }
    }
}

/// The state of a construction, as a mathematical value.
pub struct BuildModel {
    pub stage: BuildStage,
    pub failure: Option<BuildFailure>,
    /// The teardown of the resources that came before, if any did.
    pub teardown: Seq<DestroyCommand>,
    /// How many steps of the teardown have been carried out.
    pub torn_down: nat,
    pub slot_count: u32,
    pub queues: QueueFamilies,
    pub command_pool: vk::CommandPool,
    pub vertex_buffer: vk::Buffer,
    /// What the surface was found to support, once it has been asked.
    pub caps: Option<SurfaceCapabilities>,
    pub formats: Seq<SurfaceFormat>,
    /// The parameters decided for the image chain, once the surface is known.
    pub plan: Option<SwapchainPlan>,
    pub swapchain: Option<vk::SwapchainKHR>,
    pub images: Seq<vk::Image>,
    pub views: Seq<vk::ImageView>,
    pub render_pass: Option<vk::RenderPass>,
    pub framebuffers: Seq<vk::Framebuffer>,
    pub pipeline_layout: Option<vk::PipelineLayout>,
    pub pipeline: Option<vk::Pipeline>,
    pub command_buffers: Seq<vk::CommandBuffer>,
    pub recorded: nat,
    pub image_available: Seq<vk::Semaphore>,
    pub render_finished: Seq<vk::Semaphore>,
    pub fences: Seq<vk::Fence>,
}

impl BuildModel {
    /// The state before anything has been created, where nothing came before.
    pub open spec fn start(
        queues: QueueFamilies,
        command_pool: vk::CommandPool,
        slot_count: u32,
        vertex_buffer: vk::Buffer,
    ) -> BuildModel {
        Self::restart(Seq::empty(), queues, command_pool, slot_count, vertex_buffer)
    }

    /// The state before anything has been created, with the teardown of the
    /// resources that came before still to be carried out.
    pub open spec fn restart(
        teardown: Seq<DestroyCommand>,
        queues: QueueFamilies,
        command_pool: vk::CommandPool,
        slot_count: u32,
        vertex_buffer: vk::Buffer,
    ) -> BuildModel {
        BuildModel {
            stage: if teardown.len() > 0 {
                BuildStage::Teardown
            } else {
                BuildStage::Query
            },
            failure: None,
            teardown,
            torn_down: 0,
            slot_count,
            queues,
            command_pool,
            vertex_buffer,
            caps: None,
            formats: Seq::empty(),
            plan: None,
            swapchain: None,
            images: Seq::empty(),
            views: Seq::empty(),
            render_pass: None,
            framebuffers: Seq::empty(),
            pipeline_layout: None,
            pipeline: None,
            command_buffers: Seq::empty(),
            recorded: 0,
            image_available: Seq::empty(),
            render_finished: Seq::empty(),
            fences: Seq::empty(),
        }
    }

    /// Nothing of a later stage exists before the objects of this stage, and
    /// nothing at all before the teardown of what came before is over.
    pub open spec fn wf(self) -> bool {
        &&& self.slot_count > 0
        &&& self.torn_down <= self.teardown.len()
        &&& self.stage == BuildStage::Teardown <==> self.torn_down < self.teardown.len()
        &&& self.caps is Some <==> self.stage.order() > BuildStage::Query.order()
        &&& self.plan is Some <==> self.stage.order() > BuildStage::Query.order()
        &&& self.plan is Some ==> self.formats.len() > 0
        &&& self.swapchain is Some <==> self.stage.order() > BuildStage::Swapchain.order()
        &&& self.render_pass is Some <==> self.stage.order() > BuildStage::RenderPass.order()
        &&& self.pipeline_layout is Some <==> self.stage.order()
            > BuildStage::PipelineLayout.order()
        &&& self.pipeline is Some <==> self.stage.order() > BuildStage::Pipeline.order()
        &&& self.views.len() <= self.images.len()
        &&& self.framebuffers.len() <= self.views.len()
        &&& self.recorded <= self.command_buffers.len()
        &&& self.recorded <= self.framebuffers.len()
        &&& self.command_buffers.len() == 0 || self.command_buffers.len() == self.slot_count
        &&& self.fences.len() <= self.render_finished.len() <= self.image_available.len()
            <= self.fences.len() + 1
        &&& self.image_available.len() <= self.slot_count
        &&& match self.stage {
            BuildStage::Teardown | BuildStage::Query | BuildStage::Swapchain
            | BuildStage::Images => self.images.len() == 0,
            BuildStage::Views => {
                &&& self.views.len() < self.images.len()
                &&& self.framebuffers.len() == 0
            },
            BuildStage::RenderPass => {
                &&& self.views.len() == self.images.len()
                &&& self.framebuffers.len() == 0
            },
            BuildStage::Framebuffers => {
                &&& self.views.len() == self.images.len()
                &&& self.framebuffers.len() < self.views.len()
            },
            BuildStage::PipelineLayout | BuildStage::Pipeline | BuildStage::CommandBuffers
            | BuildStage::Recording | BuildStage::SyncObjects | BuildStage::Complete => {
                &&& self.views.len() == self.images.len()
                &&& self.framebuffers.len() == self.views.len()
            },
        }
        &&& match self.stage {
            BuildStage::Recording => {
                &&& self.command_buffers.len() == self.slot_count
                &&& self.recorded < self.slot_count
            },
            BuildStage::SyncObjects | BuildStage::Complete => {
                &&& self.command_buffers.len() == self.slot_count
                &&& self.recorded == self.slot_count
            },
            _ => self.command_buffers.len() == 0,
        }
        &&& match self.stage {
            BuildStage::SyncObjects => self.fences.len() < self.slot_count,
            BuildStage::Complete => {
                &&& self.fences.len() == self.slot_count
                &&& self.render_finished.len() == self.slot_count
                &&& self.image_available.len() == self.slot_count
            },
            _ => self.image_available.len() == 0,
        }
    }

    /// Whether every resource exists.
    pub open spec fn complete(self) -> bool {
        self.failure is None && self.stage == BuildStage::Complete
    }

    /// The commands recorded for the frame slot that is next to be recorded.
    pub open spec fn recording(self) -> Recording {
        Recording {
            command_buffer: self.command_buffers[self.recorded as int],
            simultaneous_use: true,
            render_pass: self.render_pass.unwrap(),
            framebuffer: self.framebuffers[self.recorded as int],
            render_area: self.plan.unwrap().extent,
            pipeline: self.pipeline.unwrap(),
            vertex_buffer: self.vertex_buffer,
            vertex_count: VERTEX_COUNT,
            instance_count: 1,
        }
    }

    /// Whether, among the synchronization objects, a semaphore is due rather
    /// than a fence: each slot gets its two semaphores first.
    pub open spec fn semaphore_due(self) -> bool {
        self.render_finished.len() == self.fences.len()
    }

    /// The operation that is due.
    pub open spec fn action(self) -> BuildAction {
        match self.failure {
            Some(failure) => BuildAction::Fatal { stage: self.stage, failure },
            None => match self.stage {
                BuildStage::Teardown => BuildAction::Destroy(self.teardown[self.torn_down as int]),
                BuildStage::Query => BuildAction::QuerySurface,
                BuildStage::Swapchain => BuildAction::CreateSwapchain(self.plan.unwrap()),
                BuildStage::Images => BuildAction::GetSwapchainImages {
                    swapchain: self.swapchain.unwrap(),
                },
                BuildStage::Views => BuildAction::CreateImageView {
                    image: self.images[self.views.len() as int],
                    desc: image_view_desc(self.plan.unwrap().format.format),
                },
                BuildStage::RenderPass => BuildAction::CreateRenderPass(
                    render_pass_desc(self.plan.unwrap().format.format),
                ),
                BuildStage::Framebuffers => BuildAction::CreateFramebuffer {
                    render_pass: self.render_pass.unwrap(),
                    view: self.views[self.framebuffers.len() as int],
                    extent: self.plan.unwrap().extent,
                    layers: 1,
                },
                BuildStage::PipelineLayout => BuildAction::CreatePipelineLayout,
                BuildStage::Pipeline => BuildAction::CreateGraphicsPipeline {
                    layout: self.pipeline_layout.unwrap(),
                    render_pass: self.render_pass.unwrap(),
                    state: pipeline_desc(self.plan.unwrap().extent),
                },
                BuildStage::CommandBuffers => BuildAction::AllocateCommandBuffers {
                    command_pool: self.command_pool,
                    count: self.slot_count,
                },
                BuildStage::Recording => if self.recorded < self.framebuffers.len() {
                    BuildAction::RecordCommands(self.recording())
                } else {
                    BuildAction::Fatal {
                        stage: BuildStage::Recording,
                        failure: BuildFailure::MissingFramebuffer,
                    }
                },
                BuildStage::SyncObjects => if self.semaphore_due() {
                    BuildAction::CreateSemaphore
                } else {
                    BuildAction::CreateFence { signaled: true }
                },
                BuildStage::Complete => BuildAction::Finished,
            },
        }
    }

    /// The same state, failed for the given reason.
    pub open spec fn fail(self, failure: BuildFailure) -> BuildModel {
        BuildModel { failure: Some(failure), ..self }
    }

    /// The state after one step of the teardown has been carried out.
    pub open spec fn on_destroyed(self) -> BuildModel {
        if self.failure is Some {
            self
        } else if self.stage == BuildStage::Teardown {
            BuildModel {
                torn_down: self.torn_down + 1,
                stage: if self.torn_down + 1 == self.teardown.len() {
                    BuildStage::Query
                } else {
                    BuildStage::Teardown
                },
                ..self
            }
        } else {
            self.fail(BuildFailure::UnexpectedResult)
        }
    }

    /// The state after the surface has told what it supports. The
    /// parameters of the image chain are decided from it; a surface without
    /// any format ends the construction.
    pub open spec fn on_surface_queried(
        self,
        caps: SurfaceCapabilities,
        formats: Seq<SurfaceFormat>,
        present_modes: Seq<PresentMode>,
        window: Extent2D,
    ) -> BuildModel {
        if self.failure is Some {
            self
        } else if self.stage == BuildStage::Query {
            if formats.len() == 0 {
                self.fail(BuildFailure::NoSurfaceFormat)
            } else {
                BuildModel {
                    caps: Some(caps),
                    formats,
                    plan: Some(
                        swapchain_plan_for(
                            caps,
                            formats,
                            present_modes,
                            window,
                            self.queues,
                            self.slot_count,
                        ),
                    ),
                    stage: BuildStage::Swapchain,
                    ..self
                }
            }
        } else {
            self.fail(BuildFailure::UnexpectedResult)
        }
    }

    /// The state after the due operation has created `object`. An object of
    /// another kind than the one that was due ends the construction.
    pub open spec fn on_created(self, object: Created) -> BuildModel {
        if self.failure is Some {
            self
        } else {
            match (self.stage, object) {
                (BuildStage::Swapchain, Created::Swapchain(swapchain)) => BuildModel {
                    swapchain: Some(swapchain),
                    stage: BuildStage::Images,
                    ..self
                },
                (BuildStage::Views, Created::ImageView(view)) => BuildModel {
                    views: self.views.push(view),
                    stage: if self.views.len() + 1 == self.images.len() {
                        BuildStage::RenderPass
                    } else {
                        BuildStage::Views
                    },
                    ..self
                },
                (BuildStage::RenderPass, Created::RenderPass(render_pass)) => BuildModel {
                    render_pass: Some(render_pass),
                    stage: if self.views.len() == 0 {
                        BuildStage::PipelineLayout
                    } else {
                        BuildStage::Framebuffers
                    },
                    ..self
                },
                (BuildStage::Framebuffers, Created::Framebuffer(framebuffer)) => BuildModel {
                    framebuffers: self.framebuffers.push(framebuffer),
                    stage: if self.framebuffers.len() + 1 == self.views.len() {
                        BuildStage::PipelineLayout
                    } else {
                        BuildStage::Framebuffers
                    },
                    ..self
                },
                (BuildStage::PipelineLayout, Created::PipelineLayout(layout)) => BuildModel {
                    pipeline_layout: Some(layout),
                    stage: BuildStage::Pipeline,
                    ..self
                },
                (BuildStage::Pipeline, Created::Pipeline(pipeline)) => BuildModel {
                    pipeline: Some(pipeline),
                    stage: BuildStage::CommandBuffers,
                    ..self
                },
                (BuildStage::SyncObjects, Created::Semaphore(semaphore)) => {
                    if !self.semaphore_due() {
                        self.fail(BuildFailure::UnexpectedResult)
                    } else if self.image_available.len() == self.fences.len() {
                        BuildModel { image_available: self.image_available.push(semaphore), ..self }
                    } else {
                        BuildModel { render_finished: self.render_finished.push(semaphore), ..self }
                    }
                },
                (BuildStage::SyncObjects, Created::Fence(fence)) => if self.semaphore_due() {
                    self.fail(BuildFailure::UnexpectedResult)
                } else {
                    BuildModel {
                        fences: self.fences.push(fence),
                        stage: if self.fences.len() + 1 == self.slot_count {
                            BuildStage::Complete
                        } else {
                            BuildStage::SyncObjects
                        },
                        ..self
                    }
                },
                _ => self.fail(BuildFailure::UnexpectedResult),
            }
        }
    }

    /// The state after the image chain has handed over its images.
    pub open spec fn on_images(self, images: Seq<vk::Image>) -> BuildModel {
        if self.failure is Some {
            self
        } else if self.stage == BuildStage::Images {
            BuildModel {
                images,
                stage: if images.len() == 0 {
                    BuildStage::RenderPass
                } else {
                    BuildStage::Views
                },
                ..self
            }
        } else {
            self.fail(BuildFailure::UnexpectedResult)
        }
    }

    /// The state after command buffers have been allocated.
    pub open spec fn on_command_buffers(self, buffers: Seq<vk::CommandBuffer>) -> BuildModel {
        if self.failure is Some {
            self
        } else if self.stage == BuildStage::CommandBuffers {
            if buffers.len() == self.slot_count {
                BuildModel { command_buffers: buffers, stage: BuildStage::Recording, ..self }
            } else {
                self.fail(BuildFailure::CommandBufferCount)
            }
        } else {
            self.fail(BuildFailure::UnexpectedResult)
        }
    }

    /// The state after the commands of one frame slot have been recorded.
    pub open spec fn on_recorded(self) -> BuildModel {
        if self.failure is Some {
            self
        } else if self.stage == BuildStage::Recording {
            if self.recorded < self.framebuffers.len() {
                BuildModel {
                    recorded: self.recorded + 1,
                    stage: if self.recorded + 1 == self.slot_count {
                        BuildStage::SyncObjects
                    } else {
                        BuildStage::Recording
                    },
                    ..self
                }
            } else {
                self.fail(BuildFailure::MissingFramebuffer)
            }
        } else {
            self.fail(BuildFailure::UnexpectedResult)
        }
    }

    /// The state after the device has reported that the due operation failed.
    pub open spec fn on_failed(self) -> BuildModel {
        if self.failure is Some {
            self
        } else {
            self.fail(BuildFailure::DeviceCall)
        }
    }

    /// A measure of what is left to do. Once the images of the image chain
    /// are known, it is the number of results still to be reported before
    /// the resources are complete; before that, the number of results up to
    /// and with the images. Every result that was due lowers it by one,
    /// except the images, which set it anew.
    pub open spec fn remaining(self) -> int {
        let images = self.images.len() as int;
        let slots = self.slot_count as int;
        let per_image = (images - self.views.len()) + (images - self.framebuffers.len());
        let per_slot = (slots - self.recorded) + (slots - self.image_available.len()) + (slots
            - self.render_finished.len()) + (slots - self.fences.len());
        match self.stage {
            BuildStage::Teardown => 3 + (self.teardown.len() - self.torn_down),
            BuildStage::Query => 3,
            BuildStage::Swapchain => 2,
            BuildStage::Images => 1,
            BuildStage::Views | BuildStage::RenderPass => 4 + per_image + per_slot,
            BuildStage::Framebuffers | BuildStage::PipelineLayout => 3 + per_image + per_slot,
            BuildStage::Pipeline => 2 + per_image + per_slot,
            BuildStage::CommandBuffers => 1 + per_image + per_slot,
            BuildStage::Recording | BuildStage::SyncObjects | BuildStage::Complete => per_image
                + per_slot,
        }
    }
}

/// A construction in progress: what has been created so far, and what is due.
pub struct ApparatusBuilder {
    stage: BuildStage,
    failure: Option<BuildFailure>,
    teardown: Vec<DestroyCommand>,
    torn_down: usize,
    slot_count: u32,
    queues: QueueFamilies,
    command_pool: vk::CommandPool,
    vertex_buffer: vk::Buffer,
    caps: Option<SurfaceCapabilities>,
    formats: Vec<SurfaceFormat>,
    plan: Option<SwapchainPlan>,
    swapchain: Option<vk::SwapchainKHR>,
    images: Vec<vk::Image>,
    views: Vec<vk::ImageView>,
    render_pass: Option<vk::RenderPass>,
    framebuffers: Vec<vk::Framebuffer>,
    pipeline_layout: Option<vk::PipelineLayout>,
    pipeline: Option<vk::Pipeline>,
    command_buffers: Vec<vk::CommandBuffer>,
    recorded: usize,
    image_available: Vec<vk::Semaphore>,
    render_finished: Vec<vk::Semaphore>,
    fences: Vec<vk::Fence>,
}

impl View for ApparatusBuilder {
    type V = BuildModel;

    closed spec fn view(&self) -> BuildModel {
        BuildModel {
            stage: self.stage,
            failure: self.failure,
            teardown: self.teardown@,
            torn_down: self.torn_down as nat,
            slot_count: self.slot_count,
            queues: self.queues,
            command_pool: self.command_pool,
            vertex_buffer: self.vertex_buffer,
            caps: self.caps,
            formats: self.formats@,
            plan: self.plan,
            swapchain: self.swapchain,
            images: self.images@,
            views: self.views@,
            render_pass: self.render_pass,
            framebuffers: self.framebuffers@,
            pipeline_layout: self.pipeline_layout,
            pipeline: self.pipeline,
            command_buffers: self.command_buffers@,
            recorded: self.recorded as nat,
            image_available: self.image_available@,
            render_finished: self.render_finished@,
            fences: self.fences@,
        }
    }
}

impl ApparatusBuilder {
    /// Whether the builder's state is one that a construction can reach.
    pub open spec fn wf(&self) -> bool {
        self@.wf()
    }

    /// Names the device operation that is due.
    pub fn next_action(&self) -> (action: BuildAction)
        requires
            self.wf(),
        ensures
            action == self@.action(),
    {
        match self.failure {
            Some(failure) => BuildAction::Fatal { stage: self.stage, failure },
            None => match self.stage {
                BuildStage::Teardown => BuildAction::Destroy(self.teardown[self.torn_down]),
                BuildStage::Query => BuildAction::QuerySurface,
                BuildStage::Swapchain => BuildAction::CreateSwapchain(self.plan.unwrap()),
                BuildStage::Images => BuildAction::GetSwapchainImages {
                    swapchain: self.swapchain.unwrap(),
                },
                BuildStage::Views => BuildAction::CreateImageView {
                    image: self.images[self.views.len()],
                    desc: image_view_for(self.plan.unwrap().format.format),
                },
                BuildStage::RenderPass => BuildAction::CreateRenderPass(
                    render_pass_for(self.plan.unwrap().format.format),
                ),
                BuildStage::Framebuffers => BuildAction::CreateFramebuffer {
                    render_pass: self.render_pass.unwrap(),
                    view: self.views[self.framebuffers.len()],
                    extent: self.plan.unwrap().extent,
                    layers: 1,
                },
                BuildStage::PipelineLayout => BuildAction::CreatePipelineLayout,
                BuildStage::Pipeline => BuildAction::CreateGraphicsPipeline {
                    layout: self.pipeline_layout.unwrap(),
                    render_pass: self.render_pass.unwrap(),
                    state: pipeline_for(self.plan.unwrap().extent),
                },
                BuildStage::CommandBuffers => BuildAction::AllocateCommandBuffers {
                    command_pool: self.command_pool,
                    count: self.slot_count,
                },
                BuildStage::Recording => {
                    if self.recorded < self.framebuffers.len() {
                        BuildAction::RecordCommands(
                            Recording {
                                command_buffer: self.command_buffers[self.recorded],
                                simultaneous_use: true,
                                render_pass: self.render_pass.unwrap(),
                                framebuffer: self.framebuffers[self.recorded],
                                render_area: self.plan.unwrap().extent,
                                pipeline: self.pipeline.unwrap(),
                                vertex_buffer: self.vertex_buffer,
                                vertex_count: VERTEX_COUNT,
                                instance_count: 1,
                            },
                        )
                    } else {
                        BuildAction::Fatal {
                            stage: BuildStage::Recording,
                            failure: BuildFailure::MissingFramebuffer,
                        }
                    }
                },
                BuildStage::SyncObjects => {
                    if self.render_finished.len() == self.fences.len() {
                        BuildAction::CreateSemaphore
                    } else {
                        BuildAction::CreateFence { signaled: true }
                    }
                },
                BuildStage::Complete => BuildAction::Finished,
            },
        }
    }

    /// Whether every resource exists.
    pub fn is_complete(&self) -> (done: bool)
        ensures
            done == self@.complete(),
    {
        self.failure.is_none() && self.stage == BuildStage::Complete
    }

    /// Notes that the due step of the teardown has been carried out.
    pub fn destroyed(&mut self)
        requires
            old(self).wf(),
        ensures
            final(self)@ == old(self)@.on_destroyed(),
            final(self).wf(),
    {
        if self.failure.is_some() {
            return ;
        }
        if self.stage == BuildStage::Teardown {
            let steps = self.teardown.len();
            self.torn_down = self.torn_down + 1;
            if self.torn_down == steps {
                self.stage = BuildStage::Query;
            }
        } else {
            self.failure = Some(BuildFailure::UnexpectedResult);
        }
    }

    /// Takes in what the surface supports and the size of the window, and
    /// decides the parameters of the image chain.
    pub fn surface_queried(
        &mut self,
        caps: SurfaceCapabilities,
        formats: Vec<SurfaceFormat>,
        present_modes: &Vec<PresentMode>,
        window: Extent2D,
    )
        requires
            old(self).wf(),
        ensures
            final(self)@ == old(self)@.on_surface_queried(caps, formats@, present_modes@, window),
            final(self).wf(),
    {
        if self.failure.is_some() {
            return ;
        }
        if self.stage == BuildStage::Query {
            if formats.len() == 0 {
                self.failure = Some(BuildFailure::NoSurfaceFormat);
            } else {
                let plan = plan_swapchain(
                    &caps,
                    &formats,
                    present_modes,
                    window,
                    self.queues,
                    self.slot_count,
                );
                self.caps = Some(caps);
                self.formats = formats;
                self.plan = Some(plan);
                self.stage = BuildStage::Swapchain;
            }
        } else {
            self.failure = Some(BuildFailure::UnexpectedResult);
        }
    }

    /// Takes in the object that the due operation created.
    pub fn created(&mut self, object: Created)
        requires
            old(self).wf(),
        ensures
            final(self)@ == old(self)@.on_created(object),
            final(self).wf(),
    {
        if self.failure.is_some() {
            return ;
        }
        match (self.stage, object) {
            (BuildStage::Swapchain, Created::Swapchain(swapchain)) => {
                self.swapchain = Some(swapchain);
                self.stage = BuildStage::Images;
            },
            (BuildStage::Views, Created::ImageView(view)) => {
                self.views.push(view);
                if self.views.len() == self.images.len() {
                    self.stage = BuildStage::RenderPass;
                }
            },
            (BuildStage::RenderPass, Created::RenderPass(render_pass)) => {
                self.render_pass = Some(render_pass);
                if self.views.len() == 0 {
                    self.stage = BuildStage::PipelineLayout;
                } else {
                    self.stage = BuildStage::Framebuffers;
                }
            },
            (BuildStage::Framebuffers, Created::Framebuffer(framebuffer)) => {
                self.framebuffers.push(framebuffer);
                if self.framebuffers.len() == self.views.len() {
                    self.stage = BuildStage::PipelineLayout;
                }
            },
            (BuildStage::PipelineLayout, Created::PipelineLayout(layout)) => {
                self.pipeline_layout = Some(layout);
                self.stage = BuildStage::Pipeline;
            },
            (BuildStage::Pipeline, Created::Pipeline(pipeline)) => {
                self.pipeline = Some(pipeline);
                self.stage = BuildStage::CommandBuffers;
            },
            (BuildStage::SyncObjects, Created::Semaphore(semaphore)) => {
                if self.render_finished.len() != self.fences.len() {
                    self.failure = Some(BuildFailure::UnexpectedResult);
                } else if self.image_available.len() == self.fences.len() {
                    self.image_available.push(semaphore);
                } else {
                    self.render_finished.push(semaphore);
                }
            },
            (BuildStage::SyncObjects, Created::Fence(fence)) => {
                if self.render_finished.len() == self.fences.len() {
                    self.failure = Some(BuildFailure::UnexpectedResult);
                } else {
                    self.fences.push(fence);
                    if self.fences.len() == self.slot_count as usize {
                        self.stage = BuildStage::Complete;
                    }
                }
            },
            _ => {
                self.failure = Some(BuildFailure::UnexpectedResult);
            },
        }
    }

    /// Takes in the images of the image chain.
    pub fn images_fetched(&mut self, images: Vec<vk::Image>)
        requires
            old(self).wf(),
        ensures
            final(self)@ == old(self)@.on_images(images@),
            final(self).wf(),
    {
        if self.failure.is_some() {
            return ;
        }
        if self.stage == BuildStage::Images {
            if images.len() == 0 {
                self.stage = BuildStage::RenderPass;
            } else {
                self.stage = BuildStage::Views;
            }
            self.images = images;
        } else {
            self.failure = Some(BuildFailure::UnexpectedResult);
        }
    }

    /// Takes in the command buffers that were allocated, one per frame slot.
    pub fn command_buffers_allocated(&mut self, buffers: Vec<vk::CommandBuffer>)
        requires
            old(self).wf(),
        ensures
            final(self)@ == old(self)@.on_command_buffers(buffers@),
            final(self).wf(),
    {
        if self.failure.is_some() {
            return ;
        }
        if self.stage == BuildStage::CommandBuffers {
            if buffers.len() == self.slot_count as usize {
                self.command_buffers = buffers;
                self.stage = BuildStage::Recording;
            } else {
                self.failure = Some(BuildFailure::CommandBufferCount);
            }
        } else {
            self.failure = Some(BuildFailure::UnexpectedResult);
        }
    }

    /// Notes that the commands of one more frame slot have been recorded.
    pub fn recorded(&mut self)
        requires
            old(self).wf(),
        ensures
            final(self)@ == old(self)@.on_recorded(),
            final(self).wf(),
    {
        if self.failure.is_some() {
            return ;
        }
        if self.stage == BuildStage::Recording {
            if self.recorded < self.framebuffers.len() {
                self.recorded = self.recorded + 1;
                if self.recorded == self.slot_count as usize {
                    self.stage = BuildStage::SyncObjects;
                }
            } else {
                self.failure = Some(BuildFailure::MissingFramebuffer);
            }
        } else {
            self.failure = Some(BuildFailure::UnexpectedResult);
        }
    }

    /// Notes that the device could not perform the due operation. Nothing is
    /// asked for after that.
    pub fn failed(&mut self)
        requires
            old(self).wf(),
        ensures
            final(self)@ == old(self)@.on_failed(),
            final(self).wf(),
    {
        if self.failure.is_none() {
            self.failure = Some(BuildFailure::DeviceCall);
        }
    }

    /// Hands over the finished resources, or nothing while any is missing.
    pub fn finish(self) -> (apparatus: Option<Apparatus>)
        requires
            self.wf(),
        ensures
            apparatus is Some <==> self@.complete(),
            apparatus matches Some(a) ==> {
                &&& a.wf()
                &&& a.slot_count() == self@.slot_count
                &&& Some(a.surface_caps) == self@.caps
                &&& a.surface_formats@ == self@.formats
                &&& Some(a.swapchain) == self@.swapchain
                &&& self@.plan is Some
                &&& a.swapchain_format == self@.plan.unwrap().format.format
                &&& a.swapchain_extent == self@.plan.unwrap().extent
                &&& a.swapchain_images@ == self@.images
                &&& a.swapchain_imageviews@ == self@.views
                &&& Some(a.render_pass) == self@.render_pass
                &&& a.framebuffers@ == self@.framebuffers
                &&& Some(a.pipeline_layout) == self@.pipeline_layout
                &&& Some(a.graphics_pipeline) == self@.pipeline
                &&& a.command_buffers@ == self@.command_buffers
                &&& a.image_available_semaphores@ == self@.image_available
                &&& a.render_finished_semaphores@ == self@.render_finished
                &&& a.command_buffer_complete_fences@ == self@.fences
            },
    {
        if self.failure.is_none() && self.stage == BuildStage::Complete {
            Some(
                Apparatus {
                    surface_caps: self.caps.unwrap(),
                    surface_formats: self.formats,
                    swapchain: self.swapchain.unwrap(),
                    swapchain_format: self.plan.unwrap().format.format,
                    swapchain_extent: self.plan.unwrap().extent,
                    swapchain_images: self.images,
                    swapchain_imageviews: self.views,
                    render_pass: self.render_pass.unwrap(),
                    framebuffers: self.framebuffers,
                    pipeline_layout: self.pipeline_layout.unwrap(),
                    graphics_pipeline: self.pipeline.unwrap(),
                    command_buffers: self.command_buffers,
                    image_available_semaphores: self.image_available,
                    render_finished_semaphores: self.render_finished,
                    command_buffer_complete_fences: self.fences,
                },
            )
        } else {
            None
        }
    }
}

impl Apparatus {
    /// Starts the construction of the resources for a surface. The result
    /// names each device operation in turn, the query of the surface first,
    /// and, once all have been carried out, hands over the finished
    /// resources.
    pub fn new(
        queues: QueueFamilies,
        command_pool: vk::CommandPool,
        slot_count: u32,
        vertex_buffer: vk::Buffer,
    ) -> (builder: ApparatusBuilder)
        requires
            slot_count > 0,
        ensures
            builder@ == BuildModel::start(queues, command_pool, slot_count, vertex_buffer),
            builder.wf(),
    {
        ApparatusBuilder {
            stage: BuildStage::Query,
            failure: None,
            teardown: Vec::new(),
            torn_down: 0,
            slot_count,
            queues,
            command_pool,
            vertex_buffer,
            caps: None,
            formats: Vec::new(),
            plan: None,
            swapchain: None,
            images: Vec::new(),
            views: Vec::new(),
            render_pass: None,
            framebuffers: Vec::new(),
            pipeline_layout: None,
            pipeline: None,
            command_buffers: Vec::new(),
            recorded: 0,
            image_available: Vec::new(),
            render_finished: Vec::new(),
            fences: Vec::new(),
        }
    }

    /// Starts the construction of the successors of these resources, for the
    /// same number of frame slots. The construction begins with the teardown
    /// of these resources, the wait for the device first: the surface is
    /// asked and the first successor created only after the last of them is
    /// destroyed.
    pub fn rebuild(
        &self,
        queues: QueueFamilies,
        command_pool: vk::CommandPool,
        vertex_buffer: vk::Buffer,
    ) -> (builder: ApparatusBuilder)
        requires
            self.wf(),
        ensures
            builder@ == BuildModel::restart(
                self.teardown(),
                queues,
                command_pool,
                self.slot_count() as u32,
                vertex_buffer,
            ),
            builder.wf(),
    {
        let slot_count = self.frame_slots();
        let teardown = self.destroy();
        ApparatusBuilder {
            stage: BuildStage::Teardown,
            failure: None,
            teardown,
            torn_down: 0,
            slot_count,
            queues,
            command_pool,
            vertex_buffer,
            caps: None,
            formats: Vec::new(),
            plan: None,
            swapchain: None,
            images: Vec::new(),
            views: Vec::new(),
            render_pass: None,
            framebuffers: Vec::new(),
            pipeline_layout: None,
            pipeline: None,
            command_buffers: Vec::new(),
            recorded: 0,
            image_available: Vec::new(),
            render_finished: Vec::new(),
            fences: Vec::new(),
        }
    }
}

/// Whether `object` is of the kind that the due operation creates.
pub open spec fn creates(action: BuildAction, object: Created) -> bool {
    match (action, object) {
        (BuildAction::CreateSwapchain(_), Created::Swapchain(_)) => true,
        (BuildAction::CreateImageView { .. }, Created::ImageView(_)) => true,
        (BuildAction::CreateRenderPass(_), Created::RenderPass(_)) => true,
        (BuildAction::CreateFramebuffer { .. }, Created::Framebuffer(_)) => true,
        (BuildAction::CreatePipelineLayout, Created::PipelineLayout(_)) => true,
        (BuildAction::CreateGraphicsPipeline { .. }, Created::Pipeline(_)) => true,
        (BuildAction::CreateSemaphore, Created::Semaphore(_)) => true,
        (BuildAction::CreateFence { .. }, Created::Fence(_)) => true,
        _ => false,
    }
}

/// While any step of the teardown is left, that step is what is due, in the
/// order of the teardown: no resource is created while one that came before
/// still exists.
pub proof fn lemma_teardown_comes_first(state: BuildModel)
    requires
        state.wf(),
        state.failure is None,
        state.torn_down < state.teardown.len(),
    ensures
        state.action() == BuildAction::Destroy(state.teardown[state.torn_down as int]),
        state.on_destroyed().wf(),
        state.on_destroyed().torn_down == state.torn_down + 1,
        state.on_destroyed().remaining() == state.remaining() - 1,
        state.plan is None,
        state.swapchain is None,
        state.images.len() == 0,
        state.command_buffers.len() == 0,
        state.fences.len() == 0,
{
}

/// Once the teardown is over, nothing is destroyed any more.
pub proof fn lemma_nothing_destroyed_after_teardown(state: BuildModel)
    requires
        state.wf(),
        state.torn_down == state.teardown.len(),
    ensures
        !(state.action() is Destroy),
{
}

/// The collections are filled in step: the view that becomes the `k`-th is
/// created for the `k`-th image, the `k`-th framebuffer for the `k`-th view,
/// and the `k`-th recording goes into the `k`-th command buffer and draws to
/// the `k`-th framebuffer. Whatever an operation names was created before.
pub proof fn lemma_collections_correspond(
    state: BuildModel,
    view: vk::ImageView,
    framebuffer: vk::Framebuffer,
)
    requires
        state.wf(),
        state.failure is None,
    ensures
        state.action() matches BuildAction::CreateImageView { image, .. } ==> {
            let k = state.views.len() as int;
            &&& k < state.images.len()
            &&& image == state.images[k]
            &&& state.on_created(Created::ImageView(view)).views == state.views.push(view)
            &&& state.on_created(Created::ImageView(view)).images == state.images
        },
        state.action() matches BuildAction::CreateFramebuffer {
            render_pass,
            view: attached,
            extent,
            ..
        } ==> {
            let k = state.framebuffers.len() as int;
            &&& k < state.views.len()
            &&& attached == state.views[k]
            &&& Some(render_pass) == state.render_pass
            &&& extent == state.plan.unwrap().extent
            &&& state.on_created(Created::Framebuffer(framebuffer)).framebuffers
                == state.framebuffers.push(framebuffer)
            &&& state.on_created(Created::Framebuffer(framebuffer)).views == state.views
        },
        state.action() matches BuildAction::RecordCommands(recording) ==> {
            let k = state.recorded as int;
            &&& k < state.command_buffers.len()
            &&& k < state.framebuffers.len()
            &&& recording.command_buffer == state.command_buffers[k]
            &&& recording.framebuffer == state.framebuffers[k]
            &&& Some(recording.render_pass) == state.render_pass
            &&& Some(recording.pipeline) == state.pipeline
            &&& state.on_recorded().recorded == k + 1
        },
        state.action() matches BuildAction::CreateGraphicsPipeline { layout, render_pass, .. }
            ==> Some(layout) == state.pipeline_layout && Some(render_pass) == state.render_pass,
        state.action() matches BuildAction::GetSwapchainImages { swapchain } ==> Some(swapchain)
            == state.swapchain,
{
}

/// Every fence is created signaled, so that the first wait on each frame
/// slot returns at once; and the synchronization objects of a slot are
/// created together: its two semaphores, then its fence.
pub proof fn lemma_fences_are_created_signaled(state: BuildModel)
    requires
        state.wf(),
    ensures
        state.action() matches BuildAction::CreateFence { signaled } ==> signaled
            && state.image_available.len() == state.fences.len() + 1
            && state.render_finished.len() == state.fences.len() + 1,
        state.failure is None && state.stage == BuildStage::SyncObjects
            && state.render_finished.len() == state.fences.len() ==> state.action()
            == BuildAction::CreateSemaphore,
{
}

/// An object of the kind that was due brings the construction one step
/// nearer to completion and keeps the state well formed; an object of
/// another kind, or one that nothing asked for, ends the construction.
pub proof fn lemma_created_makes_progress(state: BuildModel, object: Created)
    requires
        state.wf(),
        state.failure is None,
    ensures
        state.on_created(object).wf(),
        state.on_created(object).failure is None <==> creates(state.action(), object),
        creates(state.action(), object) ==> state.on_created(object).remaining()
            == state.remaining() - 1,
        !creates(state.action(), object) ==> state.on_created(object) == state.fail(
            BuildFailure::UnexpectedResult,
        ),
{
}

/// Taking in what the surface supports decides the image chain and brings
/// the construction one step nearer to completion, unless the surface
/// supports no format: that, and nothing else, ends the construction there.
pub proof fn lemma_query_decides_the_plan(
    state: BuildModel,
    caps: SurfaceCapabilities,
    formats: Seq<SurfaceFormat>,
    present_modes: Seq<PresentMode>,
    window: Extent2D,
)
    requires
        state.wf(),
        state.failure is None,
        state.stage == BuildStage::Query,
    ensures
        state.action() == BuildAction::QuerySurface,
        state.on_surface_queried(caps, formats, present_modes, window).wf(),
        formats.len() == 0 <==> state.on_surface_queried(
            caps,
            formats,
            present_modes,
            window,
        ).failure == Some(BuildFailure::NoSurfaceFormat),
        formats.len() > 0 ==> {
            let next = state.on_surface_queried(caps, formats, present_modes, window);
            &&& next.failure is None
            &&& next.remaining() == state.remaining() - 1
            &&& next.action() == BuildAction::CreateSwapchain(
                swapchain_plan_for(
                    caps,
                    formats,
                    present_modes,
                    window,
                    state.queues,
                    state.slot_count,
                ),
            )
        },
{
}

/// Taking in the images leaves the views, the render pass and everything
/// after them to be created.
pub proof fn lemma_images_make_progress(state: BuildModel, images: Seq<vk::Image>)
    requires
        state.wf(),
        state.on_images(images).failure is None,
    ensures
        state.on_images(images).wf(),
        state.failure is None ==> state.on_images(images).remaining() == 4 + 2 * images.len() + 4
            * state.slot_count,
{
}

/// Taking in the command buffers, and noting a recording, each bring the
/// construction one step nearer to completion.
pub proof fn lemma_commands_make_progress(state: BuildModel, buffers: Seq<vk::CommandBuffer>)
    requires
        state.wf(),
        state.failure is None,
    ensures
        state.on_command_buffers(buffers).wf(),
        state.on_recorded().wf(),
        state.on_command_buffers(buffers).failure is None ==> state.on_command_buffers(
            buffers,
        ).remaining() == state.remaining() - 1,
        state.on_recorded().failure is None ==> state.on_recorded().remaining() == state.remaining()
            - 1,
        state.on_command_buffers(buffers).failure is None <==> state.stage
            == BuildStage::CommandBuffers && buffers.len() == state.slot_count,
        state.on_recorded().failure is None <==> state.stage == BuildStage::Recording
            && state.recorded < state.framebuffers.len(),
{
}

/// A construction is complete exactly when nothing remains to be reported.
pub proof fn lemma_complete_when_nothing_remains(state: BuildModel)
    requires
        state.wf(),
        state.failure is None,
    ensures
        state.remaining() >= 0,
        state.complete() <==> state.remaining() == 0,
        state.complete() <==> state.action() == BuildAction::Finished,
{
}

/// Once a construction has failed it stays failed, whatever is reported, and
/// keeps asking for nothing but the end.
pub proof fn lemma_build_failure_is_final(
    state: BuildModel,
    object: Created,
    images: Seq<vk::Image>,
    buffers: Seq<vk::CommandBuffer>,
)
    requires
        state.failure is Some,
    ensures
        state.on_created(object) == state,
        state.on_destroyed() == state,
        forall|
            caps: SurfaceCapabilities,
            formats: Seq<SurfaceFormat>,
            modes: Seq<PresentMode>,
            window: Extent2D,
        | #[trigger] state.on_surface_queried(caps, formats, modes, window) == state,
        state.on_images(images) == state,
        state.on_command_buffers(buffers) == state,
        state.on_recorded() == state,
        state.on_failed() == state,
        state.action() is Fatal,
{
}

/// In a complete construction every collection made per target image has one
/// entry for each image, and every collection made per frame slot one for
/// each slot.
pub proof fn lemma_complete_collections_match(state: BuildModel)
    requires
        state.wf(),
        state.complete(),
    ensures
        state.views.len() == state.images.len(),
        state.framebuffers.len() == state.images.len(),
        state.command_buffers.len() == state.slot_count,
        state.image_available.len() == state.slot_count,
        state.render_finished.len() == state.slot_count,
        state.fences.len() == state.slot_count,
        state.slot_count <= state.images.len(),
        state.plan is Some,
        state.swapchain is Some,
        state.render_pass is Some,
        state.pipeline_layout is Some,
        state.pipeline is Some,
{
}

} // verus!
