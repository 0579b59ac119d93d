//! The application's state between frames, and what it answers to the host.
//!
//! [`VulkanApp`] joins the surface-dependent resources with the frame
//! driver: it turns the driver's requests, which speak of slots and image
//! indices, into calls on the handles of the current resources, swaps the
//! resources when the surface has gone stale, and lists what to destroy, in
//! which order, when the application ends.

use vstd::prelude::*;
use ash::vk;
use crate::apparatus::{Apparatus, DestroyCommand};
use crate::builder::{ApparatusBuilder, BuildModel};
use crate::device::Gpu;
use crate::frame::{FrameAction, FrameDriver, FrameEvent, FrameFailure, FrameModel};

verus! {

/// A device call of the frame loop, on the handles it concerns.
#[derive(Clone, Copy, Debug, PartialEq, Eq)]
pub enum FrameCall {
    /// Wait until the fence is signaled, for at most `timeout` nanoseconds.
    WaitForFence { fence: vk::Fence, timeout: u64 },
    /// Acquire the next image of the chain, waiting at most `timeout`
    /// nanoseconds; `signal` is signaled when the image is ready.
    AcquireImage { swapchain: vk::SwapchainKHR, signal: vk::Semaphore, timeout: u64 },
    /// Reset the fence, then submit the command buffer on the queue: it
    /// waits for `wait` at the pipeline stages `wait_stage` and signals
    /// `signal` and the fence when it completes.
    Submit {
        queue: vk::Queue,
        fence: vk::Fence,
        wait: vk::Semaphore,
        wait_stage: u32,
        command_buffer: vk::CommandBuffer,
        signal: vk::Semaphore,
    },
    /// Present the image on the queue once `wait` is signaled.
    Present {
        queue: vk::Queue,
        swapchain: vk::SwapchainKHR,
        wait: vk::Semaphore,
        image_index: u32,
    },
    /// Rebuild the surface-dependent resources.
    Rebuild,
    /// The frame is over.
    Done,
    /// The loop has failed; the application is to stop.
    Fatal(FrameFailure),
}

/// A key of the keyboard, as far as the application tells keys apart.
#[derive(Clone, Copy, Debug, PartialEq, Eq, Structural)]
pub enum Key {
    Escape,
    Return,
    Other,
}

/// What the host's event loop reports.
#[derive(Clone, Copy, Debug, PartialEq, Eq, Structural)]
pub enum LoopEvent {
    /// The window was asked to close.
    CloseRequested,
    KeyPressed(Key),
    KeyReleased(Key),
    /// All pending events have been handed over.
    EventsCleared,
    /// The window is to be redrawn.
    RedrawRequested,
    /// The event loop is shutting down.
    LoopDestroyed,
    /// Anything else.
    Other,
}

/// What the application asks of the host in answer to an event.
#[derive(Clone, Copy, Debug, PartialEq, Eq, Structural)]
pub enum LoopCommand {
    /// Leave the event loop.
    Exit,
    /// Ask for the window to be redrawn.
    RequestRedraw,
    /// Draw one frame.
    DrawFrame,
    /// Block until the device has finished all submitted work.
    WaitDeviceIdle,
    /// Nothing to do.
    Continue,
}

/// One step of ending the application.
#[derive(Clone, Copy, Debug, PartialEq, Eq)]
pub enum ShutdownCommand {
    DestroyCommandPool(vk::CommandPool),
    /// A step of tearing down the surface-dependent resources.
    Apparatus(DestroyCommand),
    DestroyBuffer(vk::Buffer),
    FreeMemory(vk::DeviceMemory),
    DestroyDevice,
    DestroySurface,
    DestroyDebugMessenger,
    DestroyInstance,
}

/// `VK_PIPELINE_STAGE_COLOR_ATTACHMENT_OUTPUT_BIT`: where the color values
/// of a frame are written.
pub const STAGE_COLOR_ATTACHMENT_OUTPUT: u32 = 0x400;

/// The timeout that stands for no limit.
pub const NO_TIMEOUT: u64 = 0xFFFF_FFFF_FFFF_FFFF;

/// The call that carries out `action` on the handles of `apparatus`. The
/// fence and the semaphores are those of the frame slot; the command buffer
/// is the one recorded for the acquired image. Commands are submitted on the
/// graphics queue, images presented on the presentation queue. The waits
/// have no time limit.
pub open spec fn frame_call(gpu: Gpu, apparatus: &Apparatus, action: FrameAction) -> FrameCall {
    match action {
        FrameAction::WaitForFence { slot } => FrameCall::WaitForFence {
            fence: apparatus.command_buffer_complete_fences@[slot as int],
            timeout: NO_TIMEOUT,
        },
        FrameAction::AcquireImage { slot } => FrameCall::AcquireImage {
            swapchain: apparatus.swapchain,
            signal: apparatus.image_available_semaphores@[slot as int],
            timeout: NO_TIMEOUT,
        },
        FrameAction::Submit { slot, image_index } => FrameCall::Submit {
            queue: gpu.graphics_queue,
            fence: apparatus.command_buffer_complete_fences@[slot as int],
            wait: apparatus.image_available_semaphores@[slot as int],
            wait_stage: STAGE_COLOR_ATTACHMENT_OUTPUT,
            command_buffer: apparatus.command_buffers@[image_index as int],
            signal: apparatus.render_finished_semaphores@[slot as int],
        },
        FrameAction::Present { slot, image_index } => FrameCall::Present {
            queue: gpu.present_queue,
            swapchain: apparatus.swapchain,
            wait: apparatus.render_finished_semaphores@[slot as int],
            image_index,
        },
        FrameAction::Rebuild => FrameCall::Rebuild,
        FrameAction::Done => FrameCall::Done,
        FrameAction::Fatal(failure) => FrameCall::Fatal(failure),
    }
}

/// What the application answers to an event of the host: it leaves on a
/// request to close and on Escape or Return being pressed, asks for a redraw
/// whenever the events are cleared, draws when a redraw is requested, and
/// waits for the device before the loop is gone.
pub open spec fn loop_command(event: LoopEvent) -> LoopCommand {
    match event {
        LoopEvent::CloseRequested => LoopCommand::Exit,
        LoopEvent::KeyPressed(Key::Escape) => LoopCommand::Exit,
        LoopEvent::KeyPressed(Key::Return) => LoopCommand::Exit,
        LoopEvent::EventsCleared => LoopCommand::RequestRedraw,
        LoopEvent::RedrawRequested => LoopCommand::DrawFrame,
        LoopEvent::LoopDestroyed => LoopCommand::WaitDeviceIdle,
        _ => LoopCommand::Continue,
    }
}

/// The state of the application between frames.
pub struct VulkanApp {
    pub gpu: Gpu,
    pub command_pool: vk::CommandPool,
    pub vertex_buffer: vk::Buffer,
    pub vertex_buffer_memory: vk::DeviceMemory,
    pub apparatus: Apparatus,
    pub validation_layers: Vec<String>,
    pub frames: FrameDriver,
}

impl VulkanApp {
    /// The resources are complete and the driver paces as many slots as
    /// they were built for.
    pub open spec fn wf(&self) -> bool {
        &&& self.apparatus.wf()
        &&& self.frames.wf()
        &&& self.frames@.slot_count == self.apparatus.slot_count()
    }

    /// The steps that end the application: the command pool, the
    /// surface-dependent resources, the vertex buffer and its memory, the
    /// device, the surface, the debug messenger if validation was on, and
    /// last the instance.
    pub open spec fn shutdown_sequence(&self) -> Seq<ShutdownCommand> {
        let teardown = self.apparatus.teardown();
        seq![ShutdownCommand::DestroyCommandPool(self.command_pool)] + Seq::new(
            teardown.len(),
            |i: int| ShutdownCommand::Apparatus(teardown[i]),
        ) + seq![
            ShutdownCommand::DestroyBuffer(self.vertex_buffer),
            ShutdownCommand::FreeMemory(self.vertex_buffer_memory),
            ShutdownCommand::DestroyDevice,
            ShutdownCommand::DestroySurface,
        ] + if self.validation_layers@.len() > 0 {
            seq![ShutdownCommand::DestroyDebugMessenger, ShutdownCommand::DestroyInstance]
        } else {
            seq![ShutdownCommand::DestroyInstance]
        }
    }

    /// Joins the resources of a finished startup. No frame has been drawn:
    /// the cursor is on the first slot.
    pub fn new(
        gpu: Gpu,
        command_pool: vk::CommandPool,
        vertex_buffer: vk::Buffer,
        vertex_buffer_memory: vk::DeviceMemory,
        apparatus: Apparatus,
        validation_layers: Vec<String>,
    ) -> (app: VulkanApp)
        requires
            apparatus.wf(),
        ensures
            app.wf(),
            app.gpu == gpu,
            app.command_pool == command_pool,
            app.vertex_buffer == vertex_buffer,
            app.vertex_buffer_memory == vertex_buffer_memory,
            app.apparatus == apparatus,
            app.validation_layers == validation_layers,
            app.frames@ == FrameModel::start(apparatus.slot_count() as u32),
    {
        let frames = FrameDriver::new(apparatus.frame_slots());
        VulkanApp {
            gpu,
            command_pool,
            vertex_buffer,
            vertex_buffer_memory,
            apparatus,
            validation_layers,
            frames,
        }
    }

    /// What the application answers to an event of the host.
    pub fn main_loop(event: LoopEvent) -> (command: LoopCommand)
        ensures
            command == loop_command(event),
    {
        match event {
            LoopEvent::CloseRequested => LoopCommand::Exit,
            LoopEvent::KeyPressed(Key::Escape) => LoopCommand::Exit,
            LoopEvent::KeyPressed(Key::Return) => LoopCommand::Exit,
            LoopEvent::EventsCleared => LoopCommand::RequestRedraw,
            LoopEvent::RedrawRequested => LoopCommand::DrawFrame,
            LoopEvent::LoopDestroyed => LoopCommand::WaitDeviceIdle,
            _ => LoopCommand::Continue,
        }
    }

    /// Advances the frame by one report and names the next call, on the
    /// handles of the current resources.
    pub fn draw_frame(&mut self, event: FrameEvent) -> (call: FrameCall)
        requires
            old(self).wf(),
        ensures
            final(self).wf(),
            final(self).frames@ == old(self).frames@.next(event),
            final(self).apparatus == old(self).apparatus,
            final(self).gpu == old(self).gpu,
            final(self).command_pool == old(self).command_pool,
            final(self).vertex_buffer == old(self).vertex_buffer,
            final(self).vertex_buffer_memory == old(self).vertex_buffer_memory,
            final(self).validation_layers == old(self).validation_layers,
            call == frame_call(final(self).gpu, &final(self).apparatus, final(self).frames@.due()),
    {
        let action = self.frames.step(event);
        self.resolve(action)
    }

    /// The call that carries out `action` on the current resources.
    fn resolve(&self, action: FrameAction) -> (call: FrameCall)
        requires
            self.wf(),
            action == self.frames@.due(),
        ensures
            call == frame_call(self.gpu, &self.apparatus, action),
    {
        let a = &self.apparatus;
        match action {
            FrameAction::WaitForFence { slot } => FrameCall::WaitForFence {
                fence: a.command_buffer_complete_fences[slot as usize],
                timeout: NO_TIMEOUT,
            },
            FrameAction::AcquireImage { slot } => FrameCall::AcquireImage {
                swapchain: a.swapchain,
                signal: a.image_available_semaphores[slot as usize],
                timeout: NO_TIMEOUT,
            },
            FrameAction::Submit { slot, image_index } => FrameCall::Submit {
                queue: self.gpu.graphics_queue,
                fence: a.command_buffer_complete_fences[slot as usize],
                wait: a.image_available_semaphores[slot as usize],
                wait_stage: STAGE_COLOR_ATTACHMENT_OUTPUT,
                command_buffer: a.command_buffers[image_index as usize],
                signal: a.render_finished_semaphores[slot as usize],
            },
            FrameAction::Present { slot, image_index } => FrameCall::Present {
                queue: self.gpu.present_queue,
                swapchain: a.swapchain,
                wait: a.render_finished_semaphores[slot as usize],
                image_index,
            },
            FrameAction::Rebuild => FrameCall::Rebuild,
            FrameAction::Done => FrameCall::Done,
            FrameAction::Fatal(failure) => FrameCall::Fatal(failure),
        }
    }

    /// Begins the rebuild of the surface-dependent resources, for the same
    /// number of frame slots, the same queues and the same vertex buffer.
    /// What is due first is the teardown of the current resources, which
    /// starts by waiting for the device; the surface is asked anew and the
    /// successors are created only after the last of them is destroyed. The
    /// device and everything else that does not depend on the surface is
    /// left alone.
    pub fn recreate_resolution_dependent_state(&self) -> (builder: ApparatusBuilder)
        requires
            self.wf(),
        ensures
            builder@ == BuildModel::restart(
                self.apparatus.teardown(),
                self.gpu.families,
                self.command_pool,
                self.apparatus.slot_count() as u32,
                self.vertex_buffer,
            ),
            builder.wf(),
    {
        self.apparatus.rebuild(self.gpu.families, self.command_pool, self.vertex_buffer)
    }

    /// Ends a rebuild: takes the new resources in place of the old and
    /// reports the rebuild to the frame driver. The frame that met the stale
    /// surface is not drawn again.
    pub fn install(&mut self, apparatus: Apparatus) -> (call: FrameCall)
        requires
            old(self).wf(),
            apparatus.wf(),
            apparatus.slot_count() == old(self).apparatus.slot_count(),
        ensures
            final(self).wf(),
            final(self).apparatus == apparatus,
            final(self).frames@ == old(self).frames@.next(FrameEvent::Rebuilt),
            final(self).gpu == old(self).gpu,
            final(self).command_pool == old(self).command_pool,
            final(self).vertex_buffer == old(self).vertex_buffer,
            final(self).vertex_buffer_memory == old(self).vertex_buffer_memory,
            final(self).validation_layers == old(self).validation_layers,
            call == frame_call(final(self).gpu, &apparatus, final(self).frames@.due()),
    {
        self.apparatus = apparatus;
        let action = self.frames.step(FrameEvent::Rebuilt);
        self.resolve(action)
    }

    /// Lists, in order, what ends the application.
    pub fn shutdown(&self) -> (commands: Vec<ShutdownCommand>)
        requires
            self.wf(),
        ensures
            commands@ == self.shutdown_sequence(),
    {
        let teardown = self.apparatus.destroy();
        let mut commands: Vec<ShutdownCommand> = Vec::new();
        commands.push(ShutdownCommand::DestroyCommandPool(self.command_pool));
        let ghost head = commands@;
        let mut i: usize = 0;
        while i < teardown.len()
            invariant
                i <= teardown@.len(),
                commands@ == head + Seq::new(
                    i as nat,
                    |k: int| ShutdownCommand::Apparatus(teardown@[k]),
                ),
            decreases teardown@.len() - i,
        {
            commands.push(ShutdownCommand::Apparatus(teardown[i]));
            i = i + 1;
        }
        commands.push(ShutdownCommand::DestroyBuffer(self.vertex_buffer));
        commands.push(ShutdownCommand::FreeMemory(self.vertex_buffer_memory));
        commands.push(ShutdownCommand::DestroyDevice);
        commands.push(ShutdownCommand::DestroySurface);
        if self.validation_layers.len() > 0 {
            commands.push(ShutdownCommand::DestroyDebugMessenger);
        }
        commands.push(ShutdownCommand::DestroyInstance);
        commands
    }
}

/// The commands of a frame are submitted with the fence and the semaphores
/// of the current slot and the command buffer recorded for the acquired
/// image, and every handle named is one of the current resources.
pub proof fn lemma_frame_calls_are_in_range(app: &VulkanApp)
    requires
        app.wf(),
    ensures
        app.frames@.due() matches FrameAction::Submit { slot, image_index } ==> {
            &&& slot == app.frames@.cursor
            &&& slot < app.apparatus.slot_count()
            &&& image_index < app.apparatus.command_buffers@.len()
        },
        app.frames@.due() matches FrameAction::Present { slot, image_index } ==> {
            &&& slot == app.frames@.cursor
            &&& slot < app.apparatus.slot_count()
            &&& image_index < app.apparatus.swapchain_images@.len()
        },
        app.frames@.due() matches FrameAction::WaitForFence { slot } ==> slot
            < app.apparatus.command_buffer_complete_fences@.len(),
        app.frames@.due() matches FrameAction::AcquireImage { slot } ==> slot
            < app.apparatus.image_available_semaphores@.len(),
{
}

} // verus!
