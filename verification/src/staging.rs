//! Uploading data to memory that the host cannot map.
//!
//! The data goes through a staging buffer in host-visible memory and from
//! there, by a copy that the device executes, into a buffer in device-local
//! memory. The upload is synchronous: the queue is waited on before anything
//! is released, and the staging buffer, its memory and the command buffer are
//! all released before the upload reports its result.

use vstd::prelude::*;
use ash::vk;
use crate::buffer::{
    BufferRequest, MemoryRange, RawBuffer, MEMORY_DEVICE_LOCAL, MEMORY_HOST_COHERENT,
    MEMORY_HOST_VISIBLE, USAGE_TRANSFER_DST, USAGE_TRANSFER_SRC,
};

verus! {

/// The operation that a staged upload is waiting for.
#[derive(Clone, Copy, Debug, PartialEq, Eq, Structural)]
pub enum UploadStage {
    CreateStaging,
    WriteStaging,
    CreateDestination,
    AllocateCommands,
    RecordCopy,
    Submit,
    WaitIdle,
    FreeCommands,
    DestroyStaging,
    FreeStagingMemory,
    Complete,
}

/// Why an upload cannot go on.
#[derive(Clone, Copy, Debug, PartialEq, Eq, Structural)]
pub enum UploadFailure {
    /// The device reported that the requested operation failed.
    DeviceCall,
    /// A result was reported that the due operation does not produce.
    UnexpectedResult,
}

/// One operation of a staged upload, with everything needed to perform it.
#[derive(Clone, Copy, Debug, PartialEq, Eq)]
pub enum UploadAction {
    /// Create a buffer and bind newly allocated memory to it.
    CreateBuffer(BufferRequest),
    /// Map the range of the memory, copy the data there, unmap.
    WriteMemory { memory: vk::DeviceMemory, range: MemoryRange },
    /// Allocate one primary command buffer from the pool.
    AllocateCommandBuffer { command_pool: vk::CommandPool },
    /// Record, for a single submission, the copy of `size` bytes from the
    /// start of `source` to the start of `destination`.
    RecordCopy {
        command_buffer: vk::CommandBuffer,
        source: vk::Buffer,
        destination: vk::Buffer,
        size: u64,
    },
    /// Submit the command buffer on the queue, with no fence.
    Submit { queue: vk::Queue, command_buffer: vk::CommandBuffer },
    /// Block until the queue is idle.
    WaitQueueIdle { queue: vk::Queue },
    /// Hand the command buffer back to the pool.
    FreeCommandBuffer { command_pool: vk::CommandPool, command_buffer: vk::CommandBuffer },
    DestroyBuffer { buffer: vk::Buffer },
    FreeMemory { memory: vk::DeviceMemory },
    /// The upload is over; the buffer and its memory are the caller's.
    Finished(RawBuffer),
    /// The upload has failed at the given stage and cannot be resumed.
    Fatal { stage: UploadStage, failure: UploadFailure },
}

impl UploadStage {
    /// The place of the stage in an upload.
    pub open spec fn order(self) -> nat {
        match self {
            UploadStage::CreateStaging => 0,
            UploadStage::WriteStaging => 1,
            UploadStage::CreateDestination => 2,
            UploadStage::AllocateCommands => 3,
            UploadStage::RecordCopy => 4,
            UploadStage::Submit => 5,
            UploadStage::WaitIdle => 6,
            UploadStage::FreeCommands => 7,
            UploadStage::DestroyStaging => 8,
            UploadStage::FreeStagingMemory => 9,
            UploadStage::Complete => 10,
        }
    }
}

/// The state of a staged upload, as a mathematical value.
pub struct UploadModel {
    pub stage: UploadStage,
    pub failure: Option<UploadFailure>,
    /// Number of bytes to upload.
    pub size: usize,
    /// What the destination buffer is used for, besides receiving the copy.
    pub usage: u32,
    /// The pool that the command buffer of the copy comes from.
    pub command_pool: vk::CommandPool,
    /// The queue that executes the copy: the graphics queue.
    pub queue: vk::Queue,
    pub staging: Option<RawBuffer>,
    pub destination: Option<RawBuffer>,
    pub command_buffer: Option<vk::CommandBuffer>,
}

impl UploadModel {
    /// The state before anything has been created.
    pub open spec fn start(
        size: usize,
        usage: u32,
        command_pool: vk::CommandPool,
        queue: vk::Queue,
    ) -> UploadModel {
        UploadModel {
            stage: UploadStage::CreateStaging,
            failure: None,
            size,
            usage,
            command_pool,
            queue,
            staging: None,
            destination: None,
            command_buffer: None,
        }
    }

    /// What has been reported is known, and nothing else.
    pub open spec fn wf(self) -> bool {
        &&& self.staging is Some <==> self.stage.order() > UploadStage::CreateStaging.order()
        &&& self.destination is Some <==> self.stage.order()
            > UploadStage::CreateDestination.order()
        &&& self.command_buffer is Some <==> self.stage.order()
            > UploadStage::AllocateCommands.order()
    }

    /// The staging buffer: a transfer source in memory that the host writes.
    pub open spec fn staging_request(self) -> BufferRequest {
        BufferRequest {
            size: self.size as u64,
            usage: USAGE_TRANSFER_SRC,
            memory_properties: MEMORY_HOST_VISIBLE | MEMORY_HOST_COHERENT,
            exclusive: true,
        }
    }

    /// The destination buffer: a transfer destination in device-local memory.
    pub open spec fn destination_request(self) -> BufferRequest {
        BufferRequest {
            size: self.size as u64,
            usage: USAGE_TRANSFER_DST | self.usage,
            memory_properties: MEMORY_DEVICE_LOCAL,
            exclusive: true,
        }
    }

    /// Whether the upload is over and succeeded.
    pub open spec fn complete(self) -> bool {
        self.failure is None && self.stage == UploadStage::Complete
    }

    /// Whether the staging buffer exists.
    pub open spec fn staging_buffer_live(self) -> bool {
        UploadStage::CreateStaging.order() < self.stage.order()
            <= UploadStage::DestroyStaging.order()
    }

    /// Whether the staging buffer's memory is allocated.
    pub open spec fn staging_memory_live(self) -> bool {
        UploadStage::CreateStaging.order() < self.stage.order()
            <= UploadStage::FreeStagingMemory.order()
    }

    /// Whether the command buffer is allocated.
    pub open spec fn command_buffer_live(self) -> bool {
        UploadStage::AllocateCommands.order() < self.stage.order()
            <= UploadStage::FreeCommands.order()
    }

    /// The operation that is due.
    pub open spec fn action(self) -> UploadAction {
        match self.failure {
            Some(failure) => UploadAction::Fatal { stage: self.stage, failure },
            None => match self.stage {
                UploadStage::CreateStaging => UploadAction::CreateBuffer(self.staging_request()),
                UploadStage::WriteStaging => UploadAction::WriteMemory {
                    memory: self.staging.unwrap().memory,
                    range: MemoryRange { offset: 0, size: self.size },
                },
                UploadStage::CreateDestination => UploadAction::CreateBuffer(
                    self.destination_request(),
                ),
                UploadStage::AllocateCommands => UploadAction::AllocateCommandBuffer {
                    command_pool: self.command_pool,
                },
                UploadStage::RecordCopy => UploadAction::RecordCopy {
                    command_buffer: self.command_buffer.unwrap(),
                    source: self.staging.unwrap().buffer,
                    destination: self.destination.unwrap().buffer,
                    size: self.size as u64,
                },
                UploadStage::Submit => UploadAction::Submit {
                    queue: self.queue,
                    command_buffer: self.command_buffer.unwrap(),
                },
                UploadStage::WaitIdle => UploadAction::WaitQueueIdle { queue: self.queue },
                UploadStage::FreeCommands => UploadAction::FreeCommandBuffer {
                    command_pool: self.command_pool,
                    command_buffer: self.command_buffer.unwrap(),
                },
                UploadStage::DestroyStaging => UploadAction::DestroyBuffer {
                    buffer: self.staging.unwrap().buffer,
                },
                UploadStage::FreeStagingMemory => UploadAction::FreeMemory {
                    memory: self.staging.unwrap().memory,
                },
                UploadStage::Complete => UploadAction::Finished(self.destination.unwrap()),
            },
        }
    }

    /// The same state, failed for the given reason.
    pub open spec fn fail(self, failure: UploadFailure) -> UploadModel {
        UploadModel { failure: Some(failure), ..self }
    }

    /// The state after a buffer was created and memory bound to it.
    pub open spec fn on_buffer_created(self, raw: RawBuffer) -> UploadModel {
        if self.failure is Some {
            self
        } else {
            match self.stage {
                UploadStage::CreateStaging => UploadModel {
                    staging: Some(raw),
                    stage: UploadStage::WriteStaging,
                    ..self
                },
                UploadStage::CreateDestination => UploadModel {
                    destination: Some(raw),
                    stage: UploadStage::AllocateCommands,
                    ..self
                },
                _ => self.fail(UploadFailure::UnexpectedResult),
            }
        }
    }

    /// The state after the command buffer was allocated.
    pub open spec fn on_command_buffer(self, command_buffer: vk::CommandBuffer) -> UploadModel {
        if self.failure is Some {
            self
        } else if self.stage == UploadStage::AllocateCommands {
            UploadModel {
                command_buffer: Some(command_buffer),
                stage: UploadStage::RecordCopy,
                ..self
            }
        } else {
            self.fail(UploadFailure::UnexpectedResult)
        }
    }

    /// The state after an operation that hands nothing back was performed.
    pub open spec fn on_done(self) -> UploadModel {
        if self.failure is Some {
            self
        } else {
            match self.stage {
                UploadStage::WriteStaging => UploadModel {
                    stage: UploadStage::CreateDestination,
                    ..self
                },
                UploadStage::RecordCopy => UploadModel { stage: UploadStage::Submit, ..self },
                UploadStage::Submit => UploadModel { stage: UploadStage::WaitIdle, ..self },
                UploadStage::WaitIdle => UploadModel { stage: UploadStage::FreeCommands, ..self },
                UploadStage::FreeCommands => UploadModel {
                    stage: UploadStage::DestroyStaging,
                    ..self
                },
                UploadStage::DestroyStaging => UploadModel {
                    stage: UploadStage::FreeStagingMemory,
                    ..self
                },
                UploadStage::FreeStagingMemory => UploadModel {
                    stage: UploadStage::Complete,
                    ..self
                },
                _ => self.fail(UploadFailure::UnexpectedResult),
            }
        }
    }

    /// The state after the device has reported that the due operation failed.
    pub open spec fn on_failed(self) -> UploadModel {
        if self.failure is Some {
            self
        } else {
            self.fail(UploadFailure::DeviceCall)
        }
    }

    /// The operations of an upload in which every one succeeds, given the
    /// handles that the device hands out.
    pub open spec fn script(
        self,
        staging: RawBuffer,
        destination: RawBuffer,
        command_buffer: vk::CommandBuffer,
    ) -> Seq<UploadAction> {
        seq![
            UploadAction::CreateBuffer(self.staging_request()),
            UploadAction::WriteMemory {
                memory: staging.memory,
                range: MemoryRange { offset: 0, size: self.size },
            },
            UploadAction::CreateBuffer(self.destination_request()),
            UploadAction::AllocateCommandBuffer { command_pool: self.command_pool },
            UploadAction::RecordCopy {
                command_buffer,
                source: staging.buffer,
                destination: destination.buffer,
                size: self.size as u64,
            },
            UploadAction::Submit { queue: self.queue, command_buffer },
            UploadAction::WaitQueueIdle { queue: self.queue },
            UploadAction::FreeCommandBuffer { command_pool: self.command_pool, command_buffer },
            UploadAction::DestroyBuffer { buffer: staging.buffer },
            UploadAction::FreeMemory { memory: staging.memory },
            UploadAction::Finished(destination),
        ]
    }
}

/// A staged upload in progress.
pub struct StagedUpload {
    stage: UploadStage,
    failure: Option<UploadFailure>,
    size: usize,
    usage: u32,
    command_pool: vk::CommandPool,
    queue: vk::Queue,
    staging: Option<RawBuffer>,
    destination: Option<RawBuffer>,
    command_buffer: Option<vk::CommandBuffer>,
}

impl View for StagedUpload {
    type V = UploadModel;

    closed spec fn view(&self) -> UploadModel {
        UploadModel {
            stage: self.stage,
            failure: self.failure,
            size: self.size,
            usage: self.usage,
            command_pool: self.command_pool,
            queue: self.queue,
            staging: self.staging,
            destination: self.destination,
            command_buffer: self.command_buffer,
        }
    }
}

impl StagedUpload {
    /// Whether the upload's state is one that an upload can reach.
    pub open spec fn wf(&self) -> bool {
        self@.wf()
    }

    /// Starts the upload of `size` bytes into a new buffer with the given
    /// usage. The copy is recorded into a command buffer of `command_pool`
    /// and executed by `queue`.
    pub fn new(size: usize, usage: u32, command_pool: vk::CommandPool, queue: vk::Queue) -> (upload:
        StagedUpload)
        ensures
            upload@ == UploadModel::start(size, usage, command_pool, queue),
            upload.wf(),
    {
        StagedUpload {
            stage: UploadStage::CreateStaging,
            failure: None,
            size,
            usage,
            command_pool,
            queue,
            staging: None,
            destination: None,
            command_buffer: None,
        }
    }

    /// Names the operation that is due.
    pub fn next_action(&self) -> (action: UploadAction)
        requires
            self.wf(),
        ensures
            action == self@.action(),
    {
        match self.failure {
            Some(failure) => UploadAction::Fatal { stage: self.stage, failure },
            None => match self.stage {
                UploadStage::CreateStaging => UploadAction::CreateBuffer(
                    BufferRequest {
                        size: self.size as u64,
                        usage: USAGE_TRANSFER_SRC,
                        memory_properties: MEMORY_HOST_VISIBLE | MEMORY_HOST_COHERENT,
                        exclusive: true,
                    },
                ),
                UploadStage::WriteStaging => UploadAction::WriteMemory {
                    memory: self.staging.unwrap().memory,
                    range: MemoryRange { offset: 0, size: self.size },
                },
                UploadStage::CreateDestination => UploadAction::CreateBuffer(
                    BufferRequest {
                        size: self.size as u64,
                        usage: USAGE_TRANSFER_DST | self.usage,
                        memory_properties: MEMORY_DEVICE_LOCAL,
                        exclusive: true,
                    },
                ),
                UploadStage::AllocateCommands => UploadAction::AllocateCommandBuffer {
                    command_pool: self.command_pool,
                },
                UploadStage::RecordCopy => UploadAction::RecordCopy {
                    command_buffer: self.command_buffer.unwrap(),
                    source: self.staging.unwrap().buffer,
                    destination: self.destination.unwrap().buffer,
                    size: self.size as u64,
                },
                UploadStage::Submit => UploadAction::Submit {
                    queue: self.queue,
                    command_buffer: self.command_buffer.unwrap(),
                },
                UploadStage::WaitIdle => UploadAction::WaitQueueIdle { queue: self.queue },
                UploadStage::FreeCommands => UploadAction::FreeCommandBuffer {
                    command_pool: self.command_pool,
                    command_buffer: self.command_buffer.unwrap(),
                },
                UploadStage::DestroyStaging => UploadAction::DestroyBuffer {
                    buffer: self.staging.unwrap().buffer,
                },
                UploadStage::FreeStagingMemory => UploadAction::FreeMemory {
                    memory: self.staging.unwrap().memory,
                },
                UploadStage::Complete => UploadAction::Finished(self.destination.unwrap()),
            },
        }
    }

    /// Takes in a buffer that was created, and the memory bound to it.
    pub fn buffer_created(&mut self, raw: RawBuffer)
        requires
            old(self).wf(),
        ensures
            final(self)@ == old(self)@.on_buffer_created(raw),
            final(self).wf(),
    {
        if self.failure.is_some() {
            return ;
        }
        match self.stage {
            UploadStage::CreateStaging => {
                self.staging = Some(raw);
                self.stage = UploadStage::WriteStaging;
            },
            UploadStage::CreateDestination => {
                self.destination = Some(raw);
                self.stage = UploadStage::AllocateCommands;
            },
            _ => {
                self.failure = Some(UploadFailure::UnexpectedResult);
            },
        }
    }

    /// Takes in the command buffer that was allocated.
    pub fn command_buffer_allocated(&mut self, command_buffer: vk::CommandBuffer)
        requires
            old(self).wf(),
        ensures
            final(self)@ == old(self)@.on_command_buffer(command_buffer),
            final(self).wf(),
    {
        if self.failure.is_some() {
            return ;
        }
        if self.stage == UploadStage::AllocateCommands {
            self.command_buffer = Some(command_buffer);
            self.stage = UploadStage::RecordCopy;
        } else {
            self.failure = Some(UploadFailure::UnexpectedResult);
        }
    }

    /// Notes that the due operation, one that hands nothing back, was
    /// performed.
    pub fn done(&mut self)
        requires
            old(self).wf(),
        ensures
            final(self)@ == old(self)@.on_done(),
            final(self).wf(),
    {
        if self.failure.is_some() {
            return ;
        }
        match self.stage {
            UploadStage::WriteStaging => {
                self.stage = UploadStage::CreateDestination;
            },
            UploadStage::RecordCopy => {
                self.stage = UploadStage::Submit;
            },
            UploadStage::Submit => {
                self.stage = UploadStage::WaitIdle;
            },
            UploadStage::WaitIdle => {
                self.stage = UploadStage::FreeCommands;
            },
            UploadStage::FreeCommands => {
                self.stage = UploadStage::DestroyStaging;
            },
            UploadStage::DestroyStaging => {
                self.stage = UploadStage::FreeStagingMemory;
            },
            UploadStage::FreeStagingMemory => {
                self.stage = UploadStage::Complete;
            },
            _ => {
                self.failure = Some(UploadFailure::UnexpectedResult);
            },
        }
    }

    /// Notes that the device could not perform the due operation. Nothing is
    /// asked for after that.
    pub fn failed(&mut self)
        requires
            old(self).wf(),
        ensures
            final(self)@ == old(self)@.on_failed(),
            final(self).wf(),
    {
        if self.failure.is_none() {
            self.failure = Some(UploadFailure::DeviceCall);
        }
    }

    /// The buffer that took the upload, with its memory, once the upload is
    /// complete.
    pub fn finish(self) -> (result: Option<RawBuffer>)
        requires
            self.wf(),
        ensures
            result is Some <==> self@.complete(),
            self@.complete() ==> result == self@.destination,
    {
        if self.failure.is_none() && self.stage == UploadStage::Complete {
            self.destination
        } else {
            None
        }
    }
}

/// An upload in which every operation succeeds performs, in this order and
/// nothing else: the creation of the staging buffer, the write into it, the
/// creation of the destination, the allocation, recording and submission of
/// the copy, the wait for the queue, then the release of the command buffer,
/// of the staging buffer and of the staging memory. It ends complete, with
/// the destination buffer as its result.
pub proof fn lemma_upload_follows_script(
    size: usize,
    usage: u32,
    command_pool: vk::CommandPool,
    queue: vk::Queue,
    staging: RawBuffer,
    destination: RawBuffer,
    command_buffer: vk::CommandBuffer,
)
    ensures
        ({
            let s0 = UploadModel::start(size, usage, command_pool, queue);
            let script = s0.script(staging, destination, command_buffer);
            let s1 = s0.on_buffer_created(staging);
            let s2 = s1.on_done();
            let s3 = s2.on_buffer_created(destination);
            let s4 = s3.on_command_buffer(command_buffer);
            let s5 = s4.on_done();
            let s6 = s5.on_done();
            let s7 = s6.on_done();
            let s8 = s7.on_done();
            let s9 = s8.on_done();
            let s10 = s9.on_done();
            &&& s0.action() == script[0]
            &&& s1.action() == script[1]
            &&& s2.action() == script[2]
            &&& s3.action() == script[3]
            &&& s4.action() == script[4]
            &&& s5.action() == script[5]
            &&& s6.action() == script[6]
            &&& s7.action() == script[7]
            &&& s8.action() == script[8]
            &&& s9.action() == script[9]
            &&& s10.action() == script[10]
            &&& s10.complete()
            &&& s10.wf()
            &&& script.len() == 11
        }),
{
}

/// Nothing transient outlives a completed upload, and while the copy may
/// still execute everything it uses exists: the command buffer is freed and
/// the staging buffer destroyed only after the wait for the queue, and the
/// staging memory is freed only after the buffer that refers to it.
pub proof fn lemma_transients_released(state: UploadModel)
    ensures
        state.complete() ==> !state.staging_buffer_live() && !state.staging_memory_live()
            && !state.command_buffer_live(),
        state.stage == UploadStage::Submit || state.stage == UploadStage::WaitIdle
            ==> state.staging_buffer_live() && state.staging_memory_live()
            && state.command_buffer_live(),
        state.staging_buffer_live() ==> state.staging_memory_live(),
        state.failure is None && state.action() is FreeCommandBuffer ==> state.stage
            == UploadStage::FreeCommands,
        state.failure is None && state.action() is DestroyBuffer ==> state.stage
            == UploadStage::DestroyStaging && !state.on_done().staging_buffer_live(),
        state.failure is None && state.action() is FreeMemory ==> !state.staging_buffer_live()
            && !state.on_done().staging_memory_live(),
{
}

/// Every report keeps an upload in a state that an upload can reach.
pub proof fn lemma_upload_stays_well_formed(
    state: UploadModel,
    raw: RawBuffer,
    command_buffer: vk::CommandBuffer,
)
    requires
        state.wf(),
    ensures
        state.on_buffer_created(raw).wf(),
        state.on_command_buffer(command_buffer).wf(),
        state.on_done().wf(),
        state.on_failed().wf(),
{
}

/// Once an upload has failed it stays failed, whatever is reported.
pub proof fn lemma_upload_failure_is_final(
    state: UploadModel,
    raw: RawBuffer,
    command_buffer: vk::CommandBuffer,
)
    requires
        state.failure is Some,
    ensures
        state.on_buffer_created(raw) == state,
        state.on_command_buffer(command_buffer) == state,
        state.on_done() == state,
        state.on_failed() == state,
        state.action() is Fatal,
{
}

} // verus!
