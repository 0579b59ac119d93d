//! The handles of the device's objects.
//!
//! The library carries handles from the call that created an object to the
//! calls that use and destroy it. It never looks inside one, and nothing is
//! assumed of what a handle holds: each declaration below only makes the
//! type known, so that its values can be kept in fields and handed on.

use vstd::prelude::*;

verus! {

/// `ash::vk::SwapchainKHR`: the handle of a presentable image chain.
#[verifier::external_type_specification]
#[verifier::external_body]
pub struct ExSwapchainKHR(ash::vk::SwapchainKHR);

/// `ash::vk::Image`: the handle of an image.
#[verifier::external_type_specification]
#[verifier::external_body]
pub struct ExImage(ash::vk::Image);

/// `ash::vk::ImageView`: the handle of a view of an image.
#[verifier::external_type_specification]
#[verifier::external_body]
pub struct ExImageView(ash::vk::ImageView);

/// `ash::vk::RenderPass`: the handle of a render pass.
#[verifier::external_type_specification]
#[verifier::external_body]
pub struct ExRenderPass(ash::vk::RenderPass);

/// `ash::vk::Framebuffer`: the handle of a framebuffer.
#[verifier::external_type_specification]
#[verifier::external_body]
pub struct ExFramebuffer(ash::vk::Framebuffer);

/// `ash::vk::PipelineLayout`: the handle of a pipeline layout.
#[verifier::external_type_specification]
#[verifier::external_body]
pub struct ExPipelineLayout(ash::vk::PipelineLayout);

/// `ash::vk::Pipeline`: the handle of a pipeline.
#[verifier::external_type_specification]
#[verifier::external_body]
pub struct ExPipeline(ash::vk::Pipeline);

/// `ash::vk::Queue`: the handle of a queue of the device.
#[verifier::external_type_specification]
#[verifier::external_body]
pub struct ExQueue(ash::vk::Queue);

/// `ash::vk::CommandPool`: the handle of a command pool.
#[verifier::external_type_specification]
#[verifier::external_body]
pub struct ExCommandPool(ash::vk::CommandPool);

/// `ash::vk::CommandBuffer`: the handle of a command buffer.
#[verifier::external_type_specification]
#[verifier::external_body]
pub struct ExCommandBuffer(ash::vk::CommandBuffer);

/// `ash::vk::Semaphore`: the handle of a semaphore.
#[verifier::external_type_specification]
#[verifier::external_body]
pub struct ExSemaphore(ash::vk::Semaphore);

/// `ash::vk::Fence`: the handle of a fence.
#[verifier::external_type_specification]
#[verifier::external_body]
pub struct ExFence(ash::vk::Fence);

/// `ash::vk::Buffer`: the handle of a buffer.
#[verifier::external_type_specification]
#[verifier::external_body]
pub struct ExBuffer(ash::vk::Buffer);

/// `ash::vk::DeviceMemory`: the handle of an allocation of device memory.
#[verifier::external_type_specification]
#[verifier::external_body]
pub struct ExDeviceMemory(ash::vk::DeviceMemory);

} // verus!
