//! Vulkan handle types that the engine carries without looking inside.
use vstd::prelude::*;
use ash::vk;

verus! {

#[verifier::external_type_specification]
#[verifier::external_body]
pub struct ExCommandBuffer(vk::CommandBuffer);

#[verifier::external_type_specification]
#[verifier::external_body]
pub struct ExFence(vk::Fence);

#[verifier::external_type_specification]
#[verifier::external_body]
pub struct ExSemaphore(vk::Semaphore);

#[verifier::external_type_specification]
#[verifier::external_body]
pub struct ExImage(vk::Image);

#[verifier::external_type_specification]
#[verifier::external_body]
pub struct ExImageView(vk::ImageView);

#[verifier::external_type_specification]
#[verifier::external_body]
pub struct ExFramebuffer(vk::Framebuffer);

} // verus!
