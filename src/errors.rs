use vstd::prelude::*;

verus! {

/// Every failure that the engine reports. Each variant carries a message for
/// the user; the variant itself tells which stage failed.
#[derive(Debug)]
pub enum VulkanError {
    DebugCreationError(String),
    DepthResourcesCreationError(String),
    DeviceError(String),
    ImageCreationError(String),
    InstanceCreationError(String),
    InstanceError(String),
    PipelineError(String),
    PhysicalDeviceCreationError(String),
    RenderPassCreationError(String),
    ShaderCreationError(String),
    SurfaceError(String),
    SwapchainCreationError(String),
    SwapchainError(String),
    TextureCreationError(String),
    VertexBufferCreationError(String),
    /// No memory type of the device fits an allocation.
    MemoryTypeError(String),
    /// An engine operation was called in a phase of the frame or resize
    /// protocol that does not allow it.
    FrameStateError(String),
}

/// The failure classes a caller acts on.
#[derive(Debug, Clone, Copy, PartialEq, Eq, Structural)]
pub enum ErrorKind {
    /// No device, queue family and surface combination meets the requirements.
    CapabilitySelection,
    /// A driver call failed, a fence wait timed out, or the protocol was broken.
    Device,
    /// Acquire or present failed: the caller is expected to resize and retry.
    Swapchain,
    /// No memory type fits an allocation.
    MemoryType,
    /// An object (instance, shader, render pass, image, ...) could not be built.
    ResourceCreation,
}

impl VulkanError {
    pub open spec fn kind_spec(&self) -> ErrorKind {
        match self {
            VulkanError::PhysicalDeviceCreationError(_) => ErrorKind::CapabilitySelection,
            VulkanError::DeviceError(_) => ErrorKind::Device,
            VulkanError::InstanceError(_) => ErrorKind::Device,
            VulkanError::SurfaceError(_) => ErrorKind::Device,
            VulkanError::FrameStateError(_) => ErrorKind::Device,
            VulkanError::SwapchainError(_) => ErrorKind::Swapchain,
            VulkanError::MemoryTypeError(_) => ErrorKind::MemoryType,
            _ => ErrorKind::ResourceCreation,
        }
    }

    /// The failure class of this error.
    pub fn kind(&self) -> (r: ErrorKind)
        ensures
            r == self.kind_spec(),
    {
        match self {
            VulkanError::PhysicalDeviceCreationError(_) => ErrorKind::CapabilitySelection,
            VulkanError::DeviceError(_) => ErrorKind::Device,
            VulkanError::InstanceError(_) => ErrorKind::Device,
            VulkanError::SurfaceError(_) => ErrorKind::Device,
            VulkanError::FrameStateError(_) => ErrorKind::Device,
            VulkanError::SwapchainError(_) => ErrorKind::Swapchain,
            VulkanError::MemoryTypeError(_) => ErrorKind::MemoryType,
            _ => ErrorKind::ResourceCreation,
        }
    }
}

} // verus!
