use vstd::prelude::*;

verus! {

/// Device extensions that the engine knows by name.
#[derive(Debug, Clone, Copy, PartialEq, Eq, Structural)]
pub enum DeviceExtensions {
    ExtDescriptorIndexing,
    KhrSwapchain,
    NvRayTracing,
    NotImplemented,
}

pub open spec fn extension_of_name(name: Seq<char>) -> DeviceExtensions {
    if name == "VK_EXT_descriptor_indexing"@ {
        DeviceExtensions::ExtDescriptorIndexing
    } else if name == "VK_KHR_swapchain"@ {
        DeviceExtensions::KhrSwapchain
    } else if name == "VK_NV_ray_tracing"@ {
        DeviceExtensions::NvRayTracing
    } else {
        DeviceExtensions::NotImplemented
    }
}

impl DeviceExtensions {
    pub open spec fn name_spec(self) -> Seq<char> {
        match self {
            DeviceExtensions::ExtDescriptorIndexing => "VK_EXT_descriptor_indexing"@,
            DeviceExtensions::KhrSwapchain => "VK_KHR_swapchain"@,
            DeviceExtensions::NvRayTracing => "VK_NV_ray_tracing"@,
            DeviceExtensions::NotImplemented => "NotImplemented"@,
        }
    }

    /// The extension's registered name; an unknown extension is named
    /// `NotImplemented`.
    pub fn name(self) -> (r: &'static str)
        ensures
            r@ == self.name_spec(),
    {
        match self {
            DeviceExtensions::ExtDescriptorIndexing => "VK_EXT_descriptor_indexing",
            DeviceExtensions::KhrSwapchain => "VK_KHR_swapchain",
            DeviceExtensions::NvRayTracing => "VK_NV_ray_tracing",
            DeviceExtensions::NotImplemented => "NotImplemented",
        }
    }

    /// The extension with the given registered name; any other name maps to
    /// `NotImplemented`.
    pub fn from_name(name: &str) -> (r: Self)
        ensures
            r == extension_of_name(name@),
    {
        let n = name.to_string();
        if n == "VK_EXT_descriptor_indexing".to_string() {
            DeviceExtensions::ExtDescriptorIndexing
        } else if n == "VK_KHR_swapchain".to_string() {
            DeviceExtensions::KhrSwapchain
        } else if n == "VK_NV_ray_tracing".to_string() {
            DeviceExtensions::NvRayTracing
        } else {
            DeviceExtensions::NotImplemented
        }
    }
}

} // verus!
