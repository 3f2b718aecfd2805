//! The configuration a context is built from, with its defaults.
use vstd::prelude::*;
use crate::debug::{DebugOptions, DebugSeverity, DebugType};
use crate::errors::VulkanError;
use crate::extensions::DeviceExtensions;
use crate::features::Features;
use crate::instance::ApplicationInfo;
use crate::physical_device::DeviceRequirements;

verus! {

/// How long a wait on a frame's fence may block, in nanoseconds, before it
/// counts as a hung or lost device: one second.
pub const DEFAULT_FENCE_TIMEOUT_NS: u64 = 1_000_000_000;

/// Every option a context recognizes. `new` gives the defaults: debugging
/// off, no extension or feature required, a 0 by 0 window, two frames in
/// flight, no application info, a fence timeout of one second.
#[derive(Debug, Clone)]
pub struct VulkanContextBuilder {
    pub debug: bool,
    pub debug_severity: DebugSeverity,
    pub debug_type: DebugType,
    pub width: u32,
    pub height: u32,
    pub extensions: Vec<DeviceExtensions>,
    pub frames_count: u32,
    pub application_info: Option<ApplicationInfo>,
    pub features: Features,
    pub fence_timeout_ns: u64,
}

/// The checked configuration the build steps consume.
#[derive(Debug, Clone)]
pub struct ContextPlan {
    pub debug_options: DebugOptions,
    pub device_requirements: DeviceRequirements,
    pub frames_count: u32,
    pub width: u32,
    pub height: u32,
    pub application_info: Option<ApplicationInfo>,
    pub fence_timeout_ns: u64,
}

impl VulkanContextBuilder {
    pub fn new() -> (r: Self)
        ensures
            !r.debug,
            r.debug_severity.is_none_spec(),
            r.debug_type.is_none_spec(),
            r.width == 0 && r.height == 0,
            r.extensions@.len() == 0,
            r.frames_count == 2,
            r.application_info is None,
            r.features == Features::none_spec(),
            r.fence_timeout_ns == DEFAULT_FENCE_TIMEOUT_NS,
    {
        VulkanContextBuilder {
            debug: false,
            debug_severity: DebugSeverity::none(),
            debug_type: DebugType::none(),
            width: 0,
            height: 0,
            extensions: Vec::new(),
            frames_count: 2,
            application_info: None,
            features: Features::none(),
            fence_timeout_ns: DEFAULT_FENCE_TIMEOUT_NS,
        }
    }

    pub fn with_fence_timeout(self, fence_timeout_ns: u64) -> (r: Self)
        ensures
            r == (VulkanContextBuilder { fence_timeout_ns, ..self }),
    {
        VulkanContextBuilder { fence_timeout_ns, ..self }
    }

    pub fn with_debug_enabled(self, debug: bool) -> (r: Self)
        ensures
            r == (VulkanContextBuilder { debug, ..self }),
    {
        VulkanContextBuilder { debug, ..self }
    }

    pub fn with_debug_severity(self, debug_severity: DebugSeverity) -> (r: Self)
        ensures
            r == (VulkanContextBuilder { debug_severity, ..self }),
    {
        VulkanContextBuilder { debug_severity, ..self }
    }

    pub fn with_debug_type(self, debug_type: DebugType) -> (r: Self)
        ensures
            r == (VulkanContextBuilder { debug_type, ..self }),
    {
        VulkanContextBuilder { debug_type, ..self }
    }

    pub fn with_width(self, width: u32) -> (r: Self)
        ensures
            r == (VulkanContextBuilder { width, ..self }),
    {
        VulkanContextBuilder { width, ..self }
    }

    pub fn with_height(self, height: u32) -> (r: Self)
        ensures
            r == (VulkanContextBuilder { height, ..self }),
    {
        VulkanContextBuilder { height, ..self }
    }

    pub fn with_extensions(self, extensions: Vec<DeviceExtensions>) -> (r: Self)
        ensures
            r == (VulkanContextBuilder { extensions, ..self }),
    {
        VulkanContextBuilder { extensions, ..self }
    }

    pub fn with_frames_count(self, frames_count: u32) -> (r: Self)
        ensures
            r == (VulkanContextBuilder { frames_count, ..self }),
    {
        VulkanContextBuilder { frames_count, ..self }
    }

    pub fn with_application_name(self, application_info: ApplicationInfo) -> (r: Self)
        ensures
            r == (VulkanContextBuilder { application_info: Some(application_info), ..self }),
    {
        VulkanContextBuilder { application_info: Some(application_info), ..self }
    }

    pub fn with_sampler_anisotropy(self, sampler_anisotropy: bool) -> (r: Self)
        ensures
            r == (VulkanContextBuilder {
                features: Features { sampler_anisotropy, ..self.features },
                ..self
            }),
    {
        let features = Features { sampler_anisotropy, ..self.features };
        VulkanContextBuilder { features, ..self }
    }

    pub fn with_runtime_descriptor_array(self, runtime_descriptor_array: bool) -> (r: Self)
        ensures
            r == (VulkanContextBuilder {
                features: Features { runtime_descriptor_array, ..self.features },
                ..self
            }),
    {
        let features = Features { runtime_descriptor_array, ..self.features };
        VulkanContextBuilder { features, ..self }
    }

    pub fn with_features(self, features: Features) -> (r: Self)
        ensures
            r == (VulkanContextBuilder { features, ..self }),
    {
        VulkanContextBuilder { features, ..self }
    }

    /// The debug options in effect: the selected ones when debugging is on,
    /// none when it is off.
    pub open spec fn effective_debug(&self) -> DebugOptions {
        if self.debug {
            DebugOptions { debug_severity: self.debug_severity, debug_type: self.debug_type }
        } else {
            DebugOptions {
                debug_severity: DebugSeverity {
                    verbose: false,
                    info: false,
                    warning: false,
                    error: false,
                },
                debug_type: DebugType { general: false, validation: false, performance: false },
            }
        }
    }

    /// Checks the configuration once, before anything is built. Fails with
    /// a frame-state error when no frame in flight is asked for, or when the
    /// fence timeout is zero (every wait would count as a hang).
    pub fn plan(self) -> (r: Result<ContextPlan, VulkanError>)
        ensures
            self.frames_count == 0 || self.fence_timeout_ns == 0 ==> r matches Err(
                VulkanError::FrameStateError(_),
            ),
            self.frames_count > 0 && self.fence_timeout_ns > 0 ==> (r matches Ok(p) && p.debug_options == self.effective_debug()
                && p.device_requirements.extensions@ == self.extensions@
                && p.device_requirements.features == self.features && p.frames_count
                == self.frames_count && p.width == self.width && p.height == self.height
                && p.application_info == self.application_info && p.fence_timeout_ns
                == self.fence_timeout_ns),
    {
        if self.frames_count == 0 {
            return Err(
                VulkanError::FrameStateError("at least one frame in flight is needed".to_string()),
            );
        }
        if self.fence_timeout_ns == 0 {
            return Err(
                VulkanError::FrameStateError("the fence timeout must be positive".to_string()),
            );
        }
        let debug_options = if self.debug {
            DebugOptions { debug_severity: self.debug_severity, debug_type: self.debug_type }
        } else {
            DebugOptions { debug_severity: DebugSeverity::none(), debug_type: DebugType::none() }
        };
        Ok(
            ContextPlan {
                debug_options,
                device_requirements: DeviceRequirements {
                    extensions: self.extensions,
                    features: self.features,
                },
                frames_count: self.frames_count,
                width: self.width,
                height: self.height,
                application_info: self.application_info,
                fence_timeout_ns: self.fence_timeout_ns,
            },
        )
    }
}

} // verus!
