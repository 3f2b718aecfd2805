//! The instance: application identity, API version, instance extensions and
//! the validation layer.
use vstd::prelude::*;
use ash::vk;
use crate::debug::DebugOptions;
use crate::errors::VulkanError;

verus! {

/// A version triple, as applications and engines number their releases.
#[derive(Debug, Clone, Copy, PartialEq, Eq, Structural)]
pub struct Version {
    pub major: u64,
    pub minor: u64,
    pub patch: u64,
}

/// Who the application and its engine are.
#[derive(Debug, Clone)]
pub struct ApplicationInfo {
    pub application_name: String,
    pub application_version: Version,
    pub engine_name: String,
    pub engine_version: Version,
}

/// Instance extensions the engine enables.
#[derive(Debug, Clone, Copy, PartialEq, Eq, Structural)]
pub enum InstanceExtension {
    /// `VK_KHR_surface`.
    Surface,
    /// `VK_KHR_win32_surface`.
    Win32Surface,
    /// `VK_EXT_debug_utils`.
    DebugUtils,
}

/// Everything the instance is created with that the engine decides.
#[derive(Debug, Clone, PartialEq, Eq)]
pub struct InstancePlan {
    pub application_version: u32,
    pub engine_version: u32,
    pub api_version: u32,
    /// Whether the validation layer and a debug messenger are installed.
    pub enable_validation: bool,
    pub extensions: Vec<InstanceExtension>,
    /// The messenger's severity mask; meaningful when validation is enabled.
    pub severity_mask: u32,
    /// The messenger's message-type mask; meaningful when validation is
    /// enabled.
    pub type_mask: u32,
}

impl Version {
    pub fn new(major: u64, minor: u64, patch: u64) -> (r: Self)
        ensures
            r.major == major && r.minor == minor && r.patch == patch,
    {
        Version { major, minor, patch }
    }

    /// The triple fits Vulkan's packed version: 10 bits of major and minor,
    /// 12 bits of patch.
    pub open spec fn packable(self) -> bool {
        self.major < 1024 && self.minor < 1024 && self.patch < 4096
    }
}

impl Default for ApplicationInfo {
    fn default() -> (r: Self)
        ensures
            r.application_name@.len() == 0,
            r.engine_name@.len() == 0,
            r.application_version == Version::new_spec(0, 0, 0),
            r.engine_version == Version::new_spec(0, 0, 0),
    {
        ApplicationInfo {
            application_name: String::new(),
            application_version: Version::new(0, 0, 0),
            engine_name: String::new(),
            engine_version: Version::new(0, 0, 0),
        }
    }
}

impl Version {
    pub open spec fn new_spec(major: u64, minor: u64, patch: u64) -> Version {
        Version { major, minor, patch }
    }
}

/// Vulkan's packed version number.
pub open spec fn packed_version(major: u32, minor: u32, patch: u32) -> u32 {
    (major << 22u32) | (minor << 12u32) | patch
}

/// Relies on `ash::vk::make_version`, which packs a version triple as
/// `(major << 22) | (minor << 12) | patch`.
#[verifier::external_body]
fn make_version(major: u32, minor: u32, patch: u32) -> (r: u32)
    ensures
        r == packed_version(major, minor, patch),
{
    vk::make_version(major, minor, patch)
}

/// The name of the validation layer installed when debugging is enabled.
pub fn validation_layer_name() -> (r: &'static str)
    ensures
        r@ == "VK_LAYER_KHRONOS_validation"@,
{
    "VK_LAYER_KHRONOS_validation"
}

/// How the instance is created. The API version is 1.1. The surface and
/// Win32 surface extensions are always enabled; the debug-utils extension,
/// the validation layer and a messenger for the selected severities and
/// categories are added when at least one severity and one category are
/// selected. Fails with an instance creation error when a version does not
/// fit Vulkan's packed form.
pub fn plan_instance(info: &ApplicationInfo, debug: &DebugOptions) -> (r: Result<
    InstancePlan,
    VulkanError,
>)
    ensures
        !(info.application_version.packable() && info.engine_version.packable()) ==> r matches Err(
            VulkanError::InstanceCreationError(_),
        ),
        info.application_version.packable() && info.engine_version.packable() ==> (r matches Ok(p)
            && p.application_version == packed_version(
            info.application_version.major as u32,
            info.application_version.minor as u32,
            info.application_version.patch as u32,
        ) && p.engine_version == packed_version(
            info.engine_version.major as u32,
            info.engine_version.minor as u32,
            info.engine_version.patch as u32,
        ) && p.api_version == packed_version(1, 1, 0) && p.enable_validation
            == debug.enabled_spec() && p.extensions@ == (if debug.enabled_spec() {
            seq![
                InstanceExtension::Surface,
                InstanceExtension::Win32Surface,
                InstanceExtension::DebugUtils,
            ]
        } else {
            seq![InstanceExtension::Surface, InstanceExtension::Win32Surface]
        }) && p.severity_mask == debug.debug_severity.bits_spec() && p.type_mask
            == debug.debug_type.bits_spec()),
{
    let a = info.application_version;
    let e = info.engine_version;
    if !(a.major < 1024 && a.minor < 1024 && a.patch < 4096 && e.major < 1024 && e.minor < 1024
        && e.patch < 4096) {
        return Err(
            VulkanError::InstanceCreationError(
                "a version does not fit Vulkan's packed version".to_string(),
            ),
        );
    }
    let application_version = make_version(a.major as u32, a.minor as u32, a.patch as u32);
    let engine_version = make_version(e.major as u32, e.minor as u32, e.patch as u32);
    let api_version = make_version(1, 1, 0);
    let enable_validation = debug.debug_enabled();
    let mut extensions = vec![InstanceExtension::Surface, InstanceExtension::Win32Surface];
    if enable_validation {
        extensions.push(InstanceExtension::DebugUtils);
    }
    let p = InstancePlan {
        application_version,
        engine_version,
        api_version,
        enable_validation,
        extensions,
        severity_mask: debug.debug_severity.bits(),
        type_mask: debug.debug_type.bits(),
    };
    proof {
        if debug.enabled_spec() {
            assert(p.extensions@ =~= seq![
                InstanceExtension::Surface,
                InstanceExtension::Win32Surface,
                InstanceExtension::DebugUtils,
            ]);
        } else {
            assert(p.extensions@ =~= seq![InstanceExtension::Surface, InstanceExtension::Win32Surface]);
        }
    }
    Ok(p)
}

} // verus!
