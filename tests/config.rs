use vkcore::config::{VulkanContextBuilder, DEFAULT_FENCE_TIMEOUT_NS};
use vkcore::debug::{DebugSeverity, DebugType};
use vkcore::errors::{ErrorKind, VulkanError};
use vkcore::extensions::DeviceExtensions;
use vkcore::features::Features;
use vkcore::instance::ApplicationInfo;

#[test]
fn builder_defaults() {
    let b = VulkanContextBuilder::new();
    assert_eq!(b.frames_count, 2);
    assert!(!b.debug);
    assert!(b.extensions.is_empty());
    assert_eq!(b.features, Features::none());
    assert!(b.application_info.is_none());
}

#[test]
fn builder_plan() {
    let p = VulkanContextBuilder::new()
        .with_debug_enabled(true)
        .with_debug_severity(DebugSeverity::all())
        .with_debug_type(DebugType::all())
        .with_width(800)
        .with_height(600)
        .with_extensions(vec![DeviceExtensions::KhrSwapchain])
        .with_frames_count(3)
        .with_application_name(ApplicationInfo::default())
        .with_sampler_anisotropy(true)
        .with_runtime_descriptor_array(true)
        .plan()
        .unwrap();
    assert!(p.debug_options.debug_enabled());
    assert_eq!(p.frames_count, 3);
    assert_eq!((p.width, p.height), (800, 600));
    assert_eq!(p.device_requirements.extensions, vec![DeviceExtensions::KhrSwapchain]);
    assert!(p.device_requirements.features.sampler_anisotropy);
    assert!(p.device_requirements.features.runtime_descriptor_array);
    assert!(!p.device_requirements.features.geometry_shader);
    assert!(p.application_info.is_some());
}

#[test]
fn debug_selection_ignored_when_disabled() {
    let p = VulkanContextBuilder::new()
        .with_debug_severity(DebugSeverity::all())
        .with_debug_type(DebugType::all())
        .with_features(Features::all())
        .plan()
        .unwrap();
    assert!(!p.debug_options.debug_enabled());
    assert_eq!(p.device_requirements.features, Features::all());
}

#[test]
fn zero_frames_in_flight_is_refused() {
    match VulkanContextBuilder::new().with_frames_count(0).plan() {
        Err(e) => {
            assert!(matches!(e, VulkanError::FrameStateError(_)));
            assert_eq!(e.kind(), ErrorKind::Device);
        }
        Ok(_) => panic!("zero frames in flight"),
    }
}

#[test]
fn error_kinds() {
    assert_eq!(VulkanError::SwapchainError(String::new()).kind(), ErrorKind::Swapchain);
    assert_eq!(VulkanError::DeviceError(String::new()).kind(), ErrorKind::Device);
    assert_eq!(VulkanError::ShaderCreationError(String::new()).kind(), ErrorKind::ResourceCreation);
    assert_eq!(
        VulkanError::PhysicalDeviceCreationError(String::new()).kind(),
        ErrorKind::CapabilitySelection
    );
    assert_eq!(VulkanError::MemoryTypeError(String::new()).kind(), ErrorKind::MemoryType);
}

#[test]
fn fence_timeout_is_configurable_and_positive() {
    assert_eq!(VulkanContextBuilder::new().fence_timeout_ns, DEFAULT_FENCE_TIMEOUT_NS);
    let p = VulkanContextBuilder::new().with_fence_timeout(5).plan().unwrap();
    assert_eq!(p.fence_timeout_ns, 5);
    assert!(matches!(
        VulkanContextBuilder::new().with_fence_timeout(0).plan(),
        Err(VulkanError::FrameStateError(_))
    ));
}
