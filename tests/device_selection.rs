use ash::vk;
use vkcore::errors::{ErrorKind, VulkanError};
use vkcore::extensions::DeviceExtensions;
use vkcore::features::Features;
use vkcore::physical_device::{
    check_device_extensions_support, find_queue_family, select_physical_device, DeviceCandidate,
    DeviceRequirements, QueueFamily, QUEUE_GRAPHICS,
};

fn family(count: u32, flags: u32, present: bool) -> QueueFamily {
    QueueFamily { queue_count: count, queue_flags: flags, present_support: present }
}

fn candidate(features: Features, families: Vec<QueueFamily>) -> DeviceCandidate {
    DeviceCandidate {
        extensions: vec![DeviceExtensions::KhrSwapchain],
        features,
        surface_format_count: 2,
        present_mode_count: 1,
        queue_families: families,
        memory_types: vec![1, 6],
    }
}

fn swapchain_only() -> DeviceRequirements {
    DeviceRequirements { extensions: vec![DeviceExtensions::KhrSwapchain], features: Features::none() }
}

#[test]
fn impossible_feature_gives_capability_error() {
    let devices = vec![
        candidate(Features::none(), vec![family(1, QUEUE_GRAPHICS, true)]),
        candidate(
            Features { sampler_anisotropy: true, ..Features::none() },
            vec![family(1, QUEUE_GRAPHICS, true)],
        ),
    ];
    let req = DeviceRequirements {
        extensions: vec![DeviceExtensions::KhrSwapchain],
        features: Features { geometry_shader: true, ..Features::none() },
    };
    match select_physical_device(&devices, &req) {
        Err(e) => {
            assert!(matches!(e, VulkanError::PhysicalDeviceCreationError(_)));
            assert_eq!(e.kind(), ErrorKind::CapabilitySelection);
        }
        Ok(_) => panic!("no device has a geometry shader"),
    }
}

#[test]
fn first_suitable_device_wins() {
    let devices = vec![
        candidate(Features::none(), vec![family(1, 0b10, true)]),
        candidate(Features::all(), vec![family(0, QUEUE_GRAPHICS, true), family(2, 0b11, true)]),
        candidate(Features::all(), vec![family(1, QUEUE_GRAPHICS, true)]),
    ];
    let d = select_physical_device(&devices, &swapchain_only()).unwrap();
    assert_eq!(d.get(), 1);
    assert_eq!(d.get_queue_family(), 1);
    assert_eq!(d.memory_types, vec![1, 6]);
    assert_eq!(d.find_memory_type(0b11, 4), Some(1));
    assert_eq!(d.find_memory_type(0b01, 4), None);
}

#[test]
fn device_without_present_family_is_rejected() {
    let devices = vec![candidate(Features::all(), vec![family(4, QUEUE_GRAPHICS, false)])];
    assert!(select_physical_device(&devices, &swapchain_only()).is_err());
}

#[test]
fn device_without_surface_formats_is_rejected() {
    let mut c = candidate(Features::all(), vec![family(1, QUEUE_GRAPHICS, true)]);
    c.surface_format_count = 0;
    assert!(select_physical_device(&vec![c.clone()], &swapchain_only()).is_err());
    c.surface_format_count = 1;
    c.present_mode_count = 0;
    assert!(select_physical_device(&vec![c], &swapchain_only()).is_err());
}

#[test]
fn missing_extension_rejects_device() {
    let devices = vec![candidate(Features::all(), vec![family(1, QUEUE_GRAPHICS, true)])];
    let req = DeviceRequirements {
        extensions: vec![DeviceExtensions::KhrSwapchain, DeviceExtensions::NvRayTracing],
        features: Features::none(),
    };
    assert!(select_physical_device(&devices, &req).is_err());
    assert!(select_physical_device(&vec![], &swapchain_only()).is_err());
}

#[test]
fn extension_support_check() {
    let avail = vec![DeviceExtensions::ExtDescriptorIndexing, DeviceExtensions::KhrSwapchain];
    assert!(check_device_extensions_support(&avail, &vec![]));
    assert!(check_device_extensions_support(&avail, &vec![DeviceExtensions::KhrSwapchain]));
    assert!(!check_device_extensions_support(&avail, &vec![DeviceExtensions::NvRayTracing]));
}

#[test]
fn queue_family_needs_queue_graphics_and_present() {
    let fams = vec![
        family(0, QUEUE_GRAPHICS, true),
        family(1, 0b110, true),
        family(1, QUEUE_GRAPHICS, false),
        family(3, 0b111, true),
        family(1, QUEUE_GRAPHICS, true),
    ];
    assert_eq!(find_queue_family(&fams), Some(3));
    assert_eq!(find_queue_family(&vec![]), None);
}

#[test]
fn feature_requirements() {
    let req = Features { tessellation_shader: true, fragment_stores_and_atomics: true, ..Features::none() };
    assert!(req.is_supported_by(&Features::all()));
    assert!(!req.is_supported_by(&Features { tessellation_shader: true, ..Features::none() }));
    assert!(Features::none().is_supported_by(&Features::none()));
    let all = Features::all();
    assert!(all.geometry_shader && all.tessellation_shader && all.runtime_descriptor_array);
    assert!(all.sampler_anisotropy && all.fragment_stores_and_atomics);
    let none = Features::none();
    assert!(!none.geometry_shader && !none.sampler_anisotropy && !none.runtime_descriptor_array);
}

#[test]
fn extension_names_round_trip() {
    for e in [
        DeviceExtensions::ExtDescriptorIndexing,
        DeviceExtensions::KhrSwapchain,
        DeviceExtensions::NvRayTracing,
    ] {
        assert_eq!(DeviceExtensions::from_name(e.name()), e);
    }
    assert_eq!(DeviceExtensions::KhrSwapchain.name(), "VK_KHR_swapchain");
    assert_eq!(DeviceExtensions::from_name("VK_KHR_maintenance1"), DeviceExtensions::NotImplemented);
    assert_eq!(DeviceExtensions::NotImplemented.name(), "NotImplemented");
}

#[test]
fn queue_constant_matches_vulkan() {
    assert_eq!(QUEUE_GRAPHICS, vk::QueueFlags::GRAPHICS.as_raw());
}
