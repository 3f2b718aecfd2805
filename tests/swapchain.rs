use ash::vk;
use vkcore::errors::VulkanError;
use vkcore::swapchain::{
    choose_image_count, choose_present_mode, choose_surface_extent, choose_surface_format,
    plan_swapchain, Extent2D, SurfaceCapabilities, SurfaceFormat, COLOR_SPACE_SRGB_NONLINEAR,
    FORMAT_B8G8R8A8_UNORM, FORMAT_UNDEFINED, PRESENT_MODE_FIFO, PRESENT_MODE_MAILBOX,
};

fn sf(format: i32, color_space: i32) -> SurfaceFormat {
    SurfaceFormat { format, color_space }
}

fn preferred() -> SurfaceFormat {
    sf(FORMAT_B8G8R8A8_UNORM, COLOR_SPACE_SRGB_NONLINEAR)
}

fn caps(min: u32, max: u32, width: u32, height: u32) -> SurfaceCapabilities {
    SurfaceCapabilities {
        min_image_count: min,
        max_image_count: max,
        current_extent: Extent2D { width, height },
    }
}

#[test]
fn single_undefined_format_gives_preferred() {
    assert_eq!(choose_surface_format(&vec![sf(FORMAT_UNDEFINED, 7)]).unwrap(), preferred());
}

#[test]
fn preferred_format_wins_when_listed() {
    let formats = vec![sf(37, 0), sf(50, 0), preferred()];
    assert_eq!(choose_surface_format(&formats).unwrap(), preferred());
}

#[test]
fn first_format_when_preferred_missing() {
    let formats = vec![sf(37, 0), sf(FORMAT_B8G8R8A8_UNORM, 5), sf(50, 0)];
    assert_eq!(choose_surface_format(&formats).unwrap(), sf(37, 0));
    let formats = vec![sf(FORMAT_UNDEFINED, 0), sf(37, 0)];
    assert_eq!(choose_surface_format(&formats).unwrap(), sf(FORMAT_UNDEFINED, 0));
}

#[test]
fn format_choice_is_deterministic() {
    let formats = vec![sf(37, 0), sf(50, 0), sf(64, 1)];
    assert_eq!(
        choose_surface_format(&formats).unwrap(),
        choose_surface_format(&formats.clone()).unwrap()
    );
}

#[test]
fn no_format_is_a_surface_error() {
    assert!(matches!(choose_surface_format(&vec![]), Err(VulkanError::SurfaceError(_))));
}

#[test]
fn present_mode_prefers_mailbox() {
    assert_eq!(choose_present_mode(&vec![0, 2, 1]), PRESENT_MODE_MAILBOX);
    assert_eq!(choose_present_mode(&vec![0, 2, 3]), PRESENT_MODE_FIFO);
    assert_eq!(choose_present_mode(&vec![]), PRESENT_MODE_FIFO);
}

#[test]
fn extent_follows_surface_unless_open() {
    assert_eq!(
        choose_surface_extent(&caps(2, 8, 1024, 768), 800, 600),
        Extent2D { width: 1024, height: 768 }
    );
    assert_eq!(
        choose_surface_extent(&caps(2, 8, u32::MAX, u32::MAX), 800, 600),
        Extent2D { width: 800, height: 600 }
    );
}

#[test]
fn image_count_covers_frames_and_surface_minimum() {
    assert_eq!(choose_image_count(&caps(2, 8, 1, 1), 3).unwrap(), 3);
    assert_eq!(choose_image_count(&caps(3, 8, 1, 1), 2).unwrap(), 3);
    assert_eq!(choose_image_count(&caps(2, 0, 1, 1), 16).unwrap(), 16);
    assert!(matches!(
        choose_image_count(&caps(2, 3, 1, 1), 4),
        Err(VulkanError::SwapchainCreationError(_))
    ));
}

#[test]
fn swapchain_plan_sharing_mode() {
    let formats = vec![preferred()];
    let p = plan_swapchain(&formats, &vec![1, 2], &caps(2, 0, 640, 480), 1, 1, 2, 0, 0).unwrap();
    assert!(!p.concurrent_sharing);
    assert!(p.queue_family_indices.is_empty());
    assert_eq!(p.format, preferred());
    assert_eq!(p.present_mode, PRESENT_MODE_MAILBOX);
    assert_eq!(p.extent, Extent2D { width: 640, height: 480 });
    assert_eq!(p.min_image_count, 2);
    let p = plan_swapchain(&formats, &vec![2], &caps(3, 0, u32::MAX, 0), 800, 600, 2, 0, 1)
        .unwrap();
    assert!(p.concurrent_sharing);
    assert_eq!(p.queue_family_indices, vec![0, 1]);
    assert_eq!(p.min_image_count, 3);
    assert_eq!(p.extent, Extent2D { width: 800, height: 600 });
    assert!(matches!(
        plan_swapchain(&vec![], &vec![2], &caps(2, 0, 1, 1), 1, 1, 2, 0, 0),
        Err(VulkanError::SurfaceError(_))
    ));
}

#[test]
fn swapchain_constants_match_vulkan() {
    assert_eq!(FORMAT_UNDEFINED, vk::Format::UNDEFINED.as_raw());
    assert_eq!(FORMAT_B8G8R8A8_UNORM, vk::Format::B8G8R8A8_UNORM.as_raw());
    assert_eq!(COLOR_SPACE_SRGB_NONLINEAR, vk::ColorSpaceKHR::SRGB_NONLINEAR.as_raw());
    assert_eq!(PRESENT_MODE_MAILBOX, vk::PresentModeKHR::MAILBOX.as_raw());
    assert_eq!(PRESENT_MODE_FIFO, vk::PresentModeKHR::FIFO.as_raw());
}
