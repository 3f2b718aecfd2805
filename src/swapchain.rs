//! Swapchain parameters: surface format, present mode, extent, image count
//! and sharing mode, chosen from what the surface reports.
use vstd::prelude::*;
use crate::errors::VulkanError;

verus! {

/// `VK_FORMAT_UNDEFINED`.
pub const FORMAT_UNDEFINED: i32 = 0;
/// `VK_FORMAT_B8G8R8A8_UNORM`.
pub const FORMAT_B8G8R8A8_UNORM: i32 = 44;
/// `VK_COLOR_SPACE_SRGB_NONLINEAR_KHR`.
pub const COLOR_SPACE_SRGB_NONLINEAR: i32 = 0;
/// `VK_PRESENT_MODE_MAILBOX_KHR`.
pub const PRESENT_MODE_MAILBOX: i32 = 1;
/// `VK_PRESENT_MODE_FIFO_KHR`, which every surface supports.
pub const PRESENT_MODE_FIFO: i32 = 2;

/// A (format, color space) pair that a surface supports.
#[derive(Debug, Clone, Copy, PartialEq, Eq, Structural)]
pub struct SurfaceFormat {
    pub format: i32,
    pub color_space: i32,
}

/// A width and a height in pixels.
#[derive(Debug, Clone, Copy, PartialEq, Eq, Structural)]
pub struct Extent2D {
    pub width: u32,
    pub height: u32,
}

/// What the surface reports of the swapchains it accepts. A
/// `max_image_count` of 0 means no upper bound; a current extent whose width
/// is `u32::MAX` means the surface leaves the extent to the swapchain.
#[derive(Debug, Clone, Copy, PartialEq, Eq, Structural)]
pub struct SurfaceCapabilities {
    pub min_image_count: u32,
    pub max_image_count: u32,
    pub current_extent: Extent2D,
}

/// Everything a swapchain is created with that the engine decides.
#[derive(Debug, Clone, PartialEq, Eq)]
pub struct SwapchainPlan {
    pub format: SurfaceFormat,
    pub present_mode: i32,
    pub extent: Extent2D,
    pub min_image_count: u32,
    /// Images are shared between two queue families (concurrent mode).
    pub concurrent_sharing: bool,
    /// The families that share the images; empty in exclusive mode.
    pub queue_family_indices: Vec<u32>,
}

/// The preferred surface format: 8-bit BGRA in the non-linear sRGB space.
pub open spec fn preferred_format() -> SurfaceFormat {
    SurfaceFormat { format: FORMAT_B8G8R8A8_UNORM, color_space: COLOR_SPACE_SRGB_NONLINEAR }
}

/// The format chosen from a non-empty list: the preferred one when the
/// surface reports a single undefined format (any format goes) or lists the
/// preferred one; else the first one listed.
pub open spec fn chosen_format(formats: Seq<SurfaceFormat>) -> SurfaceFormat {
    if formats.len() == 1 && formats[0].format == FORMAT_UNDEFINED {
        preferred_format()
    } else if formats.contains(preferred_format()) {
        preferred_format()
    } else {
        formats[0]
    }
}

pub open spec fn chosen_present_mode(modes: Seq<i32>) -> i32 {
    if modes.contains(PRESENT_MODE_MAILBOX) {
        PRESENT_MODE_MAILBOX
    } else {
        PRESENT_MODE_FIFO
    }
}

pub open spec fn chosen_extent(caps: SurfaceCapabilities, width: u32, height: u32) -> Extent2D {
    if caps.current_extent.width == u32::MAX {
        Extent2D { width, height }
    } else {
        caps.current_extent
    }
}

/// The image count asked for: at least the frames in flight and at least the
/// surface's minimum.
pub open spec fn wanted_image_count(caps: SurfaceCapabilities, frames_count: u32) -> u32 {
    if frames_count >= caps.min_image_count {
        frames_count
    } else {
        caps.min_image_count
    }
}

pub open spec fn image_count_fits(caps: SurfaceCapabilities, frames_count: u32) -> bool {
    caps.max_image_count == 0 || wanted_image_count(caps, frames_count) <= caps.max_image_count
}

/// Chooses the surface format (see `chosen_format`). Fails with a surface
/// error when the surface reports no format.
pub fn choose_surface_format(formats: &Vec<SurfaceFormat>) -> (r: Result<SurfaceFormat, VulkanError>)
    ensures
        formats@.len() == 0 ==> r matches Err(VulkanError::SurfaceError(_)),
        formats@.len() > 0 ==> r == Ok::<SurfaceFormat, VulkanError>(chosen_format(formats@)),
{
    if formats.len() == 0 {
        return Err(VulkanError::SurfaceError("the surface reports no format".to_string()));
    }
    let preferred = SurfaceFormat {
        format: FORMAT_B8G8R8A8_UNORM,
        color_space: COLOR_SPACE_SRGB_NONLINEAR,
    };
    if formats.len() == 1 && formats[0].format == FORMAT_UNDEFINED {
        return Ok(preferred);
    }
    let mut i: usize = 0;
    while i < formats.len()
        invariant
            i <= formats@.len(),
            forall|j: int| 0 <= j < i ==> formats@[j] != preferred_format(),
        decreases formats@.len() - i,
    {
        if formats[i].format == FORMAT_B8G8R8A8_UNORM && formats[i].color_space
            == COLOR_SPACE_SRGB_NONLINEAR {
            proof {
                assert(formats@[i as int] == preferred_format());
            }
            return Ok(formats[i]);
        }
        i = i + 1;
    }
    Ok(formats[0])
}

/// Chooses mailbox (low-latency, triple-buffering style) when the surface
/// lists it, else FIFO.
pub fn choose_present_mode(present_modes: &Vec<i32>) -> (r: i32)
    ensures
        r == chosen_present_mode(present_modes@),
{
    let mut i: usize = 0;
    while i < present_modes.len()
        invariant
            i <= present_modes@.len(),
            forall|j: int| 0 <= j < i ==> present_modes@[j] != PRESENT_MODE_MAILBOX,
        decreases present_modes@.len() - i,
    {
        if present_modes[i] == PRESENT_MODE_MAILBOX {
            proof {
                assert(present_modes@.contains(PRESENT_MODE_MAILBOX));
            }
            return PRESENT_MODE_MAILBOX;
        }
        i = i + 1;
    }
    PRESENT_MODE_FIFO
}

/// The surface's current extent when it reports one; the caller's width
/// and height when the surface leaves the extent open.
pub fn choose_surface_extent(caps: &SurfaceCapabilities, width: u32, height: u32) -> (r: Extent2D)
    ensures
        r == chosen_extent(*caps, width, height),
{
    if caps.current_extent.width == u32::MAX {
        Extent2D { width, height }
    } else {
        caps.current_extent
    }
}

/// The minimum image count to create the swapchain with: the larger of the
/// frames in flight and the surface minimum. Fails with a swapchain creation
/// error when the surface's maximum is below it.
pub fn choose_image_count(caps: &SurfaceCapabilities, frames_count: u32) -> (r: Result<
    u32,
    VulkanError,
>)
    ensures
        image_count_fits(*caps, frames_count) ==> r == Ok::<u32, VulkanError>(
            wanted_image_count(*caps, frames_count),
        ),
        !image_count_fits(*caps, frames_count) ==> r matches Err(
            VulkanError::SwapchainCreationError(_),
        ),
        r matches Ok(n) ==> n >= frames_count && n >= caps.min_image_count,
{
    let wanted = if frames_count >= caps.min_image_count {
        frames_count
    } else {
        caps.min_image_count
    };
    if caps.max_image_count != 0 && wanted > caps.max_image_count {
        return Err(
            VulkanError::SwapchainCreationError(
                "the surface allows fewer images than frames in flight".to_string(),
            ),
        );
    }
    Ok(wanted)
}

/// Everything the swapchain is created with. The images are exclusive to one
/// queue family when graphics and presentation share it, and concurrent
/// between the two otherwise. Fails when the surface reports no format
/// (surface error) or cannot hold enough images (swapchain creation error).
pub fn plan_swapchain(
    formats: &Vec<SurfaceFormat>,
    present_modes: &Vec<i32>,
    caps: &SurfaceCapabilities,
    width: u32,
    height: u32,
    frames_count: u32,
    graphics_family: u32,
    present_family: u32,
) -> (r: Result<SwapchainPlan, VulkanError>)
    ensures
        formats@.len() == 0 ==> r matches Err(VulkanError::SurfaceError(_)),
        formats@.len() > 0 && !image_count_fits(*caps, frames_count) ==> r matches Err(
            VulkanError::SwapchainCreationError(_),
        ),
        formats@.len() > 0 && image_count_fits(*caps, frames_count) ==> (r matches Ok(p)
            && p.format == chosen_format(formats@) && p.present_mode == chosen_present_mode(
            present_modes@,
        ) && p.extent == chosen_extent(*caps, width, height) && p.min_image_count
            == wanted_image_count(*caps, frames_count) && p.concurrent_sharing == (graphics_family
            != present_family) && (if graphics_family != present_family {
            p.queue_family_indices@ == seq![graphics_family, present_family]
        } else {
            p.queue_family_indices@.len() == 0
        })),
{
    let format = choose_surface_format(formats)?;
    let min_image_count = choose_image_count(caps, frames_count)?;
    let present_mode = choose_present_mode(present_modes);
    let extent = choose_surface_extent(caps, width, height);
    let concurrent_sharing = graphics_family != present_family;
    let queue_family_indices = if concurrent_sharing {
        vec![graphics_family, present_family]
    } else {
        Vec::new()
    };
    Ok(
        SwapchainPlan {
            format,
            present_mode,
            extent,
            min_image_count,
            concurrent_sharing,
            queue_family_indices,
        },
    )
}

/// Format selection is a function of the reported formats alone: identical
/// lists give identical choices, and the choice is either the preferred
/// format or the first one reported.
pub proof fn lemma_format_choice_deterministic(a: Seq<SurfaceFormat>, b: Seq<SurfaceFormat>)
    requires
        a.len() > 0,
        a == b,
    ensures
        chosen_format(a) == chosen_format(b),
        chosen_format(a) == preferred_format() || chosen_format(a) == a[0],
{
}

} // verus!
