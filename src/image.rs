//! Images: the depth format, layout transitions and texture sizes.
use vstd::prelude::*;
use crate::errors::VulkanError;

verus! {

/// `VK_FORMAT_R8G8B8A8_UNORM`, the format textures are uploaded in.
pub const FORMAT_R8G8B8A8_UNORM: i32 = 37;
/// `VK_FORMAT_D24_UNORM_S8_UINT`.
pub const FORMAT_D24_UNORM_S8_UINT: i32 = 129;
/// `VK_FORMAT_D32_SFLOAT_S8_UINT`.
pub const FORMAT_D32_SFLOAT_S8_UINT: i32 = 130;

/// `VK_FORMAT_FEATURE_DEPTH_STENCIL_ATTACHMENT_BIT`.
pub const FORMAT_FEATURE_DEPTH_STENCIL_ATTACHMENT: u32 = 0x200;

/// `VK_IMAGE_LAYOUT_UNDEFINED`.
pub const LAYOUT_UNDEFINED: i32 = 0;
/// `VK_IMAGE_LAYOUT_COLOR_ATTACHMENT_OPTIMAL`.
pub const LAYOUT_COLOR_ATTACHMENT_OPTIMAL: i32 = 2;
/// `VK_IMAGE_LAYOUT_DEPTH_STENCIL_ATTACHMENT_OPTIMAL`.
pub const LAYOUT_DEPTH_STENCIL_ATTACHMENT_OPTIMAL: i32 = 3;
/// `VK_IMAGE_LAYOUT_SHADER_READ_ONLY_OPTIMAL`.
pub const LAYOUT_SHADER_READ_ONLY_OPTIMAL: i32 = 5;
/// `VK_IMAGE_LAYOUT_TRANSFER_SRC_OPTIMAL`.
pub const LAYOUT_TRANSFER_SRC_OPTIMAL: i32 = 6;
/// `VK_IMAGE_LAYOUT_TRANSFER_DST_OPTIMAL`.
pub const LAYOUT_TRANSFER_DST_OPTIMAL: i32 = 7;
/// `VK_IMAGE_LAYOUT_PRESENT_SRC_KHR`.
pub const LAYOUT_PRESENT_SRC: i32 = 1000001002;

/// `VK_IMAGE_ASPECT_COLOR_BIT`.
pub const ASPECT_COLOR: u32 = 0x1;
/// `VK_IMAGE_ASPECT_DEPTH_BIT`.
pub const ASPECT_DEPTH: u32 = 0x2;
/// `VK_IMAGE_ASPECT_STENCIL_BIT`.
pub const ASPECT_STENCIL: u32 = 0x4;

/// `VK_ACCESS_SHADER_READ_BIT`.
pub const ACCESS_SHADER_READ: u32 = 0x20;
/// `VK_ACCESS_COLOR_ATTACHMENT_READ_BIT`.
pub const ACCESS_COLOR_ATTACHMENT_READ: u32 = 0x80;
/// `VK_ACCESS_COLOR_ATTACHMENT_WRITE_BIT`.
pub const ACCESS_COLOR_ATTACHMENT_WRITE: u32 = 0x100;
/// `VK_ACCESS_DEPTH_STENCIL_ATTACHMENT_READ_BIT`.
pub const ACCESS_DEPTH_STENCIL_ATTACHMENT_READ: u32 = 0x200;
/// `VK_ACCESS_DEPTH_STENCIL_ATTACHMENT_WRITE_BIT`.
pub const ACCESS_DEPTH_STENCIL_ATTACHMENT_WRITE: u32 = 0x400;
/// `VK_ACCESS_TRANSFER_WRITE_BIT`.
pub const ACCESS_TRANSFER_WRITE: u32 = 0x1000;
/// `VK_ACCESS_MEMORY_READ_BIT`.
pub const ACCESS_MEMORY_READ: u32 = 0x8000;

/// `VK_PIPELINE_STAGE_TOP_OF_PIPE_BIT`.
pub const STAGE_TOP_OF_PIPE: u32 = 0x1;
/// `VK_PIPELINE_STAGE_FRAGMENT_SHADER_BIT`.
pub const STAGE_FRAGMENT_SHADER: u32 = 0x80;
/// `VK_PIPELINE_STAGE_EARLY_FRAGMENT_TESTS_BIT`.
pub const STAGE_EARLY_FRAGMENT_TESTS: u32 = 0x100;
/// `VK_PIPELINE_STAGE_TRANSFER_BIT`.
pub const STAGE_TRANSFER: u32 = 0x1000;
/// `VK_PIPELINE_STAGE_BOTTOM_OF_PIPE_BIT`.
pub const STAGE_BOTTOM_OF_PIPE: u32 = 0x2000;

/// How an image's texels are laid out in memory.
#[derive(Debug, Clone, Copy, PartialEq, Eq, Structural)]
pub enum ImageTiling {
    Optimal,
    Linear,
}

/// The features a device supports for a format, per tiling.
#[derive(Debug, Clone, Copy, PartialEq, Eq, Structural)]
pub struct FormatProperties {
    pub linear_tiling_features: u32,
    pub optimal_tiling_features: u32,
}

/// The barrier that moves an image from one layout to another.
#[derive(Debug, Clone, Copy, PartialEq, Eq, Structural)]
pub struct LayoutTransition {
    pub aspect_mask: u32,
    pub src_access_mask: u32,
    pub dst_access_mask: u32,
    pub src_stage: u32,
    pub dst_stage: u32,
}

pub open spec fn format_supports(p: FormatProperties, tiling: ImageTiling, features: u32) -> bool {
    match tiling {
        ImageTiling::Linear => p.linear_tiling_features & features == features,
        ImageTiling::Optimal => p.optimal_tiling_features & features == features,
    }
}

/// `i` is the first candidate whose properties support `features` in
/// `tiling`.
pub open spec fn is_first_supported(
    props: Seq<FormatProperties>,
    i: int,
    tiling: ImageTiling,
    features: u32,
) -> bool {
    &&& 0 <= i < props.len()
    &&& format_supports(props[i], tiling, features)
    &&& forall|j: int| 0 <= j < i ==> !format_supports(props[j], tiling, features)
}

/// The depth formats tried, in order of preference.
pub open spec fn depth_candidates() -> Seq<i32> {
    seq![FORMAT_D32_SFLOAT_S8_UINT, FORMAT_D24_UNORM_S8_UINT]
}

pub open spec fn has_stencil(format: i32) -> bool {
    format == FORMAT_D32_SFLOAT_S8_UINT || format == FORMAT_D24_UNORM_S8_UINT
}

/// The barrier for each supported layout change: undefined to a transfer
/// layout, transfer destination to shader-read, and undefined to
/// depth-stencil attachment. No other change is supported.
pub open spec fn layout_transition_spec(format: i32, old_layout: i32, new_layout: i32) -> Option<
    LayoutTransition,
> {
    let aspect_mask = if new_layout == LAYOUT_DEPTH_STENCIL_ATTACHMENT_OPTIMAL {
        if has_stencil(format) {
            ASPECT_DEPTH | ASPECT_STENCIL
        } else {
            ASPECT_DEPTH
        }
    } else {
        ASPECT_COLOR
    };
    if old_layout == LAYOUT_UNDEFINED && (new_layout == LAYOUT_TRANSFER_DST_OPTIMAL || new_layout
        == LAYOUT_TRANSFER_SRC_OPTIMAL) {
        Some(
            LayoutTransition {
                aspect_mask,
                src_access_mask: 0,
                dst_access_mask: ACCESS_TRANSFER_WRITE,
                src_stage: STAGE_TOP_OF_PIPE,
                dst_stage: STAGE_TRANSFER,
            },
        )
    } else if old_layout == LAYOUT_TRANSFER_DST_OPTIMAL && new_layout
        == LAYOUT_SHADER_READ_ONLY_OPTIMAL {
        Some(
            LayoutTransition {
                aspect_mask,
                src_access_mask: ACCESS_TRANSFER_WRITE,
                dst_access_mask: ACCESS_SHADER_READ,
                src_stage: STAGE_TRANSFER,
                dst_stage: STAGE_FRAGMENT_SHADER,
            },
        )
    } else if old_layout == LAYOUT_UNDEFINED && new_layout
        == LAYOUT_DEPTH_STENCIL_ATTACHMENT_OPTIMAL {
        Some(
            LayoutTransition {
                aspect_mask,
                src_access_mask: 0,
                dst_access_mask: ACCESS_DEPTH_STENCIL_ATTACHMENT_READ
                    | ACCESS_DEPTH_STENCIL_ATTACHMENT_WRITE,
                src_stage: STAGE_TOP_OF_PIPE,
                dst_stage: STAGE_EARLY_FRAGMENT_TESTS,
            },
        )
    } else {
        None
    }
}

/// The depth formats tried, most precise first.
pub fn depth_format_candidates() -> (r: Vec<i32>)
    ensures
        r@ == depth_candidates(),
{
    let r = vec![FORMAT_D32_SFLOAT_S8_UINT, FORMAT_D24_UNORM_S8_UINT];
    proof {
        assert(r@ =~= depth_candidates());
    }
    r
}

/// The first candidate format whose properties (`properties[i]` belongs to
/// `candidates[i]`) support `features` with the given tiling.
pub fn choose_supported_format(
    candidates: &Vec<i32>,
    properties: &Vec<FormatProperties>,
    tiling: ImageTiling,
    features: u32,
) -> (r: Option<i32>)
    requires
        candidates@.len() == properties@.len(),
    ensures
        r is None ==> forall|j: int|
            0 <= j < properties@.len() ==> !format_supports(properties@[j], tiling, features),
        r matches Some(f) ==> exists|i: int|
            is_first_supported(properties@, i, tiling, features) && candidates@[i] == f,
{
    let mut i: usize = 0;
    while i < candidates.len()
        invariant
            i <= candidates@.len() == properties@.len(),
            forall|j: int| 0 <= j < i ==> !format_supports(properties@[j], tiling, features),
        decreases candidates@.len() - i,
    {
        let p = properties[i];
        let ok = match tiling {
            ImageTiling::Linear => p.linear_tiling_features & features == features,
            ImageTiling::Optimal => p.optimal_tiling_features & features == features,
        };
        if ok {
            proof {
                assert(is_first_supported(properties@, i as int, tiling, features));
            }
            return Some(candidates[i]);
        }
        i = i + 1;
    }
    None
}

/// The depth buffer format: the first of `depth_format_candidates()` whose
/// optimal tiling supports depth-stencil attachments, given the device's
/// properties for each candidate in the same order. Fails with a depth
/// resources error when neither does.
pub fn choose_depth_format(properties: &Vec<FormatProperties>) -> (r: Result<i32, VulkanError>)
    requires
        properties@.len() == depth_candidates().len(),
    ensures
        r is Err <==> forall|j: int|
            0 <= j < properties@.len() ==> !format_supports(
                properties@[j],
                ImageTiling::Optimal,
                FORMAT_FEATURE_DEPTH_STENCIL_ATTACHMENT,
            ),
        r is Err ==> r matches Err(VulkanError::DepthResourcesCreationError(_)),
        r matches Ok(f) ==> exists|i: int|
            is_first_supported(
                properties@,
                i,
                ImageTiling::Optimal,
                FORMAT_FEATURE_DEPTH_STENCIL_ATTACHMENT,
            ) && depth_candidates()[i] == f,
{
    let candidates = depth_format_candidates();
    match choose_supported_format(
        &candidates,
        properties,
        ImageTiling::Optimal,
        FORMAT_FEATURE_DEPTH_STENCIL_ATTACHMENT,
    ) {
        Some(f) => {
            proof {
                let i = choose|i: int|
                    is_first_supported(
                        properties@,
                        i,
                        ImageTiling::Optimal,
                        FORMAT_FEATURE_DEPTH_STENCIL_ATTACHMENT,
                    ) && candidates@[i] == f;
                assert(!(forall|j: int|
                    0 <= j < properties@.len() ==> !format_supports(
                        properties@[j],
                        ImageTiling::Optimal,
                        FORMAT_FEATURE_DEPTH_STENCIL_ATTACHMENT,
                    ))) by {
                    assert(format_supports(
                        properties@[i],
                        ImageTiling::Optimal,
                        FORMAT_FEATURE_DEPTH_STENCIL_ATTACHMENT,
                    ));
                }
            }
            Ok(f)
        },
        None => Err(
            VulkanError::DepthResourcesCreationError(
                "no depth format supports depth-stencil attachments".to_string(),
            ),
        ),
    }
}

/// The barrier for a layout change (see `layout_transition_spec`). Fails
/// with an image creation error for an unsupported change.
pub fn transition_image_layout(format: i32, old_layout: i32, new_layout: i32) -> (r: Result<
    LayoutTransition,
    VulkanError,
>)
    ensures
        layout_transition_spec(format, old_layout, new_layout) matches Some(t) ==> r
            == Ok::<LayoutTransition, VulkanError>(t),
        layout_transition_spec(format, old_layout, new_layout) is None ==> r matches Err(
            VulkanError::ImageCreationError(_),
        ),
{
    let aspect_mask = if new_layout == LAYOUT_DEPTH_STENCIL_ATTACHMENT_OPTIMAL {
        if format == FORMAT_D32_SFLOAT_S8_UINT || format == FORMAT_D24_UNORM_S8_UINT {
            ASPECT_DEPTH | ASPECT_STENCIL
        } else {
            ASPECT_DEPTH
        }
    } else {
        ASPECT_COLOR
    };
    if old_layout == LAYOUT_UNDEFINED && (new_layout == LAYOUT_TRANSFER_DST_OPTIMAL || new_layout
        == LAYOUT_TRANSFER_SRC_OPTIMAL) {
        Ok(
            LayoutTransition {
                aspect_mask,
                src_access_mask: 0,
                dst_access_mask: ACCESS_TRANSFER_WRITE,
                src_stage: STAGE_TOP_OF_PIPE,
                dst_stage: STAGE_TRANSFER,
            },
        )
    } else if old_layout == LAYOUT_TRANSFER_DST_OPTIMAL && new_layout
        == LAYOUT_SHADER_READ_ONLY_OPTIMAL {
        Ok(
            LayoutTransition {
                aspect_mask,
                src_access_mask: ACCESS_TRANSFER_WRITE,
                dst_access_mask: ACCESS_SHADER_READ,
                src_stage: STAGE_TRANSFER,
                dst_stage: STAGE_FRAGMENT_SHADER,
            },
        )
    } else if old_layout == LAYOUT_UNDEFINED && new_layout
        == LAYOUT_DEPTH_STENCIL_ATTACHMENT_OPTIMAL {
        Ok(
            LayoutTransition {
                aspect_mask,
                src_access_mask: 0,
                dst_access_mask: ACCESS_DEPTH_STENCIL_ATTACHMENT_READ
                    | ACCESS_DEPTH_STENCIL_ATTACHMENT_WRITE,
                src_stage: STAGE_TOP_OF_PIPE,
                dst_stage: STAGE_EARLY_FRAGMENT_TESTS,
            },
        )
    } else {
        Err(VulkanError::ImageCreationError("unsupported layout transition".to_string()))
    }
}

/// The byte size of an RGBA8 texture of `width` by `height` texels. Fails
/// with a texture error when no texel is given (no image), when the size
/// does not fit in 64 bits, or when `pixel_len` bytes do not cover it.
pub fn texture_size(width: u32, height: u32, pixel_len: usize) -> (r: Result<u64, VulkanError>)
    ensures
        width == 0 || height == 0 || width * height * 4 > u64::MAX || pixel_len < width * height
            * 4 ==> r matches Err(VulkanError::TextureCreationError(_)),
        !(width == 0 || height == 0 || width * height * 4 > u64::MAX || pixel_len < width * height
            * 4) ==> r == Ok::<u64, VulkanError>((width * height * 4) as u64),
{
    if width == 0 || height == 0 {
        return Err(VulkanError::TextureCreationError("the image is empty".to_string()));
    }
    proof {
        assert((width as int) * (height as int) <= 0xffff_ffffint * 0xffff_ffffint)
            by (nonlinear_arith)
            requires
                0 <= width <= 0xffff_ffff,
                0 <= height <= 0xffff_ffff,
        ;
    }
    let texels = (width as u64) * (height as u64);
    if texels > u64::MAX / 4 {
        return Err(VulkanError::TextureCreationError("the image is too large".to_string()));
    }
    let size = texels * 4;
    if (pixel_len as u64) < size {
        return Err(
            VulkanError::TextureCreationError("the pixel data does not cover the image".to_string()),
        );
    }
    Ok(size)
}

} // verus!
