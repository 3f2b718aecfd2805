//! The render pass: a color attachment (the swapchain image) and a depth
//! attachment, two subpasses that both draw into them, and the dependencies
//! that order the subpasses against presentation.
use vstd::prelude::*;
use crate::image::{
    ACCESS_COLOR_ATTACHMENT_READ,
    ACCESS_COLOR_ATTACHMENT_WRITE,
    ACCESS_MEMORY_READ,
    LAYOUT_COLOR_ATTACHMENT_OPTIMAL,
    LAYOUT_DEPTH_STENCIL_ATTACHMENT_OPTIMAL,
    LAYOUT_PRESENT_SRC,
    LAYOUT_UNDEFINED,
    STAGE_BOTTOM_OF_PIPE,
};
use crate::frame::STAGE_COLOR_ATTACHMENT_OUTPUT;

verus! {

/// `VK_SUBPASS_EXTERNAL`: the work before or after the render pass.
pub const SUBPASS_EXTERNAL: u32 = 0xffff_ffff;

/// What happens to an attachment's contents when the pass begins.
#[derive(Debug, Clone, Copy, PartialEq, Eq, Structural)]
pub enum LoadOp {
    Load,
    Clear,
    DontCare,
}

/// What happens to an attachment's contents when the pass ends.
#[derive(Debug, Clone, Copy, PartialEq, Eq, Structural)]
pub enum StoreOp {
    Store,
    DontCare,
}

/// One attachment, single-sampled.
#[derive(Debug, Clone, Copy, PartialEq, Eq, Structural)]
pub struct AttachmentDescription {
    pub format: i32,
    pub load_op: LoadOp,
    pub store_op: StoreOp,
    pub stencil_load_op: LoadOp,
    pub stencil_store_op: StoreOp,
    pub initial_layout: i32,
    pub final_layout: i32,
}

/// An attachment as a subpass uses it.
#[derive(Debug, Clone, Copy, PartialEq, Eq, Structural)]
pub struct AttachmentReference {
    pub attachment: u32,
    pub layout: i32,
}

/// A graphics subpass with one color and one depth-stencil attachment.
#[derive(Debug, Clone, Copy, PartialEq, Eq, Structural)]
pub struct SubpassDescription {
    pub color_attachment: AttachmentReference,
    pub depth_stencil_attachment: AttachmentReference,
}

/// An execution and memory dependency between two subpasses.
#[derive(Debug, Clone, Copy, PartialEq, Eq, Structural)]
pub struct SubpassDependency {
    pub src_subpass: u32,
    pub dst_subpass: u32,
    pub src_stage_mask: u32,
    pub dst_stage_mask: u32,
    pub src_access_mask: u32,
    pub dst_access_mask: u32,
    pub by_region: bool,
}

/// Everything a render pass is created with.
#[derive(Debug, Clone, PartialEq, Eq)]
pub struct RenderPassDescription {
    pub attachments: Vec<AttachmentDescription>,
    pub subpasses: Vec<SubpassDescription>,
    pub dependencies: Vec<SubpassDependency>,
}

/// The color attachment: cleared, stored, and left ready to present.
pub open spec fn color_attachment(format: i32) -> AttachmentDescription {
    AttachmentDescription {
        format,
        load_op: LoadOp::Clear,
        store_op: StoreOp::Store,
        stencil_load_op: LoadOp::DontCare,
        stencil_store_op: StoreOp::DontCare,
        initial_layout: LAYOUT_UNDEFINED,
        final_layout: LAYOUT_PRESENT_SRC,
    }
}

/// The depth attachment: cleared, not stored.
pub open spec fn depth_attachment(format: i32) -> AttachmentDescription {
    AttachmentDescription {
        format,
        load_op: LoadOp::Clear,
        store_op: StoreOp::DontCare,
        stencil_load_op: LoadOp::DontCare,
        stencil_store_op: StoreOp::DontCare,
        initial_layout: LAYOUT_UNDEFINED,
        final_layout: LAYOUT_DEPTH_STENCIL_ATTACHMENT_OPTIMAL,
    }
}

pub open spec fn main_subpass() -> SubpassDescription {
    SubpassDescription {
        color_attachment: AttachmentReference {
            attachment: 0,
            layout: LAYOUT_COLOR_ATTACHMENT_OPTIMAL,
        },
        depth_stencil_attachment: AttachmentReference {
            attachment: 1,
            layout: LAYOUT_DEPTH_STENCIL_ATTACHMENT_OPTIMAL,
        },
    }
}

/// The first subpass writes color only after earlier reads of the image
/// (presentation) are done.
pub open spec fn entry_dependency() -> SubpassDependency {
    SubpassDependency {
        src_subpass: SUBPASS_EXTERNAL,
        dst_subpass: 0,
        src_stage_mask: STAGE_BOTTOM_OF_PIPE,
        dst_stage_mask: STAGE_COLOR_ATTACHMENT_OUTPUT,
        src_access_mask: ACCESS_MEMORY_READ,
        dst_access_mask: ACCESS_COLOR_ATTACHMENT_READ | ACCESS_COLOR_ATTACHMENT_WRITE,
        by_region: true,
    }
}

/// The second subpass runs after the first one's color output.
pub open spec fn chain_dependency() -> SubpassDependency {
    SubpassDependency {
        src_subpass: 0,
        dst_subpass: 1,
        src_stage_mask: STAGE_COLOR_ATTACHMENT_OUTPUT,
        dst_stage_mask: STAGE_BOTTOM_OF_PIPE,
        src_access_mask: ACCESS_COLOR_ATTACHMENT_READ | ACCESS_COLOR_ATTACHMENT_WRITE,
        dst_access_mask: ACCESS_MEMORY_READ,
        by_region: true,
    }
}

/// The render pass for a swapchain format and a depth format.
pub fn describe_render_pass(color_format: i32, depth_format: i32) -> (r: RenderPassDescription)
    ensures
        r.attachments@ == seq![color_attachment(color_format), depth_attachment(depth_format)],
        r.subpasses@ == seq![main_subpass(), main_subpass()],
        r.dependencies@ == seq![entry_dependency(), chain_dependency()],
{
    let color = AttachmentDescription {
        format: color_format,
        load_op: LoadOp::Clear,
        store_op: StoreOp::Store,
        stencil_load_op: LoadOp::DontCare,
        stencil_store_op: StoreOp::DontCare,
        initial_layout: LAYOUT_UNDEFINED,
        final_layout: LAYOUT_PRESENT_SRC,
    };
    let depth = AttachmentDescription {
        format: depth_format,
        load_op: LoadOp::Clear,
        store_op: StoreOp::DontCare,
        stencil_load_op: LoadOp::DontCare,
        stencil_store_op: StoreOp::DontCare,
        initial_layout: LAYOUT_UNDEFINED,
        final_layout: LAYOUT_DEPTH_STENCIL_ATTACHMENT_OPTIMAL,
    };
    let subpass = SubpassDescription {
        color_attachment: AttachmentReference {
            attachment: 0,
            layout: LAYOUT_COLOR_ATTACHMENT_OPTIMAL,
        },
        depth_stencil_attachment: AttachmentReference {
            attachment: 1,
            layout: LAYOUT_DEPTH_STENCIL_ATTACHMENT_OPTIMAL,
        },
    };
    let entry = SubpassDependency {
        src_subpass: SUBPASS_EXTERNAL,
        dst_subpass: 0,
        src_stage_mask: STAGE_BOTTOM_OF_PIPE,
        dst_stage_mask: STAGE_COLOR_ATTACHMENT_OUTPUT,
        src_access_mask: ACCESS_MEMORY_READ,
        dst_access_mask: ACCESS_COLOR_ATTACHMENT_READ | ACCESS_COLOR_ATTACHMENT_WRITE,
        by_region: true,
    };
    let chain = SubpassDependency {
        src_subpass: 0,
        dst_subpass: 1,
        src_stage_mask: STAGE_COLOR_ATTACHMENT_OUTPUT,
        dst_stage_mask: STAGE_BOTTOM_OF_PIPE,
        src_access_mask: ACCESS_COLOR_ATTACHMENT_READ | ACCESS_COLOR_ATTACHMENT_WRITE,
        dst_access_mask: ACCESS_MEMORY_READ,
        by_region: true,
    };
    let r = RenderPassDescription {
        attachments: vec![color, depth],
        subpasses: vec![subpass, subpass],
        dependencies: vec![entry, chain],
    };
    proof {
        assert(r.attachments@ =~= seq![color_attachment(color_format), depth_attachment(depth_format)]);
        assert(r.subpasses@ =~= seq![main_subpass(), main_subpass()]);
        assert(r.dependencies@ =~= seq![entry_dependency(), chain_dependency()]);
    }
    r
}

} // verus!
