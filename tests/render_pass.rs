use ash::vk;
use vkcore::image::{
    ACCESS_COLOR_ATTACHMENT_READ, ACCESS_COLOR_ATTACHMENT_WRITE, ACCESS_MEMORY_READ,
    LAYOUT_COLOR_ATTACHMENT_OPTIMAL, LAYOUT_DEPTH_STENCIL_ATTACHMENT_OPTIMAL, LAYOUT_PRESENT_SRC,
    LAYOUT_UNDEFINED, STAGE_BOTTOM_OF_PIPE,
};
use vkcore::render_pass::{describe_render_pass, LoadOp, StoreOp, SUBPASS_EXTERNAL};

#[test]
fn render_pass_description() {
    let d = describe_render_pass(44, 130);
    assert_eq!(d.attachments.len(), 2);
    let c = d.attachments[0];
    assert_eq!(c.format, 44);
    assert_eq!(c.load_op, LoadOp::Clear);
    assert_eq!(c.store_op, StoreOp::Store);
    assert_eq!(c.initial_layout, LAYOUT_UNDEFINED);
    assert_eq!(c.final_layout, LAYOUT_PRESENT_SRC);
    let z = d.attachments[1];
    assert_eq!(z.format, 130);
    assert_eq!(z.store_op, StoreOp::DontCare);
    assert_eq!(z.stencil_load_op, LoadOp::DontCare);
    assert_eq!(z.final_layout, LAYOUT_DEPTH_STENCIL_ATTACHMENT_OPTIMAL);
    assert_eq!(d.subpasses.len(), 2);
    for s in d.subpasses.iter() {
        assert_eq!(s.color_attachment.attachment, 0);
        assert_eq!(s.color_attachment.layout, LAYOUT_COLOR_ATTACHMENT_OPTIMAL);
        assert_eq!(s.depth_stencil_attachment.attachment, 1);
    }
    assert_eq!(d.dependencies.len(), 2);
    assert_eq!(d.dependencies[0].src_subpass, SUBPASS_EXTERNAL);
    assert_eq!(d.dependencies[0].dst_subpass, 0);
    assert_eq!(d.dependencies[0].src_stage_mask, STAGE_BOTTOM_OF_PIPE);
    assert_eq!(d.dependencies[0].src_access_mask, ACCESS_MEMORY_READ);
    assert_eq!(
        d.dependencies[1].src_access_mask,
        ACCESS_COLOR_ATTACHMENT_READ | ACCESS_COLOR_ATTACHMENT_WRITE
    );
    assert_eq!(d.dependencies[1].dst_subpass, 1);
    assert!(d.dependencies[1].by_region);
}

#[test]
fn render_pass_constants_match_vulkan() {
    assert_eq!(SUBPASS_EXTERNAL, vk::SUBPASS_EXTERNAL);
    assert_eq!(LAYOUT_COLOR_ATTACHMENT_OPTIMAL, vk::ImageLayout::COLOR_ATTACHMENT_OPTIMAL.as_raw());
    assert_eq!(STAGE_BOTTOM_OF_PIPE, vk::PipelineStageFlags::BOTTOM_OF_PIPE.as_raw());
    assert_eq!(ACCESS_MEMORY_READ, vk::AccessFlags::MEMORY_READ.as_raw());
    assert_eq!(ACCESS_COLOR_ATTACHMENT_READ, vk::AccessFlags::COLOR_ATTACHMENT_READ.as_raw());
    assert_eq!(ACCESS_COLOR_ATTACHMENT_WRITE, vk::AccessFlags::COLOR_ATTACHMENT_WRITE.as_raw());
}
