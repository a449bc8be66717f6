use ash::vk;
use anasaizi::render_pass::{
    AttachmentReference, SubpassDependency, VkRenderPassBuilder, VkSubpassDescriptor,
    VK_ATTACHMENT_LOAD_OP_CLEAR, VK_ATTACHMENT_LOAD_OP_DONT_CARE, VK_ATTACHMENT_STORE_OP_DONT_CARE,
    VK_ATTACHMENT_STORE_OP_STORE, VK_IMAGE_LAYOUT_COLOR_ATTACHMENT_OPTIMAL,
    VK_IMAGE_LAYOUT_DEPTH_STENCIL_ATTACHMENT_OPTIMAL, VK_IMAGE_LAYOUT_UNDEFINED,
    VK_PIPELINE_BIND_POINT_GRAPHICS, VK_SAMPLE_COUNT_1_BIT,
};

const PRESENT_SRC: i32 = 1000001002;

fn dependency() -> SubpassDependency {
    SubpassDependency {
        src_subpass: u32::MAX,
        dst_subpass: 0,
        src_stage_mask: 0x400,
        dst_stage_mask: 0x400,
        src_access_mask: 0,
        dst_access_mask: 0x180,
        dependency_flags: 0,
    }
}

#[test]
fn builder_collects_attachments_and_subpasses() {
    let builder = VkRenderPassBuilder::builder()
        .add_color_attachment(0, 50, PRESENT_SRC, VK_IMAGE_LAYOUT_COLOR_ATTACHMENT_OPTIMAL)
        .add_depth_attachment(1, 126)
        .add_subpasses(
            vec![
                VkSubpassDescriptor::new().with_color(0).with_depth(1),
                VkSubpassDescriptor::new().with_color(0),
                VkSubpassDescriptor::new(),
            ],
            &[dependency()],
        );

    let attachments = builder.attachments();
    assert_eq!(attachments.len(), 2);
    assert_eq!(attachments[0].format, 50);
    assert_eq!(attachments[0].samples, VK_SAMPLE_COUNT_1_BIT);
    assert_eq!(attachments[0].load_op, VK_ATTACHMENT_LOAD_OP_CLEAR);
    assert_eq!(attachments[0].store_op, VK_ATTACHMENT_STORE_OP_STORE);
    assert_eq!(attachments[0].stencil_load_op, VK_ATTACHMENT_LOAD_OP_DONT_CARE);
    assert_eq!(attachments[0].initial_layout, VK_IMAGE_LAYOUT_COLOR_ATTACHMENT_OPTIMAL);
    assert_eq!(attachments[0].final_layout, PRESENT_SRC);
    assert_eq!(attachments[1].format, 126);
    assert_eq!(attachments[1].store_op, VK_ATTACHMENT_STORE_OP_DONT_CARE);
    assert_eq!(attachments[1].final_layout, VK_IMAGE_LAYOUT_DEPTH_STENCIL_ATTACHMENT_OPTIMAL);

    let subpasses = builder.subpasses();
    assert_eq!(subpasses.len(), 3);
    let color_ref = AttachmentReference { attachment: 0, layout: VK_IMAGE_LAYOUT_COLOR_ATTACHMENT_OPTIMAL };
    let depth_ref = AttachmentReference { attachment: 1, layout: VK_IMAGE_LAYOUT_DEPTH_STENCIL_ATTACHMENT_OPTIMAL };
    assert_eq!(subpasses[0].pipeline_bind_point, VK_PIPELINE_BIND_POINT_GRAPHICS);
    assert_eq!(subpasses[0].color_attachments, vec![color_ref]);
    assert_eq!(subpasses[0].depth_stencil_attachment, Some(depth_ref));
    assert_eq!(subpasses[1].color_attachments, vec![color_ref]);
    assert_eq!(subpasses[1].depth_stencil_attachment, None);
    assert!(subpasses[2].color_attachments.is_empty());
    assert_eq!(subpasses[2].depth_stencil_attachment, None);

    assert_eq!(builder.dependencies(), &vec![dependency()]);
}

#[test]
fn depth_only_subpass_before_depth_attachment_uses_default_reference() {
    let builder = VkRenderPassBuilder::builder()
        .add_subpasses(vec![VkSubpassDescriptor::new().with_depth(0)], &[]);
    assert_eq!(
        builder.subpasses()[0].depth_stencil_attachment,
        Some(AttachmentReference { attachment: 0, layout: VK_IMAGE_LAYOUT_UNDEFINED })
    );
    assert!(builder.attachments().is_empty());
}

#[test]
fn render_pass_codes_match_vulkan() {
    assert_eq!(VK_SAMPLE_COUNT_1_BIT, vk::SampleCountFlags::TYPE_1.as_raw());
    assert_eq!(VK_ATTACHMENT_LOAD_OP_CLEAR, vk::AttachmentLoadOp::CLEAR.as_raw());
    assert_eq!(VK_ATTACHMENT_LOAD_OP_DONT_CARE, vk::AttachmentLoadOp::DONT_CARE.as_raw());
    assert_eq!(VK_ATTACHMENT_STORE_OP_STORE, vk::AttachmentStoreOp::STORE.as_raw());
    assert_eq!(VK_ATTACHMENT_STORE_OP_DONT_CARE, vk::AttachmentStoreOp::DONT_CARE.as_raw());
    assert_eq!(VK_IMAGE_LAYOUT_UNDEFINED, vk::ImageLayout::UNDEFINED.as_raw());
    assert_eq!(VK_IMAGE_LAYOUT_COLOR_ATTACHMENT_OPTIMAL, vk::ImageLayout::COLOR_ATTACHMENT_OPTIMAL.as_raw());
    assert_eq!(VK_IMAGE_LAYOUT_DEPTH_STENCIL_ATTACHMENT_OPTIMAL, vk::ImageLayout::DEPTH_STENCIL_ATTACHMENT_OPTIMAL.as_raw());
    assert_eq!(VK_PIPELINE_BIND_POINT_GRAPHICS, vk::PipelineBindPoint::GRAPHICS.as_raw());
    assert_eq!(PRESENT_SRC, vk::ImageLayout::PRESENT_SRC_KHR.as_raw());
}
