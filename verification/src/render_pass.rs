//! Render passes: their attachments, subpasses and dependencies, gathered by a builder
//! before the pass is created on the device.
use vstd::prelude::*;

verus! {

/// `VK_SAMPLE_COUNT_1_BIT`
pub const VK_SAMPLE_COUNT_1_BIT: u32 = 0x1u32;

/// `VK_ATTACHMENT_LOAD_OP_CLEAR`
pub const VK_ATTACHMENT_LOAD_OP_CLEAR: i32 = 1i32;

/// `VK_ATTACHMENT_LOAD_OP_DONT_CARE`
pub const VK_ATTACHMENT_LOAD_OP_DONT_CARE: i32 = 2i32;

/// `VK_ATTACHMENT_STORE_OP_STORE`
pub const VK_ATTACHMENT_STORE_OP_STORE: i32 = 0i32;

/// `VK_ATTACHMENT_STORE_OP_DONT_CARE`
pub const VK_ATTACHMENT_STORE_OP_DONT_CARE: i32 = 1i32;

/// `VK_IMAGE_LAYOUT_UNDEFINED`
pub const VK_IMAGE_LAYOUT_UNDEFINED: i32 = 0i32;

/// `VK_IMAGE_LAYOUT_COLOR_ATTACHMENT_OPTIMAL`
pub const VK_IMAGE_LAYOUT_COLOR_ATTACHMENT_OPTIMAL: i32 = 2i32;

/// `VK_IMAGE_LAYOUT_DEPTH_STENCIL_ATTACHMENT_OPTIMAL`
pub const VK_IMAGE_LAYOUT_DEPTH_STENCIL_ATTACHMENT_OPTIMAL: i32 = 3i32;

/// `VK_PIPELINE_BIND_POINT_GRAPHICS`
pub const VK_PIPELINE_BIND_POINT_GRAPHICS: i32 = 0i32;

/// An image that a render pass reads or writes, and what happens to it.
#[derive(Clone, Copy, Debug, PartialEq, Eq)]
pub struct AttachmentDescription {
    /// `VkFormat` code.
    pub format: i32,
    /// `VkSampleCountFlagBits` bits.
    pub samples: u32,
    /// `VkAttachmentLoadOp` code.
    pub load_op: i32,
    /// `VkAttachmentStoreOp` code.
    pub store_op: i32,
    pub stencil_load_op: i32,
    pub stencil_store_op: i32,
    /// `VkImageLayout` codes.
    pub initial_layout: i32,
    pub final_layout: i32,
}

/// A reference from a subpass to an attachment, with the layout that the subpass uses.
#[derive(Clone, Copy, Debug, PartialEq, Eq)]
pub struct AttachmentReference {
    pub attachment: u32,
    /// `VkImageLayout` code.
    pub layout: i32,
}

/// One subpass: the attachments that it renders to.
#[derive(Clone, Debug, PartialEq, Eq)]
pub struct SubpassDescription {
    /// `VkPipelineBindPoint` code.
    pub pipeline_bind_point: i32,
    pub color_attachments: Vec<AttachmentReference>,
    pub depth_stencil_attachment: Option<AttachmentReference>,
}

/// An execution and memory dependency between two subpasses.
#[derive(Clone, Copy, Debug, PartialEq, Eq)]
pub struct SubpassDependency {
    pub src_subpass: u32,
    pub dst_subpass: u32,
    /// `VkPipelineStageFlags` bits.
    pub src_stage_mask: u32,
    pub dst_stage_mask: u32,
    /// `VkAccessFlags` bits.
    pub src_access_mask: u32,
    pub dst_access_mask: u32,
    /// `VkDependencyFlags` bits.
    pub dependency_flags: u32,
}

/// Which attachments a subpass renders to: the color attachments, the depth attachment, or both.
pub struct VkSubpassDescriptor {
    color: (bool, usize),
    depth: (bool, usize),
}

impl VkSubpassDescriptor {
    /// Whether the subpass renders to color, and the attachment index given for it.
    pub closed spec fn color_spec(&self) -> (bool, usize) {
        self.color
    }

    /// Whether the subpass renders to depth, and the attachment index given for it.
    pub closed spec fn depth_spec(&self) -> (bool, usize) {
        self.depth
    }

    /// A subpass that renders to nothing yet.
    pub fn new() -> (r: VkSubpassDescriptor)
        ensures
            r.color_spec() == (false, usize::MAX),
            r.depth_spec() == (false, usize::MAX),
    {
        VkSubpassDescriptor { color: (false, usize::MAX), depth: (false, usize::MAX) }
    }

    /// The subpass renders to the color attachments.
    pub fn with_color(self, attachment_index: usize) -> (r: VkSubpassDescriptor)
        ensures
            r.color_spec() == (true, attachment_index),
            r.depth_spec() == self.depth_spec(),
    {
        VkSubpassDescriptor { color: (true, attachment_index), depth: self.depth }
    }

    /// The subpass renders to the depth attachment.
    pub fn with_depth(self, attachment_index: usize) -> (r: VkSubpassDescriptor)
        ensures
            r.color_spec() == self.color_spec(),
            r.depth_spec() == (true, attachment_index),
    {
        VkSubpassDescriptor { color: self.color, depth: (true, attachment_index) }
    }
}

/// The color attachment description that the engine uses: one sample, cleared on load,
/// stored, stencil ignored, starting in the color attachment layout.
pub open spec fn color_attachment(format: i32, final_layout: i32) -> AttachmentDescription {
    AttachmentDescription {
        format,
        samples: VK_SAMPLE_COUNT_1_BIT,
        load_op: VK_ATTACHMENT_LOAD_OP_CLEAR,
        store_op: VK_ATTACHMENT_STORE_OP_STORE,
        stencil_load_op: VK_ATTACHMENT_LOAD_OP_DONT_CARE,
        stencil_store_op: VK_ATTACHMENT_STORE_OP_DONT_CARE,
        initial_layout: VK_IMAGE_LAYOUT_COLOR_ATTACHMENT_OPTIMAL,
        final_layout,
    }
}

/// The depth attachment description that the engine uses: one sample, cleared on load,
/// not stored, kept in the depth-stencil layout.
pub open spec fn depth_attachment(format: i32) -> AttachmentDescription {
    AttachmentDescription {
        format,
        samples: VK_SAMPLE_COUNT_1_BIT,
        load_op: VK_ATTACHMENT_LOAD_OP_CLEAR,
        store_op: VK_ATTACHMENT_STORE_OP_DONT_CARE,
        stencil_load_op: VK_ATTACHMENT_LOAD_OP_DONT_CARE,
        stencil_store_op: VK_ATTACHMENT_STORE_OP_DONT_CARE,
        initial_layout: VK_IMAGE_LAYOUT_DEPTH_STENCIL_ATTACHMENT_OPTIMAL,
        final_layout: VK_IMAGE_LAYOUT_DEPTH_STENCIL_ATTACHMENT_OPTIMAL,
    }
}

/// The depth attachment is cleared when the pass begins and its contents are not kept
/// afterwards; it has one sample and stays in the depth-stencil layout.
pub proof fn law_depth_attachment_is_cleared(format: i32)
    ensures
        depth_attachment(format).format == format,
        depth_attachment(format).samples == VK_SAMPLE_COUNT_1_BIT,
        depth_attachment(format).load_op == VK_ATTACHMENT_LOAD_OP_CLEAR,
        depth_attachment(format).store_op == VK_ATTACHMENT_STORE_OP_DONT_CARE,
        depth_attachment(format).stencil_load_op == VK_ATTACHMENT_LOAD_OP_DONT_CARE,
        depth_attachment(format).stencil_store_op == VK_ATTACHMENT_STORE_OP_DONT_CARE,
        depth_attachment(format).initial_layout == VK_IMAGE_LAYOUT_DEPTH_STENCIL_ATTACHMENT_OPTIMAL,
        depth_attachment(format).final_layout == VK_IMAGE_LAYOUT_DEPTH_STENCIL_ATTACHMENT_OPTIMAL,
{
}

/// A color attachment is cleared when the pass begins and stored at its end; it has one
/// sample, starts in the color attachment layout and ends in the layout it was given.
pub proof fn law_color_attachment_is_cleared_and_stored(format: i32, final_layout: i32)
    ensures
        color_attachment(format, final_layout).format == format,
        color_attachment(format, final_layout).samples == VK_SAMPLE_COUNT_1_BIT,
        color_attachment(format, final_layout).load_op == VK_ATTACHMENT_LOAD_OP_CLEAR,
        color_attachment(format, final_layout).store_op == VK_ATTACHMENT_STORE_OP_STORE,
        color_attachment(format, final_layout).stencil_load_op == VK_ATTACHMENT_LOAD_OP_DONT_CARE,
        color_attachment(format, final_layout).stencil_store_op == VK_ATTACHMENT_STORE_OP_DONT_CARE,
        color_attachment(format, final_layout).initial_layout
            == VK_IMAGE_LAYOUT_COLOR_ATTACHMENT_OPTIMAL,
        color_attachment(format, final_layout).final_layout == final_layout,
{
}

/// Gathers the attachments, subpasses and dependencies of a render pass.
pub struct VkRenderPassBuilder {
    attachments: Vec<AttachmentDescription>,
    color_attachment_refs: Vec<AttachmentReference>,
    depth_attachment_refs: AttachmentReference,
    subpasses: Vec<SubpassDescription>,
    dependencies: Vec<SubpassDependency>,
}

/// `desc` is the description of a subpass that renders to the color references `color_refs`
/// when `uses_color`, and to the depth reference `depth_ref` when `uses_depth`.
pub open spec fn describes_subpass(
    desc: SubpassDescription,
    uses_color: bool,
    uses_depth: bool,
    color_refs: Seq<AttachmentReference>,
    depth_ref: AttachmentReference,
) -> bool {
    &&& desc.pipeline_bind_point == VK_PIPELINE_BIND_POINT_GRAPHICS
    &&& desc.color_attachments@ == if uses_color {
        color_refs
    } else {
        Seq::<AttachmentReference>::empty()
    }
    &&& desc.depth_stencil_attachment == if uses_depth {
        Some(depth_ref)
    } else {
        None
    }
}

fn copy_references(refs: &Vec<AttachmentReference>) -> (r: Vec<AttachmentReference>)
    ensures
        r@ == refs@,
{
    let mut copy: Vec<AttachmentReference> = Vec::new();
    let n = refs.len();
    for i in 0..n
        invariant
            n == refs@.len(),
            copy@ == refs@.take(i as int),
    {
        copy.push(refs[i]);
        assert(refs@.take(i + 1) =~= refs@.take(i as int).push(refs@[i as int]));
    }
    assert(refs@.take(n as int) =~= refs@);
    copy
}

impl VkRenderPassBuilder {
    pub closed spec fn attachments_spec(&self) -> Seq<AttachmentDescription> {
        self.attachments@
    }

    pub closed spec fn color_refs_spec(&self) -> Seq<AttachmentReference> {
        self.color_attachment_refs@
    }

    pub closed spec fn depth_ref_spec(&self) -> AttachmentReference {
        self.depth_attachment_refs
    }

    pub closed spec fn subpasses_spec(&self) -> Seq<SubpassDescription> {
        self.subpasses@
    }

    pub closed spec fn dependencies_spec(&self) -> Seq<SubpassDependency> {
        self.dependencies@
    }

    /// An empty render pass description.
    pub fn builder() -> (r: VkRenderPassBuilder)
        ensures
            r.attachments_spec().len() == 0,
            r.color_refs_spec().len() == 0,
            r.depth_ref_spec() == (AttachmentReference {
                attachment: 0,
                layout: VK_IMAGE_LAYOUT_UNDEFINED,
            }),
            r.subpasses_spec().len() == 0,
            r.dependencies_spec().len() == 0,
    {
        VkRenderPassBuilder {
            attachments: Vec::new(),
            subpasses: Vec::new(),
            color_attachment_refs: Vec::new(),
            depth_attachment_refs: AttachmentReference {
                attachment: 0,
                layout: VK_IMAGE_LAYOUT_UNDEFINED,
            },
            dependencies: Vec::new(),
        }
    }

    /// Adds a color attachment, and a reference to it as `attachment_number` in `layout`.
    pub fn add_color_attachment(
        self,
        attachment_number: u32,
        format: i32,
        final_layout: i32,
        layout: i32,
    ) -> (r: VkRenderPassBuilder)
        ensures
            r.attachments_spec() == self.attachments_spec().push(
                color_attachment(format, final_layout),
            ),
            r.attachments_spec().last().format == format,
            r.attachments_spec().last().samples == VK_SAMPLE_COUNT_1_BIT,
            r.attachments_spec().last().load_op == VK_ATTACHMENT_LOAD_OP_CLEAR,
            r.attachments_spec().last().store_op == VK_ATTACHMENT_STORE_OP_STORE,
            r.attachments_spec().last().initial_layout == VK_IMAGE_LAYOUT_COLOR_ATTACHMENT_OPTIMAL,
            r.attachments_spec().last().final_layout == final_layout,
            r.color_refs_spec() == self.color_refs_spec().push(
                AttachmentReference { attachment: attachment_number, layout },
            ),
            r.depth_ref_spec() == self.depth_ref_spec(),
            r.subpasses_spec() == self.subpasses_spec(),
            r.dependencies_spec() == self.dependencies_spec(),
    {
        let color_attachment = AttachmentDescription {
            format,
            samples: VK_SAMPLE_COUNT_1_BIT,
            load_op: VK_ATTACHMENT_LOAD_OP_CLEAR,
            store_op: VK_ATTACHMENT_STORE_OP_STORE,
            stencil_load_op: VK_ATTACHMENT_LOAD_OP_DONT_CARE,
            stencil_store_op: VK_ATTACHMENT_STORE_OP_DONT_CARE,
            initial_layout: VK_IMAGE_LAYOUT_COLOR_ATTACHMENT_OPTIMAL,
            final_layout,
        };
        let color_attachment_ref = AttachmentReference { attachment: attachment_number, layout };
        let mut builder = self;
        builder.attachments.push(color_attachment);
        builder.color_attachment_refs.push(color_attachment_ref);
        builder
    }

    /// Adds the depth attachment; the depth reference now points to it as `attachment_number`.
    pub fn add_depth_attachment(self, attachment_number: u32, format: i32) -> (r:
        VkRenderPassBuilder)
        ensures
            r.attachments_spec() == self.attachments_spec().push(depth_attachment(format)),
            r.attachments_spec().last().format == format,
            r.attachments_spec().last().samples == VK_SAMPLE_COUNT_1_BIT,
            r.attachments_spec().last().load_op == VK_ATTACHMENT_LOAD_OP_CLEAR,
            r.attachments_spec().last().store_op == VK_ATTACHMENT_STORE_OP_DONT_CARE,
            r.attachments_spec().last().initial_layout
                == VK_IMAGE_LAYOUT_DEPTH_STENCIL_ATTACHMENT_OPTIMAL,
            r.attachments_spec().last().final_layout
                == VK_IMAGE_LAYOUT_DEPTH_STENCIL_ATTACHMENT_OPTIMAL,
            r.color_refs_spec() == self.color_refs_spec(),
            r.depth_ref_spec() == (AttachmentReference {
                attachment: attachment_number,
                layout: VK_IMAGE_LAYOUT_DEPTH_STENCIL_ATTACHMENT_OPTIMAL,
            }),
            r.subpasses_spec() == self.subpasses_spec(),
            r.dependencies_spec() == self.dependencies_spec(),
    {
        let depth_color_attachment = AttachmentDescription {
            format,
            samples: VK_SAMPLE_COUNT_1_BIT,
            load_op: VK_ATTACHMENT_LOAD_OP_CLEAR,
            store_op: VK_ATTACHMENT_STORE_OP_DONT_CARE,
            stencil_load_op: VK_ATTACHMENT_LOAD_OP_DONT_CARE,
            stencil_store_op: VK_ATTACHMENT_STORE_OP_DONT_CARE,
            initial_layout: VK_IMAGE_LAYOUT_DEPTH_STENCIL_ATTACHMENT_OPTIMAL,
            final_layout: VK_IMAGE_LAYOUT_DEPTH_STENCIL_ATTACHMENT_OPTIMAL,
        };
        let mut builder = self;
        builder.attachments.push(depth_color_attachment);
        builder.depth_attachment_refs = AttachmentReference {
            attachment: attachment_number,
            layout: VK_IMAGE_LAYOUT_DEPTH_STENCIL_ATTACHMENT_OPTIMAL,
        };
        builder
    }

    /// Appends the dependencies, then one subpass per descriptor, in order: each renders to
    /// all color attachments added so far when it uses color, and to the depth attachment
    /// when it uses depth.
    pub fn add_subpasses(self, subpasses: Vec<VkSubpassDescriptor>, deps: &[SubpassDependency]) -> (r:
        VkRenderPassBuilder)
        ensures
            r.attachments_spec() == self.attachments_spec(),
            r.color_refs_spec() == self.color_refs_spec(),
            r.depth_ref_spec() == self.depth_ref_spec(),
            r.dependencies_spec() == self.dependencies_spec() + deps@,
            r.subpasses_spec().len() == self.subpasses_spec().len() + subpasses@.len(),
            forall|i: int|
                0 <= i < self.subpasses_spec().len() ==> #[trigger] r.subpasses_spec()[i]
                    == self.subpasses_spec()[i],
            forall|i: int|
                0 <= i < subpasses@.len() ==> describes_subpass(
                    #[trigger] r.subpasses_spec()[self.subpasses_spec().len() + i],
                    subpasses@[i].color_spec().0,
                    subpasses@[i].depth_spec().0,
                    self.color_refs_spec(),
                    self.depth_ref_spec(),
                ),
    {
        let mut builder = self;
        let nd = deps.len();
        for k in 0..nd
            invariant
                nd == deps@.len(),
                builder.attachments@ == self.attachments_spec(),
                builder.color_attachment_refs@ == self.color_refs_spec(),
                builder.depth_attachment_refs == self.depth_ref_spec(),
                builder.subpasses@ == self.subpasses_spec(),
                builder.dependencies@ == self.dependencies_spec() + deps@.take(k as int),
        {
            builder.dependencies.push(deps[k]);
            assert(deps@.take(k + 1) =~= deps@.take(k as int).push(deps@[k as int]));
        }
        assert(deps@.take(nd as int) =~= deps@);
        let n = subpasses.len();
        let base = builder.subpasses.len();
        for i in 0..n
            invariant
                n == subpasses@.len(),
                base == self.subpasses_spec().len(),
                builder.attachments@ == self.attachments_spec(),
                builder.color_attachment_refs@ == self.color_refs_spec(),
                builder.depth_attachment_refs == self.depth_ref_spec(),
                builder.dependencies@ == self.dependencies_spec() + deps@,
                builder.subpasses@.len() == base + i,
                forall|j: int| 0 <= j < base ==> #[trigger] builder.subpasses@[j] == self.subpasses_spec()[j],
                forall|j: int|
                    0 <= j < i ==> describes_subpass(
                        #[trigger] builder.subpasses@[base + j],
                        subpasses@[j].color_spec().0,
                        subpasses@[j].depth_spec().0,
                        self.color_refs_spec(),
                        self.depth_ref_spec(),
                    ),
        {
            let subpass = &subpasses[i];
            let color_attachments = if subpass.color.0 {
                copy_references(&builder.color_attachment_refs)
            } else {
                Vec::new()
            };
            let depth_stencil_attachment = if subpass.depth.0 {
                Some(builder.depth_attachment_refs)
            } else {
                None
            };
            builder.subpasses.push(
                SubpassDescription {
                    pipeline_bind_point: VK_PIPELINE_BIND_POINT_GRAPHICS,
                    color_attachments,
                    depth_stencil_attachment,
                },
            );
        }
        builder
    }

    /// The attachments, in the order they were added.
    pub fn attachments(&self) -> (r: &Vec<AttachmentDescription>)
        ensures
            r@ == self.attachments_spec(),
    {
        &self.attachments
    }

    /// The subpasses, in the order they were added.
    pub fn subpasses(&self) -> (r: &Vec<SubpassDescription>)
        ensures
            r@ == self.subpasses_spec(),
    {
        &self.subpasses
    }

    /// The dependencies, in the order they were added.
    pub fn dependencies(&self) -> (r: &Vec<SubpassDependency>)
        ensures
            r@ == self.dependencies_spec(),
    {
        &self.dependencies
    }
}

} // verus!
