//! The inputs of a shader: its descriptors (samplers, textures, uniform buffers), vertex
//! layout, push constants and specialization constants, gathered before the descriptor set
//! layout, pool and sets are created on the device.
use vstd::prelude::*;
use crate::buffer_layout::BufferLayout;
use crate::descriptor_pool::{
    VK_DESCRIPTOR_TYPE_COMBINED_IMAGE_SAMPLER, VK_DESCRIPTOR_TYPE_INPUT_ATTACHMENT,
    VK_DESCRIPTOR_TYPE_SAMPLER, VK_DESCRIPTOR_TYPE_UNIFORM_BUFFER,
};
use crate::shader_flags::GltfPBRShaderConstants;

verus! {

/// `VK_IMAGE_LAYOUT_SHADER_READ_ONLY_OPTIMAL`
pub const VK_IMAGE_LAYOUT_SHADER_READ_ONLY_OPTIMAL: i32 = 5i32;

/// One binding of a descriptor set layout.
#[derive(Clone, Copy, Debug, PartialEq, Eq)]
pub struct DescriptorSetLayoutBinding {
    pub binding: u32,
    /// `VkDescriptorType` code.
    pub descriptor_type: i32,
    pub descriptor_count: u32,
    /// `VkShaderStageFlags` bits.
    pub stage_flags: u32,
}

/// An image (or a sampler alone) that a descriptor points to; handles are raw Vulkan handles,
/// 0 for none.
#[derive(Clone, Copy, Debug, PartialEq, Eq)]
pub struct DescriptorImageInfo {
    pub sampler: u64,
    pub image_view: u64,
    /// `VkImageLayout` code.
    pub image_layout: i32,
}

/// The list of image infos that a descriptor write reads.
#[derive(Clone, Copy, Debug, PartialEq, Eq, Structural)]
pub enum ImageInfoList {
    /// The samplers added by `sampler`.
    Samplers,
    /// The textures added by `texture_array`.
    TextureArray,
    /// The images added by `add_static_image`.
    StaticImages,
}

/// A write into a descriptor set. An image write reads the first `descriptor_count` infos of
/// its list; a uniform-buffer write gets its buffer when the sets are created.
#[derive(Clone, Copy, Debug, PartialEq, Eq)]
pub struct WriteDescriptorSet {
    pub dst_binding: u32,
    /// `VkDescriptorType` code.
    pub descriptor_type: i32,
    pub dst_array_element: u32,
    pub descriptor_count: u32,
    pub image_info: Option<ImageInfoList>,
}

/// A range of push constants.
#[derive(Clone, Copy, Debug, PartialEq, Eq)]
pub struct PushConstantRange {
    /// `VkShaderStageFlags` bits.
    pub stage_flags: u32,
    pub offset: u32,
    pub size: u32,
}

/// Where one specialization constant sits in the constant data.
#[derive(Clone, Copy, Debug, PartialEq, Eq)]
pub struct SpecializationMapEntry {
    pub constant_id: u32,
    pub offset: u32,
    pub size: usize,
}

/// Gathers the inputs of a shader. `U` is the uniform buffer type: one per uniform-buffer
/// descriptor, in the order they were added.
pub struct ShaderIOBuilder<U> {
    descriptor_types: Vec<i32>,
    descriptor_layout_bindingen: Vec<DescriptorSetLayoutBinding>,
    uniform_buffers: Vec<U>,
    write_descriptor_sets: Vec<WriteDescriptorSet>,
    input_buffer_layout: Option<BufferLayout>,
    push_constant_ranges: Vec<PushConstantRange>,
    specialization_constants: Vec<SpecializationMapEntry>,
    specialization_constant_data: GltfPBRShaderConstants,
    descriptor_image_info: Vec<DescriptorImageInfo>,
    dynamic_descriptor_image_info: Vec<DescriptorImageInfo>,
    sampler: Vec<DescriptorImageInfo>,
}

/// Everything a shader needs from the device, ready to be created: the pool's descriptor
/// types, the layout bindings, the writes of each descriptor set, the image infos that the
/// writes read, the uniform buffers, the vertex layout, the push constants and the
/// specialization constants.
pub struct ShaderIoDescription<U> {
    pub descriptor_types: Vec<i32>,
    pub descriptor_layout_bindingen: Vec<DescriptorSetLayoutBinding>,
    pub write_descriptor_sets: Vec<WriteDescriptorSet>,
    pub sampler: Vec<DescriptorImageInfo>,
    pub dynamic_descriptor_image_info: Vec<DescriptorImageInfo>,
    pub descriptor_image_info: Vec<DescriptorImageInfo>,
    pub uniform_buffers: Vec<U>,
    pub input_buffer_layout: BufferLayout,
    pub push_constant_ranges: Vec<PushConstantRange>,
    pub specialization_constants: Vec<SpecializationMapEntry>,
    pub specialization_constant_data: GltfPBRShaderConstants,
}

/// The layout binding of a descriptor.
pub open spec fn layout_binding(
    binding: u32,
    descriptor_type: i32,
    descriptor_count: u32,
    stage_flags: u32,
) -> DescriptorSetLayoutBinding {
    DescriptorSetLayoutBinding { binding, descriptor_type, descriptor_count, stage_flags }
}

/// An image info read by shaders, in the shader-read-only layout.
pub open spec fn read_only_image(sampler: u64, image_view: u64) -> DescriptorImageInfo {
    DescriptorImageInfo {
        sampler,
        image_view,
        image_layout: VK_IMAGE_LAYOUT_SHADER_READ_ONLY_OPTIMAL,
    }
}

/// The image infos of the given textures, each with the same sampler.
pub open spec fn texture_infos(image_views: Seq<u64>, sampler: u64) -> Seq<DescriptorImageInfo> {
    image_views.map_values(|v: u64| read_only_image(sampler, v))
}

impl<U> ShaderIOBuilder<U> {
    pub closed spec fn descriptor_types_spec(&self) -> Seq<i32> {
        self.descriptor_types@
    }

    pub closed spec fn layout_bindings_spec(&self) -> Seq<DescriptorSetLayoutBinding> {
        self.descriptor_layout_bindingen@
    }

    pub closed spec fn writes_spec(&self) -> Seq<WriteDescriptorSet> {
        self.write_descriptor_sets@
    }

    pub closed spec fn uniform_buffers_spec(&self) -> Seq<U> {
        self.uniform_buffers@
    }

    pub closed spec fn input_buffer_layout_spec(&self) -> Option<Seq<crate::buffer_layout::BufferLayoutElement>> {
        match self.input_buffer_layout {
            Some(l) => Some(l@),
            None => None,
        }
    }

    pub closed spec fn push_constant_ranges_spec(&self) -> Seq<PushConstantRange> {
        self.push_constant_ranges@
    }

    pub closed spec fn specialization_constants_spec(&self) -> Seq<SpecializationMapEntry> {
        self.specialization_constants@
    }

    pub closed spec fn specialization_data_spec(&self) -> GltfPBRShaderConstants {
        self.specialization_constant_data
    }

    pub closed spec fn samplers_spec(&self) -> Seq<DescriptorImageInfo> {
        self.sampler@
    }

    pub closed spec fn textures_spec(&self) -> Seq<DescriptorImageInfo> {
        self.dynamic_descriptor_image_info@
    }

    pub closed spec fn static_images_spec(&self) -> Seq<DescriptorImageInfo> {
        self.descriptor_image_info@
    }

    /// The builder's fields other than the descriptor lists are those of `other`.
    pub open spec fn same_settings(&self, other: &ShaderIOBuilder<U>) -> bool {
        &&& self.input_buffer_layout_spec() == other.input_buffer_layout_spec()
        &&& self.push_constant_ranges_spec() == other.push_constant_ranges_spec()
        &&& self.specialization_constants_spec() == other.specialization_constants_spec()
        &&& self.specialization_data_spec() == other.specialization_data_spec()
    }

    /// The builder's descriptor lists are those of `other`.
    pub open spec fn same_descriptors(&self, other: &ShaderIOBuilder<U>) -> bool {
        &&& self.descriptor_types_spec() == other.descriptor_types_spec()
        &&& self.layout_bindings_spec() == other.layout_bindings_spec()
        &&& self.writes_spec() == other.writes_spec()
        &&& self.uniform_buffers_spec() == other.uniform_buffers_spec()
        &&& self.samplers_spec() == other.samplers_spec()
        &&& self.textures_spec() == other.textures_spec()
        &&& self.static_images_spec() == other.static_images_spec()
    }

    /// A builder with no inputs yet.
    pub fn builder() -> (r: ShaderIOBuilder<U>)
        ensures
            r.descriptor_types_spec().len() == 0,
            r.layout_bindings_spec().len() == 0,
            r.writes_spec().len() == 0,
            r.uniform_buffers_spec().len() == 0,
            r.input_buffer_layout_spec() is None,
            r.push_constant_ranges_spec().len() == 0,
            r.specialization_constants_spec().len() == 0,
            r.specialization_data_spec() == crate::shader_flags::zero_constants(),
            r.samplers_spec().len() == 0,
            r.textures_spec().len() == 0,
            r.static_images_spec().len() == 0,
    {
        ShaderIOBuilder {
            descriptor_layout_bindingen: Vec::new(),
            descriptor_types: Vec::new(),
            write_descriptor_sets: Vec::new(),
            input_buffer_layout: None,
            push_constant_ranges: Vec::new(),
            specialization_constants: Vec::new(),
            specialization_constant_data: GltfPBRShaderConstants::default(),
            descriptor_image_info: Vec::new(),
            dynamic_descriptor_image_info: Vec::new(),
            sampler: Vec::new(),
            uniform_buffers: Vec::new(),
        }
    }

    /// The shader reads vertices laid out as `input_buffer_layout`.
    pub fn add_input_buffer_layout(self, input_buffer_layout: BufferLayout) -> (r: ShaderIOBuilder<U>)
        ensures
            r.same_descriptors(&self),
            r.input_buffer_layout_spec() == Some(input_buffer_layout@),
            r.push_constant_ranges_spec() == self.push_constant_ranges_spec(),
            r.specialization_constants_spec() == self.specialization_constants_spec(),
            r.specialization_data_spec() == self.specialization_data_spec(),
    {
        let mut builder = self;
        builder.input_buffer_layout = Some(input_buffer_layout);
        builder
    }

    /// Adds a sampler descriptor at `binding_id`. Its write reads all samplers added so far.
    pub fn sampler(self, binding_id: u32, stage_flags: u32, sampler: u64) -> (r: ShaderIOBuilder<U>)
        requires
            self.samplers_spec().len() < u32::MAX,
        ensures
            r.same_settings(&self),
            r.samplers_spec() == self.samplers_spec().push(read_only_image(sampler, 0)),
            r.writes_spec() == self.writes_spec().push(
                WriteDescriptorSet {
                    dst_binding: binding_id,
                    descriptor_type: VK_DESCRIPTOR_TYPE_SAMPLER,
                    dst_array_element: 0,
                    descriptor_count: r.samplers_spec().len() as u32,
                    image_info: Some(ImageInfoList::Samplers),
                },
            ),
            r.layout_bindings_spec() == self.layout_bindings_spec().push(
                layout_binding(binding_id, VK_DESCRIPTOR_TYPE_SAMPLER, 1, stage_flags),
            ),
            r.descriptor_types_spec() == self.descriptor_types_spec().push(
                VK_DESCRIPTOR_TYPE_SAMPLER,
            ),
            r.uniform_buffers_spec() == self.uniform_buffers_spec(),
            r.textures_spec() == self.textures_spec(),
            r.static_images_spec() == self.static_images_spec(),
    {
        let mut builder = self;
        builder.sampler.push(
            DescriptorImageInfo {
                sampler,
                image_view: 0,
                image_layout: VK_IMAGE_LAYOUT_SHADER_READ_ONLY_OPTIMAL,
            },
        );
        let count = builder.sampler.len() as u32;
        builder.write_descriptor_sets.push(
            WriteDescriptorSet {
                dst_binding: binding_id,
                descriptor_type: VK_DESCRIPTOR_TYPE_SAMPLER,
                dst_array_element: 0,
                descriptor_count: count,
                image_info: Some(ImageInfoList::Samplers),
            },
        );
        builder.descriptor_layout_bindingen.push(
            DescriptorSetLayoutBinding {
                descriptor_type: VK_DESCRIPTOR_TYPE_SAMPLER,
                descriptor_count: 1,
                stage_flags,
                binding: binding_id,
            },
        );
        builder.descriptor_types.push(VK_DESCRIPTOR_TYPE_SAMPLER);
        builder
    }

    /// Adds an array of combined image samplers at `binding_id`, one per texture (given by
    /// its image view), all with `sampler`. Its write reads all textures added so far.
    pub fn texture_array(
        self,
        binding_id: u32,
        stage_flags: u32,
        image_views: &Vec<u64>,
        sampler: u64,
    ) -> (r: ShaderIOBuilder<U>)
        requires
            self.textures_spec().len() + image_views@.len() <= u32::MAX,
        ensures
            r.same_settings(&self),
            r.textures_spec() == self.textures_spec() + texture_infos(image_views@, sampler),
            r.writes_spec() == self.writes_spec().push(
                WriteDescriptorSet {
                    dst_binding: binding_id,
                    descriptor_type: VK_DESCRIPTOR_TYPE_COMBINED_IMAGE_SAMPLER,
                    dst_array_element: 0,
                    descriptor_count: r.textures_spec().len() as u32,
                    image_info: Some(ImageInfoList::TextureArray),
                },
            ),
            r.layout_bindings_spec() == self.layout_bindings_spec().push(
                layout_binding(
                    binding_id,
                    VK_DESCRIPTOR_TYPE_COMBINED_IMAGE_SAMPLER,
                    image_views@.len() as u32,
                    stage_flags,
                ),
            ),
            r.descriptor_types_spec() == self.descriptor_types_spec().push(
                VK_DESCRIPTOR_TYPE_COMBINED_IMAGE_SAMPLER,
            ),
            r.uniform_buffers_spec() == self.uniform_buffers_spec(),
            r.samplers_spec() == self.samplers_spec(),
            r.static_images_spec() == self.static_images_spec(),
    {
        let mut builder = self;
        let ghost start = builder.dynamic_descriptor_image_info@;
        let n = image_views.len();
        for i in 0..n
            invariant
                n == image_views@.len(),
                builder.dynamic_descriptor_image_info@ == start + texture_infos(
                    image_views@.take(i as int),
                    sampler,
                ),
                builder.descriptor_types@ == self.descriptor_types_spec(),
                builder.descriptor_layout_bindingen@ == self.layout_bindings_spec(),
                builder.write_descriptor_sets@ == self.writes_spec(),
                builder.uniform_buffers@ == self.uniform_buffers_spec(),
                builder.sampler@ == self.samplers_spec(),
                builder.descriptor_image_info@ == self.static_images_spec(),
                builder.same_settings(&self),
        {
            builder.dynamic_descriptor_image_info.push(
                DescriptorImageInfo {
                    image_layout: VK_IMAGE_LAYOUT_SHADER_READ_ONLY_OPTIMAL,
                    image_view: image_views[i],
                    sampler,
                },
            );
            assert(texture_infos(image_views@.take(i + 1), sampler) =~= texture_infos(
                image_views@.take(i as int),
                sampler,
            ).push(read_only_image(sampler, image_views@[i as int])));
        }
        assert(image_views@.take(n as int) =~= image_views@);
        let count = builder.dynamic_descriptor_image_info.len() as u32;
        builder.write_descriptor_sets.push(
            WriteDescriptorSet {
                dst_binding: binding_id,
                descriptor_type: VK_DESCRIPTOR_TYPE_COMBINED_IMAGE_SAMPLER,
                dst_array_element: 0,
                descriptor_count: count,
                image_info: Some(ImageInfoList::TextureArray),
            },
        );
        builder.descriptor_layout_bindingen.push(
            DescriptorSetLayoutBinding {
                descriptor_type: VK_DESCRIPTOR_TYPE_COMBINED_IMAGE_SAMPLER,
                descriptor_count: n as u32,
                stage_flags,
                binding: binding_id,
            },
        );
        builder.descriptor_types.push(VK_DESCRIPTOR_TYPE_COMBINED_IMAGE_SAMPLER);
        builder
    }

    /// Sets the specialization constants: their data and where each sits in it.
    pub fn add_specialization_constants(
        self,
        constant_data: GltfPBRShaderConstants,
        entries: Vec<SpecializationMapEntry>,
    ) -> (r: ShaderIOBuilder<U>)
        ensures
            r.same_descriptors(&self),
            r.input_buffer_layout_spec() == self.input_buffer_layout_spec(),
            r.push_constant_ranges_spec() == self.push_constant_ranges_spec(),
            r.specialization_constants_spec() == entries@,
            r.specialization_data_spec() == constant_data,
    {
        let mut builder = self;
        builder.specialization_constants = entries;
        builder.specialization_constant_data = constant_data;
        builder
    }

    /// Adds one combined image sampler at `binding_id` for the image `image_view` with
    /// `sampler`. Its write reads all static images added so far.
    pub fn add_static_image(self, binding_id: u32, stage_flags: u32, image_view: u64, sampler: u64) -> (r:
        ShaderIOBuilder<U>)
        requires
            self.static_images_spec().len() < u32::MAX,
        ensures
            r.same_settings(&self),
            r.static_images_spec() == self.static_images_spec().push(
                read_only_image(sampler, image_view),
            ),
            r.writes_spec() == self.writes_spec().push(
                WriteDescriptorSet {
                    dst_binding: binding_id,
                    descriptor_type: VK_DESCRIPTOR_TYPE_COMBINED_IMAGE_SAMPLER,
                    dst_array_element: 0,
                    descriptor_count: r.static_images_spec().len() as u32,
                    image_info: Some(ImageInfoList::StaticImages),
                },
            ),
            r.layout_bindings_spec() == self.layout_bindings_spec().push(
                layout_binding(binding_id, VK_DESCRIPTOR_TYPE_COMBINED_IMAGE_SAMPLER, 1, stage_flags),
            ),
            r.descriptor_types_spec() == self.descriptor_types_spec().push(
                VK_DESCRIPTOR_TYPE_COMBINED_IMAGE_SAMPLER,
            ),
            r.uniform_buffers_spec() == self.uniform_buffers_spec(),
            r.samplers_spec() == self.samplers_spec(),
            r.textures_spec() == self.textures_spec(),
    {
        let mut builder = self;
        builder.descriptor_image_info.push(
            DescriptorImageInfo {
                image_layout: VK_IMAGE_LAYOUT_SHADER_READ_ONLY_OPTIMAL,
                image_view,
                sampler,
            },
        );
        let count = builder.descriptor_image_info.len() as u32;
        builder.write_descriptor_sets.push(
            WriteDescriptorSet {
                dst_binding: binding_id,
                descriptor_type: VK_DESCRIPTOR_TYPE_COMBINED_IMAGE_SAMPLER,
                dst_array_element: 0,
                descriptor_count: count,
                image_info: Some(ImageInfoList::StaticImages),
            },
        );
        builder.descriptor_layout_bindingen.push(
            DescriptorSetLayoutBinding {
                descriptor_type: VK_DESCRIPTOR_TYPE_COMBINED_IMAGE_SAMPLER,
                descriptor_count: 1,
                stage_flags,
                binding: binding_id,
            },
        );
        builder.descriptor_types.push(VK_DESCRIPTOR_TYPE_COMBINED_IMAGE_SAMPLER);
        builder
    }

    /// Adds a uniform buffer descriptor at `binding_id`, backed by `buffer`.
    pub fn add_uniform_buffer(self, binding_id: u32, stage_flags: u32, buffer: U) -> (r:
        ShaderIOBuilder<U>)
        ensures
            r.same_settings(&self),
            r.uniform_buffers_spec() == self.uniform_buffers_spec().push(buffer),
            r.writes_spec() == self.writes_spec().push(
                WriteDescriptorSet {
                    dst_binding: binding_id,
                    descriptor_type: VK_DESCRIPTOR_TYPE_UNIFORM_BUFFER,
                    dst_array_element: 0,
                    descriptor_count: 0,
                    image_info: None,
                },
            ),
            r.layout_bindings_spec() == self.layout_bindings_spec().push(
                layout_binding(binding_id, VK_DESCRIPTOR_TYPE_UNIFORM_BUFFER, 1, stage_flags),
            ),
            r.descriptor_types_spec() == self.descriptor_types_spec().push(
                VK_DESCRIPTOR_TYPE_UNIFORM_BUFFER,
            ),
            r.samplers_spec() == self.samplers_spec(),
            r.textures_spec() == self.textures_spec(),
            r.static_images_spec() == self.static_images_spec(),
    {
        let mut builder = self;
        builder.write_descriptor_sets.push(
            WriteDescriptorSet {
                dst_binding: binding_id,
                descriptor_type: VK_DESCRIPTOR_TYPE_UNIFORM_BUFFER,
                dst_array_element: 0,
                descriptor_count: 0,
                image_info: None,
            },
        );
        builder.descriptor_layout_bindingen.push(
            DescriptorSetLayoutBinding {
                descriptor_type: VK_DESCRIPTOR_TYPE_UNIFORM_BUFFER,
                descriptor_count: 1,
                stage_flags,
                binding: binding_id,
            },
        );
        builder.descriptor_types.push(VK_DESCRIPTOR_TYPE_UNIFORM_BUFFER);
        builder.uniform_buffers.push(buffer);
        builder
    }

    /// Appends push constant ranges.
    pub fn add_push_constant_ranges(self, push_constant_ranges: &[PushConstantRange]) -> (r:
        ShaderIOBuilder<U>)
        ensures
            r.same_descriptors(&self),
            r.input_buffer_layout_spec() == self.input_buffer_layout_spec(),
            r.push_constant_ranges_spec() == self.push_constant_ranges_spec()
                + push_constant_ranges@,
            r.specialization_constants_spec() == self.specialization_constants_spec(),
            r.specialization_data_spec() == self.specialization_data_spec(),
    {
        let mut builder = self;
        let n = push_constant_ranges.len();
        for i in 0..n
            invariant
                n == push_constant_ranges@.len(),
                builder.same_descriptors(&self),
                builder.input_buffer_layout_spec() == self.input_buffer_layout_spec(),
                builder.specialization_constants_spec() == self.specialization_constants_spec(),
                builder.specialization_data_spec() == self.specialization_data_spec(),
                builder.push_constant_ranges@ == self.push_constant_ranges_spec()
                    + push_constant_ranges@.take(i as int),
        {
            builder.push_constant_ranges.push(push_constant_ranges[i]);
            assert(push_constant_ranges@.take(i + 1) =~= push_constant_ranges@.take(i as int).push(
                push_constant_ranges@[i as int],
            ));
        }
        assert(push_constant_ranges@.take(n as int) =~= push_constant_ranges@);
        builder
    }

    /// Finishes the inputs: the pool also gets room for an input attachment. The vertex layout
    /// must have been given.
    pub fn build(self) -> (r: ShaderIoDescription<U>)
        requires
            self.input_buffer_layout_spec() is Some,
        ensures
            r.descriptor_types@ == self.descriptor_types_spec().push(
                VK_DESCRIPTOR_TYPE_INPUT_ATTACHMENT,
            ),
            r.descriptor_layout_bindingen@ == self.layout_bindings_spec(),
            r.write_descriptor_sets@ == self.writes_spec(),
            r.sampler@ == self.samplers_spec(),
            r.dynamic_descriptor_image_info@ == self.textures_spec(),
            r.descriptor_image_info@ == self.static_images_spec(),
            r.uniform_buffers@ == self.uniform_buffers_spec(),
            Some(r.input_buffer_layout@) == self.input_buffer_layout_spec(),
            r.push_constant_ranges@ == self.push_constant_ranges_spec(),
            r.specialization_constants@ == self.specialization_constants_spec(),
            r.specialization_constant_data == self.specialization_data_spec(),
    {
        let mut descriptor_types = self.descriptor_types;
        descriptor_types.push(VK_DESCRIPTOR_TYPE_INPUT_ATTACHMENT);
        let input_buffer_layout = match self.input_buffer_layout {
            Some(layout) => layout,
            None => {
                proof {
                    assert(false);
                }
                BufferLayout::new()
            },
        };
        ShaderIoDescription {
            descriptor_types,
            descriptor_layout_bindingen: self.descriptor_layout_bindingen,
            write_descriptor_sets: self.write_descriptor_sets,
            sampler: self.sampler,
            dynamic_descriptor_image_info: self.dynamic_descriptor_image_info,
            descriptor_image_info: self.descriptor_image_info,
            uniform_buffers: self.uniform_buffers,
            input_buffer_layout,
            push_constant_ranges: self.push_constant_ranges,
            specialization_constants: self.specialization_constants,
            specialization_constant_data: self.specialization_constant_data,
        }
    }
}

} // verus!
