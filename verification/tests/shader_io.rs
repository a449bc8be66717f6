use anasaizi::buffer_layout::BufferLayout;
use anasaizi::descriptor_pool::{
    VK_DESCRIPTOR_TYPE_COMBINED_IMAGE_SAMPLER, VK_DESCRIPTOR_TYPE_INPUT_ATTACHMENT,
    VK_DESCRIPTOR_TYPE_SAMPLER, VK_DESCRIPTOR_TYPE_UNIFORM_BUFFER,
};
use anasaizi::shader_flags::{GltfPBRShaderConstants, ShaderFlags, HAS_NORMALS, HAS_UV};
use anasaizi::shader_io::{
    DescriptorImageInfo, DescriptorSetLayoutBinding, ImageInfoList, PushConstantRange,
    ShaderIOBuilder, SpecializationMapEntry, WriteDescriptorSet,
    VK_IMAGE_LAYOUT_SHADER_READ_ONLY_OPTIMAL,
};

const FRAGMENT: u32 = 0x10;
const VERTEX: u32 = 0x1;

#[test]
fn builder_collects_descriptors_in_order() {
    let views: Vec<u64> = vec![11, 12, 13];
    let io = ShaderIOBuilder::<u32>::builder()
        .add_input_buffer_layout(BufferLayout::new().add_float_vec3(0).add_float_vec2(1))
        .add_uniform_buffer(0, VERTEX, 7)
        .texture_array(1, FRAGMENT, &views, 99)
        .sampler(2, FRAGMENT, 55)
        .add_static_image(3, FRAGMENT, 21, 56)
        .build();

    assert_eq!(
        io.descriptor_types,
        vec![
            VK_DESCRIPTOR_TYPE_UNIFORM_BUFFER,
            VK_DESCRIPTOR_TYPE_COMBINED_IMAGE_SAMPLER,
            VK_DESCRIPTOR_TYPE_SAMPLER,
            VK_DESCRIPTOR_TYPE_COMBINED_IMAGE_SAMPLER,
            VK_DESCRIPTOR_TYPE_INPUT_ATTACHMENT,
        ]
    );
    assert_eq!(
        io.descriptor_layout_bindingen,
        vec![
            DescriptorSetLayoutBinding {
                binding: 0,
                descriptor_type: VK_DESCRIPTOR_TYPE_UNIFORM_BUFFER,
                descriptor_count: 1,
                stage_flags: VERTEX,
            },
            DescriptorSetLayoutBinding {
                binding: 1,
                descriptor_type: VK_DESCRIPTOR_TYPE_COMBINED_IMAGE_SAMPLER,
                descriptor_count: 3,
                stage_flags: FRAGMENT,
            },
            DescriptorSetLayoutBinding {
                binding: 2,
                descriptor_type: VK_DESCRIPTOR_TYPE_SAMPLER,
                descriptor_count: 1,
                stage_flags: FRAGMENT,
            },
            DescriptorSetLayoutBinding {
                binding: 3,
                descriptor_type: VK_DESCRIPTOR_TYPE_COMBINED_IMAGE_SAMPLER,
                descriptor_count: 1,
                stage_flags: FRAGMENT,
            },
        ]
    );
    assert_eq!(
        io.write_descriptor_sets,
        vec![
            WriteDescriptorSet {
                dst_binding: 0,
                descriptor_type: VK_DESCRIPTOR_TYPE_UNIFORM_BUFFER,
                dst_array_element: 0,
                descriptor_count: 0,
                image_info: None,
            },
            WriteDescriptorSet {
                dst_binding: 1,
                descriptor_type: VK_DESCRIPTOR_TYPE_COMBINED_IMAGE_SAMPLER,
                dst_array_element: 0,
                descriptor_count: 3,
                image_info: Some(ImageInfoList::TextureArray),
            },
            WriteDescriptorSet {
                dst_binding: 2,
                descriptor_type: VK_DESCRIPTOR_TYPE_SAMPLER,
                dst_array_element: 0,
                descriptor_count: 1,
                image_info: Some(ImageInfoList::Samplers),
            },
            WriteDescriptorSet {
                dst_binding: 3,
                descriptor_type: VK_DESCRIPTOR_TYPE_COMBINED_IMAGE_SAMPLER,
                dst_array_element: 0,
                descriptor_count: 1,
                image_info: Some(ImageInfoList::StaticImages),
            },
        ]
    );
    let texture = |view: u64| DescriptorImageInfo {
        sampler: 99,
        image_view: view,
        image_layout: VK_IMAGE_LAYOUT_SHADER_READ_ONLY_OPTIMAL,
    };
    assert_eq!(io.dynamic_descriptor_image_info, vec![texture(11), texture(12), texture(13)]);
    assert_eq!(
        io.sampler,
        vec![DescriptorImageInfo {
            sampler: 55,
            image_view: 0,
            image_layout: VK_IMAGE_LAYOUT_SHADER_READ_ONLY_OPTIMAL,
        }]
    );
    assert_eq!(
        io.descriptor_image_info,
        vec![DescriptorImageInfo {
            sampler: 56,
            image_view: 21,
            image_layout: VK_IMAGE_LAYOUT_SHADER_READ_ONLY_OPTIMAL,
        }]
    );
    assert_eq!(io.uniform_buffers, vec![7]);
    assert_eq!(io.input_buffer_layout.total_stride(), Some(20));
    assert!(io.push_constant_ranges.is_empty());
    assert!(io.specialization_constants.is_empty());
    assert_eq!(io.specialization_constant_data, GltfPBRShaderConstants::default());
}

#[test]
fn a_second_sampler_write_reads_both_samplers() {
    let io = ShaderIOBuilder::<u32>::builder()
        .add_input_buffer_layout(BufferLayout::new())
        .sampler(0, FRAGMENT, 1)
        .sampler(1, FRAGMENT, 2)
        .build();
    assert_eq!(io.write_descriptor_sets[0].descriptor_count, 1);
    assert_eq!(io.write_descriptor_sets[1].descriptor_count, 2);
    assert_eq!(io.sampler.len(), 2);
}

#[test]
fn push_constants_and_specialization_constants_are_kept() {
    let ranges = [
        PushConstantRange { stage_flags: VERTEX, offset: 0, size: 64 },
        PushConstantRange { stage_flags: FRAGMENT, offset: 64, size: 16 },
    ];
    let mut flags = ShaderFlags::empty();
    flags.insert(ShaderFlags::from_bits_truncate(HAS_NORMALS | HAS_UV));
    let constants = GltfPBRShaderConstants::from(flags);
    let entries = vec![SpecializationMapEntry { constant_id: 0, offset: 0, size: 4 }];
    let io = ShaderIOBuilder::<u32>::builder()
        .add_push_constant_ranges(&ranges[..1])
        .add_push_constant_ranges(&ranges[1..])
        .add_specialization_constants(constants, entries.clone())
        .add_input_buffer_layout(BufferLayout::new().add_float_vec2(0))
        .build();
    assert_eq!(io.push_constant_ranges, ranges.to_vec());
    assert_eq!(io.specialization_constants, entries);
    assert_eq!(io.specialization_constant_data.has_normals, 1);
    assert_eq!(io.specialization_constant_data.has_uvs, 1);
    assert_eq!(io.specialization_constant_data.has_tangents, 0);
    assert_eq!(io.descriptor_types, vec![VK_DESCRIPTOR_TYPE_INPUT_ATTACHMENT]);
}

#[test]
fn an_empty_texture_array_still_gets_its_binding() {
    let io = ShaderIOBuilder::<u32>::builder()
        .add_input_buffer_layout(BufferLayout::new())
        .texture_array(4, FRAGMENT, &Vec::new(), 3)
        .build();
    assert_eq!(io.descriptor_layout_bindingen[0].descriptor_count, 0);
    assert_eq!(io.write_descriptor_sets[0].descriptor_count, 0);
    assert!(io.dynamic_descriptor_image_info.is_empty());
}
