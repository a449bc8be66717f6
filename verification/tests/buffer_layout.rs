use anasaizi::buffer_layout::{
    BufferLayout, BufferLayoutElement, FLOAT_VEC2_SIZE, FLOAT_VEC3_SIZE, VK_FORMAT_R32G32B32_SFLOAT,
    VK_FORMAT_R32G32_SFLOAT, VK_VERTEX_INPUT_RATE_VERTEX,
};

#[test]
fn add_float_vec2_correct_size() {
    let layout = BufferLayout::new().add_float_vec2(0);

    assert_eq!(
        layout.get(0),
        Some(&BufferLayoutElement {
            layout_id: 0,
            stride: 2 * 4,
            format: VK_FORMAT_R32G32_SFLOAT,
        })
    );
}

#[test]
fn add_float_vec3_correct_size() {
    let layout = BufferLayout::new().add_float_vec3(0);

    assert_eq!(
        layout.get(0),
        Some(&BufferLayoutElement {
            layout_id: 0,
            stride: 3 * 4,
            format: VK_FORMAT_R32G32B32_SFLOAT,
        })
    );
}

#[test]
fn build_attrib_description() {
    let buffer_layout = BufferLayout::new().add_float_vec2(0).add_float_vec3(1);

    let first_layout = *buffer_layout.get(0).unwrap();
    let second_layout = *buffer_layout.get(1).unwrap();

    let attrib_bindingen = buffer_layout.build_attrib_description();

    assert_eq!(attrib_bindingen[0].binding, 0);
    assert_eq!(attrib_bindingen[0].location, first_layout.layout_id as u32);
    assert_eq!(attrib_bindingen[0].format, first_layout.format);
    assert_eq!(attrib_bindingen[0].offset, 0);

    assert_eq!(attrib_bindingen[1].binding, 0);
    assert_eq!(attrib_bindingen[1].location, second_layout.layout_id as u32);
    assert_eq!(attrib_bindingen[1].format, second_layout.format);
    assert_eq!(attrib_bindingen[1].offset, first_layout.stride as u32);
}

#[test]
fn vector_sizes_match_nalgebra() {
    assert_eq!(FLOAT_VEC2_SIZE, std::mem::size_of::<nalgebra::Vector2<f32>>());
    assert_eq!(FLOAT_VEC3_SIZE, std::mem::size_of::<nalgebra::Vector3<f32>>());
}

#[test]
fn formats_match_vulkan_codes() {
    assert_eq!(VK_FORMAT_R32G32_SFLOAT, ash::vk::Format::R32G32_SFLOAT.as_raw());
    assert_eq!(VK_FORMAT_R32G32B32_SFLOAT, ash::vk::Format::R32G32B32_SFLOAT.as_raw());
    assert_eq!(VK_VERTEX_INPUT_RATE_VERTEX, ash::vk::VertexInputRate::VERTEX.as_raw());
}

#[test]
fn get_missing_location_is_none() {
    let layout = BufferLayout::new().add_float_vec2(0).add_float_vec3(1);
    assert_eq!(layout.get(2), None);
    assert_eq!(BufferLayout::new().get(0), None);
}

#[test]
fn get_returns_first_attribute_with_location() {
    let layout = BufferLayout::new().add_float_vec2(3).add_float_vec3(3);
    assert_eq!(layout.get(3).unwrap().stride, FLOAT_VEC2_SIZE);
    assert_eq!(layout.get(3).unwrap().format, VK_FORMAT_R32G32_SFLOAT);
}

#[test]
fn binding_stride_is_vertex_size() {
    let layout = BufferLayout::new()
        .add_float_vec3(0)
        .add_float_vec2(1)
        .add_float_vec3(2);
    let binding = layout.build_binding_description();
    assert_eq!(binding.binding, 0);
    assert_eq!(binding.stride, 12 + 8 + 12);
    assert_eq!(binding.input_rate, VK_VERTEX_INPUT_RATE_VERTEX);

    let attribs = layout.build_attrib_description();
    assert_eq!(attribs.len(), 3);
    assert_eq!(attribs[0].offset, 0);
    assert_eq!(attribs[1].offset, 12);
    assert_eq!(attribs[2].offset, 20);
    assert_eq!(attribs[2].offset + 12, binding.stride);
    assert_eq!(attribs[2].location, 2);
}

#[test]
fn empty_layout_descriptions() {
    let layout = BufferLayout::new();
    assert_eq!(layout.build_binding_description().stride, 0);
    assert!(layout.build_attrib_description().is_empty());
}

#[test]
fn element_new_keeps_fields() {
    let e = BufferLayoutElement::new(7, 16, 109);
    assert_eq!(e.layout_id, 7);
    assert_eq!(e.stride, 16);
    assert_eq!(e.format, 109);
}
