use ash::vk;
use anasaizi::device::{
    find_memory_type, pick_physical_device, DeviceType, VK_PHYSICAL_DEVICE_TYPE_CPU,
    VK_PHYSICAL_DEVICE_TYPE_DISCRETE_GPU, VK_PHYSICAL_DEVICE_TYPE_INTEGRATED_GPU,
    VK_PHYSICAL_DEVICE_TYPE_OTHER, VK_PHYSICAL_DEVICE_TYPE_VIRTUAL_GPU,
};
use anasaizi::queue::{
    find_queue_family, Extent3D, VkQueueFamilyIndices, VkQueueFamilyProperties,
    VK_QUEUE_COMPUTE_BIT, VK_QUEUE_GRAPHICS_BIT, VK_QUEUE_SPARSE_BINDING_BIT, VK_QUEUE_TRANSFER_BIT,
};

fn family(flags: u32, count: u32) -> VkQueueFamilyProperties {
    VkQueueFamilyProperties {
        queue_flags: flags,
        queue_count: count,
        timestamp_valid_bits: 64,
        min_image_transfer_granularity: Extent3D { width: 1, height: 1, depth: 1 },
    }
}

#[test]
fn is_complete_needs_graphics_only() {
    let none = VkQueueFamilyIndices { graphics_family: None, present_family: Some(0) };
    let graphics = VkQueueFamilyIndices { graphics_family: Some(1), present_family: None };
    assert!(!none.is_complete());
    assert!(graphics.is_complete());
}

#[test]
fn is_graphics_reads_graphics_bit() {
    assert!(family(VK_QUEUE_GRAPHICS_BIT | VK_QUEUE_COMPUTE_BIT, 1).is_graphics());
    assert!(!family(VK_QUEUE_COMPUTE_BIT | VK_QUEUE_TRANSFER_BIT, 1).is_graphics());
}

#[test]
fn support_labels() {
    let f = family(VK_QUEUE_GRAPHICS_BIT | VK_QUEUE_TRANSFER_BIT, 2);
    assert_eq!(f.support_label(VK_QUEUE_GRAPHICS_BIT), "support");
    assert_eq!(f.support_label(VK_QUEUE_COMPUTE_BIT), "unsupport");
    assert_eq!(f.support_label(VK_QUEUE_TRANSFER_BIT), "support");
    assert_eq!(f.support_label(VK_QUEUE_SPARSE_BINDING_BIT), "unsupport");
}

#[test]
fn queue_family_stops_at_first_graphics() {
    let families = vec![
        family(VK_QUEUE_TRANSFER_BIT, 1),
        family(VK_QUEUE_COMPUTE_BIT, 2),
        family(VK_QUEUE_GRAPHICS_BIT, 1),
        family(VK_QUEUE_GRAPHICS_BIT, 4),
    ];
    let present = vec![true, false, false, true];
    let r = find_queue_family(&families, &present);
    assert_eq!(r.graphics_family, Some(2));
    assert_eq!(r.present_family, Some(0));
}

#[test]
fn queue_family_present_is_last_before_stop() {
    let families = vec![
        family(VK_QUEUE_TRANSFER_BIT, 1),
        family(VK_QUEUE_COMPUTE_BIT, 0),
        family(VK_QUEUE_GRAPHICS_BIT, 1),
    ];
    let present = vec![true, true, true];
    let r = find_queue_family(&families, &present);
    assert_eq!(r.graphics_family, Some(2));
    assert_eq!(r.present_family, Some(2));
}

#[test]
fn queue_family_without_graphics() {
    let families = vec![family(VK_QUEUE_COMPUTE_BIT, 1), family(VK_QUEUE_TRANSFER_BIT, 1)];
    let present = vec![false, true];
    let r = find_queue_family(&families, &present);
    assert_eq!(r.graphics_family, None);
    assert_eq!(r.present_family, Some(1));
    assert!(!r.is_complete());
    let empty = find_queue_family(&vec![], &vec![]);
    assert_eq!(empty, VkQueueFamilyIndices { graphics_family: None, present_family: None });
}

#[test]
fn memory_type_first_fit() {
    let flags = vec![0x1, 0x6, 0x7, 0x6];
    assert_eq!(find_memory_type(0b1110, 0x6, &flags), Some(1));
    assert_eq!(find_memory_type(0b1100, 0x6, &flags), Some(2));
    assert_eq!(find_memory_type(0b0001, 0x6, &flags), None);
    assert_eq!(find_memory_type(0b1111, 0x8, &flags), None);
    assert_eq!(find_memory_type(0b1111, 0x0, &flags), Some(0));
}

#[test]
fn memory_type_high_bits() {
    let mut flags = vec![0u32; 32];
    flags[31] = 0x2;
    assert_eq!(find_memory_type(0x8000_0000, 0x2, &flags), Some(31));
}

#[test]
fn physical_device_first_complete() {
    let incomplete = VkQueueFamilyIndices { graphics_family: None, present_family: Some(0) };
    let complete = VkQueueFamilyIndices { graphics_family: Some(0), present_family: Some(0) };
    assert_eq!(pick_physical_device(&vec![incomplete, complete, complete]), Some(1));
    assert_eq!(pick_physical_device(&vec![incomplete]), None);
    assert_eq!(pick_physical_device(&vec![]), None);
}

#[test]
fn device_types() {
    assert_eq!(DeviceType::from_vk(VK_PHYSICAL_DEVICE_TYPE_CPU), DeviceType::CPU);
    assert_eq!(DeviceType::from_vk(VK_PHYSICAL_DEVICE_TYPE_INTEGRATED_GPU), DeviceType::IntegratedGPU);
    assert_eq!(DeviceType::from_vk(VK_PHYSICAL_DEVICE_TYPE_DISCRETE_GPU), DeviceType::DiscreteGPU);
    assert_eq!(DeviceType::from_vk(VK_PHYSICAL_DEVICE_TYPE_VIRTUAL_GPU), DeviceType::VirtualGPU);
    assert_eq!(DeviceType::from_vk(VK_PHYSICAL_DEVICE_TYPE_OTHER), DeviceType::DiscreteGPU);
}

#[test]
fn device_codes_match_vulkan() {
    assert_eq!(VK_PHYSICAL_DEVICE_TYPE_OTHER, vk::PhysicalDeviceType::OTHER.as_raw());
    assert_eq!(VK_PHYSICAL_DEVICE_TYPE_INTEGRATED_GPU, vk::PhysicalDeviceType::INTEGRATED_GPU.as_raw());
    assert_eq!(VK_PHYSICAL_DEVICE_TYPE_DISCRETE_GPU, vk::PhysicalDeviceType::DISCRETE_GPU.as_raw());
    assert_eq!(VK_PHYSICAL_DEVICE_TYPE_VIRTUAL_GPU, vk::PhysicalDeviceType::VIRTUAL_GPU.as_raw());
    assert_eq!(VK_PHYSICAL_DEVICE_TYPE_CPU, vk::PhysicalDeviceType::CPU.as_raw());
    assert_eq!(VK_QUEUE_GRAPHICS_BIT, vk::QueueFlags::GRAPHICS.as_raw());
    assert_eq!(VK_QUEUE_COMPUTE_BIT, vk::QueueFlags::COMPUTE.as_raw());
    assert_eq!(VK_QUEUE_TRANSFER_BIT, vk::QueueFlags::TRANSFER.as_raw());
    assert_eq!(VK_QUEUE_SPARSE_BINDING_BIT, vk::QueueFlags::SPARSE_BINDING.as_raw());
}
