use ash::vk;
use anasaizi::application::Version;
use anasaizi::buffer_layout::BufferLayout;
use anasaizi::device::check_device_extension_support;

#[test]
fn encode_packs_as_vulkan_does() {
    let v = Version::new(1, 2, 131);
    assert_eq!(v.encode(), vk::make_version(1, 2, 131));
    assert_eq!(v.encode(), (1 << 22) | (2 << 12) | 131);
}

#[test]
fn decode_undoes_encode() {
    for &(major, minor, patch) in &[(0, 0, 0), (1, 0, 0), (1, 2, 131), (1023, 1023, 4095)] {
        let v = Version::new(major, minor, patch);
        assert_eq!(Version::decode(v.encode()), v);
    }
}

#[test]
fn decode_splits_the_bits() {
    let packed = (3u32 << 22) | (7 << 12) | 9;
    assert_eq!(Version::decode(packed), Version { major: 3, minor: 7, patch: 9 });
    assert_eq!(Version::decode(u32::MAX), Version { major: 1023, minor: 1023, patch: 4095 });
}

fn names(list: &[&str]) -> Vec<String> {
    list.iter().map(|s| s.to_string()).collect()
}

#[test]
fn extensions_all_present() {
    let available = names(&["VK_KHR_swapchain", "VK_KHR_maintenance1"]);
    assert!(check_device_extension_support(&available, &names(&["VK_KHR_swapchain"])));
    assert!(check_device_extension_support(&available, &names(&[])));
}

#[test]
fn extension_missing() {
    let available = names(&["VK_KHR_maintenance1"]);
    assert!(!check_device_extension_support(&available, &names(&["VK_KHR_swapchain"])));
    assert!(!check_device_extension_support(&names(&[]), &names(&["VK_KHR_swapchain"])));
}

#[test]
fn total_stride_sums_the_attributes() {
    assert_eq!(BufferLayout::new().total_stride(), Some(0));
    let layout = BufferLayout::new().add_float_vec3(0).add_float_vec2(1).add_float_vec3(2);
    assert_eq!(layout.total_stride(), Some(32));
}
