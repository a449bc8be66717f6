use ash::vk;
use anasaizi::queue::VkQueueFamilyIndices;
use anasaizi::swapchain::{
    choose_swapchain_extent, choose_swapchain_format, choose_swapchain_present_mode,
    swapchain_image_count, swapchain_queue_family_indices, Extent2D, SurfaceCapabilities,
    SurfaceFormat, VK_COLOR_SPACE_SRGB_NONLINEAR_KHR, VK_FORMAT_B8G8R8A8_SRGB,
    VK_PRESENT_MODE_FIFO_KHR, VK_PRESENT_MODE_MAILBOX_KHR,
};

fn caps(min: u32, max: u32, current: Extent2D) -> SurfaceCapabilities {
    SurfaceCapabilities {
        min_image_count: min,
        max_image_count: max,
        current_extent: current,
        min_image_extent: Extent2D { width: 100, height: 50 },
        max_image_extent: Extent2D { width: 1920, height: 1080 },
    }
}

#[test]
fn prefers_bgra_srgb() {
    let formats = vec![
        SurfaceFormat { format: 44, color_space: 0 },
        SurfaceFormat { format: VK_FORMAT_B8G8R8A8_SRGB, color_space: 1 },
        SurfaceFormat { format: VK_FORMAT_B8G8R8A8_SRGB, color_space: VK_COLOR_SPACE_SRGB_NONLINEAR_KHR },
    ];
    assert_eq!(
        choose_swapchain_format(&formats),
        SurfaceFormat { format: VK_FORMAT_B8G8R8A8_SRGB, color_space: VK_COLOR_SPACE_SRGB_NONLINEAR_KHR }
    );
}

#[test]
fn falls_back_to_first_format() {
    let formats = vec![
        SurfaceFormat { format: 44, color_space: 0 },
        SurfaceFormat { format: VK_FORMAT_B8G8R8A8_SRGB, color_space: 1 },
    ];
    assert_eq!(choose_swapchain_format(&formats), SurfaceFormat { format: 44, color_space: 0 });
}

#[test]
fn present_mode_mailbox_or_fifo() {
    assert_eq!(
        choose_swapchain_present_mode(&vec![0, VK_PRESENT_MODE_MAILBOX_KHR, 2]),
        VK_PRESENT_MODE_MAILBOX_KHR
    );
    assert_eq!(choose_swapchain_present_mode(&vec![0, 3]), VK_PRESENT_MODE_FIFO_KHR);
    assert_eq!(choose_swapchain_present_mode(&vec![]), VK_PRESENT_MODE_FIFO_KHR);
}

#[test]
fn extent_current_or_clamped() {
    let fixed = caps(2, 3, Extent2D { width: 800, height: 600 });
    assert_eq!(choose_swapchain_extent(&fixed, 1280, 720), Extent2D { width: 800, height: 600 });

    let free = caps(2, 3, Extent2D { width: u32::MAX, height: u32::MAX });
    assert_eq!(choose_swapchain_extent(&free, 1280, 720), Extent2D { width: 1280, height: 720 });
    assert_eq!(choose_swapchain_extent(&free, 4000, 10), Extent2D { width: 1920, height: 50 });
    assert_eq!(choose_swapchain_extent(&free, 20, 5000), Extent2D { width: 100, height: 1080 });
}

#[test]
fn image_count_rules() {
    let current = Extent2D { width: 1, height: 1 };
    assert_eq!(swapchain_image_count(&caps(2, 0, current)), 3);
    assert_eq!(swapchain_image_count(&caps(2, 8, current)), 3);
    assert_eq!(swapchain_image_count(&caps(2, 2, current)), 2);
    assert_eq!(swapchain_image_count(&caps(3, 3, current)), 3);
}

#[test]
fn sharing_indices() {
    let same = VkQueueFamilyIndices { graphics_family: Some(0), present_family: Some(0) };
    assert!(swapchain_queue_family_indices(&same).is_empty());
    let differ = VkQueueFamilyIndices { graphics_family: Some(0), present_family: Some(2) };
    assert_eq!(swapchain_queue_family_indices(&differ), vec![0, 2]);
}

#[test]
fn swapchain_codes_match_vulkan() {
    assert_eq!(VK_FORMAT_B8G8R8A8_SRGB, vk::Format::B8G8R8A8_SRGB.as_raw());
    assert_eq!(VK_COLOR_SPACE_SRGB_NONLINEAR_KHR, vk::ColorSpaceKHR::SRGB_NONLINEAR.as_raw());
    assert_eq!(VK_PRESENT_MODE_MAILBOX_KHR, vk::PresentModeKHR::MAILBOX.as_raw());
    assert_eq!(VK_PRESENT_MODE_FIFO_KHR, vk::PresentModeKHR::FIFO.as_raw());
}
