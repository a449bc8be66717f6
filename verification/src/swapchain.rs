//! How the swapchain is set up: its surface format, present mode, extent, image count and
//! the queue families that share its images.
use vstd::prelude::*;
use crate::queue::VkQueueFamilyIndices;

verus! {

/// `VK_FORMAT_B8G8R8A8_SRGB`
pub const VK_FORMAT_B8G8R8A8_SRGB: i32 = 50i32;

/// `VK_COLOR_SPACE_SRGB_NONLINEAR_KHR`
pub const VK_COLOR_SPACE_SRGB_NONLINEAR_KHR: i32 = 0i32;

/// `VK_PRESENT_MODE_MAILBOX_KHR`
pub const VK_PRESENT_MODE_MAILBOX_KHR: i32 = 1i32;

/// `VK_PRESENT_MODE_FIFO_KHR`
pub const VK_PRESENT_MODE_FIFO_KHR: i32 = 2i32;

/// A two-dimensional extent in pixels.
#[derive(Clone, Copy, PartialEq, Eq, Debug, Structural)]
pub struct Extent2D {
    pub width: u32,
    pub height: u32,
}

/// A format and color space that a surface supports.
#[derive(Clone, Copy, PartialEq, Eq, Debug, Structural)]
pub struct SurfaceFormat {
    /// The `VkFormat` code.
    pub format: i32,
    /// The `VkColorSpaceKHR` code.
    pub color_space: i32,
}

/// The surface capabilities that the swapchain setup reads.
#[derive(Clone, Copy, PartialEq, Eq, Debug)]
pub struct SurfaceCapabilities {
    pub min_image_count: u32,
    /// 0 means that there is no maximum.
    pub max_image_count: u32,
    pub current_extent: Extent2D,
    pub min_image_extent: Extent2D,
    pub max_image_extent: Extent2D,
}

/// The surface format that the engine prefers: 8-bit BGRA in sRGB.
pub open spec fn preferred_surface_format() -> SurfaceFormat {
    SurfaceFormat {
        format: VK_FORMAT_B8G8R8A8_SRGB,
        color_space: VK_COLOR_SPACE_SRGB_NONLINEAR_KHR,
    }
}

/// `input` limited to the range from `min` to `max`.
pub open spec fn clamp_spec(input: u32, min: u32, max: u32) -> u32 {
    if input < min {
        min
    } else if input > max {
        max
    } else {
        input
    }
}

/// Calls `num::clamp`, which returns `min` when `input < min`, else `max` when
/// `input > max`, else `input`; it asserts `min <= max` in debug builds.
#[verifier::external_body]
fn num_clamp(input: u32, min: u32, max: u32) -> (r: u32)
    requires
        min <= max,
    ensures
        r == clamp_spec(input, min, max),
{
    num::clamp(input, min, max)
}

/// Picks 8-bit BGRA sRGB in the nonlinear sRGB color space when the surface offers it,
/// else the first format that the surface offers.
pub fn choose_swapchain_format(available_formats: &Vec<SurfaceFormat>) -> (r: SurfaceFormat)
    requires
        available_formats.len() > 0,
    ensures
        available_formats@.contains(preferred_surface_format()) ==> r == preferred_surface_format(),
        !available_formats@.contains(preferred_surface_format()) ==> r == available_formats@[0],
{
    let n = available_formats.len();
    for i in 0..n
        invariant
            n == available_formats.len(),
            forall|j: int| 0 <= j < i ==> available_formats@[j] != preferred_surface_format(),
    {
        let available_format = available_formats[i];
        if available_format.format == VK_FORMAT_B8G8R8A8_SRGB && available_format.color_space
            == VK_COLOR_SPACE_SRGB_NONLINEAR_KHR {
            return available_format;
        }
    }
    available_formats[0]
}

/// Picks mailbox presentation when the surface offers it, else FIFO.
pub fn choose_swapchain_present_mode(available_present_modes: &Vec<i32>) -> (r: i32)
    ensures
        r == if available_present_modes@.contains(VK_PRESENT_MODE_MAILBOX_KHR) {
            VK_PRESENT_MODE_MAILBOX_KHR
        } else {
            VK_PRESENT_MODE_FIFO_KHR
        },
{
    let n = available_present_modes.len();
    for i in 0..n
        invariant
            n == available_present_modes.len(),
            forall|j: int| 0 <= j < i ==> available_present_modes@[j] != VK_PRESENT_MODE_MAILBOX_KHR,
    {
        if available_present_modes[i] == VK_PRESENT_MODE_MAILBOX_KHR {
            return available_present_modes[i];
        }
    }
    VK_PRESENT_MODE_FIFO_KHR
}

/// The surface leaves the extent to the swapchain: its current width is the special value
/// `u32::MAX`.
pub open spec fn extent_is_free(capabilities: SurfaceCapabilities) -> bool {
    capabilities.current_extent.width == u32::MAX
}

/// The surface's current extent if it has one, else the window size limited to the extents
/// that the surface allows.
pub fn choose_swapchain_extent(
    capabilities: &SurfaceCapabilities,
    window_width: u32,
    window_height: u32,
) -> (r: Extent2D)
    requires
        extent_is_free(*capabilities) ==> capabilities.min_image_extent.width
            <= capabilities.max_image_extent.width,
        extent_is_free(*capabilities) ==> capabilities.min_image_extent.height
            <= capabilities.max_image_extent.height,
    ensures
        !extent_is_free(*capabilities) ==> r == capabilities.current_extent,
        extent_is_free(*capabilities) ==> r == (Extent2D {
            width: clamp_spec(
                window_width,
                capabilities.min_image_extent.width,
                capabilities.max_image_extent.width,
            ),
            height: clamp_spec(
                window_height,
                capabilities.min_image_extent.height,
                capabilities.max_image_extent.height,
            ),
        }),
{
    if capabilities.current_extent.width != u32::MAX {
        capabilities.current_extent
    } else {
        Extent2D {
            width: num_clamp(
                window_width,
                capabilities.min_image_extent.width,
                capabilities.max_image_extent.width,
            ),
            height: num_clamp(
                window_height,
                capabilities.min_image_extent.height,
                capabilities.max_image_extent.height,
            ),
        }
    }
}

/// One image more than the surface's minimum, but no more than its maximum when it has one.
pub fn swapchain_image_count(capabilities: &SurfaceCapabilities) -> (r: u32)
    requires
        capabilities.min_image_count < u32::MAX,
    ensures
        capabilities.max_image_count > 0 && capabilities.max_image_count
            < capabilities.min_image_count + 1 ==> r == capabilities.max_image_count,
        !(capabilities.max_image_count > 0 && capabilities.max_image_count
            < capabilities.min_image_count + 1) ==> r == capabilities.min_image_count + 1,
{
    let image_count = capabilities.min_image_count + 1;
    if capabilities.max_image_count > 0 {
        if capabilities.max_image_count < image_count {
            capabilities.max_image_count
        } else {
            image_count
        }
    } else {
        image_count
    }
}

/// The queue families that access the swapchain images: the graphics and the present family
/// when they differ, none when they are the same.
pub fn swapchain_queue_family_indices(queue_family: &VkQueueFamilyIndices) -> (r: Vec<u32>)
    requires
        queue_family.graphics_family != queue_family.present_family ==> (
        queue_family.graphics_family is Some && queue_family.present_family is Some),
    ensures
        queue_family.graphics_family != queue_family.present_family ==> r@ == seq![
            queue_family.graphics_family.unwrap(),
            queue_family.present_family.unwrap(),
        ],
        queue_family.graphics_family == queue_family.present_family ==> r@.len() == 0,
{
    if queue_family.graphics_family != queue_family.present_family {
        let mut v: Vec<u32> = Vec::new();
        v.push(queue_family.graphics_family.unwrap());
        v.push(queue_family.present_family.unwrap());
        v
    } else {
        Vec::new()
    }
}


/// A chosen extent always lies within the extents that the surface allows, when the surface
/// leaves the extent to the swapchain.
pub proof fn law_free_extent_within_limits(capabilities: SurfaceCapabilities, window_width: u32, window_height: u32)
    requires
        extent_is_free(capabilities),
        capabilities.min_image_extent.width <= capabilities.max_image_extent.width,
        capabilities.min_image_extent.height <= capabilities.max_image_extent.height,
    ensures
        capabilities.min_image_extent.width <= clamp_spec(window_width, capabilities.min_image_extent.width, capabilities.max_image_extent.width) <= capabilities.max_image_extent.width,
        capabilities.min_image_extent.height <= clamp_spec(window_height, capabilities.min_image_extent.height, capabilities.max_image_extent.height) <= capabilities.max_image_extent.height,
{
}

} // verus!
