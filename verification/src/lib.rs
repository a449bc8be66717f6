//! Verified core of the Anasaizi Vulkan engine: the decisions and data layouts
//! that the renderer derives before it talks to the graphics driver.
use vstd::prelude::*;

pub mod buffer_layout;
pub mod queue;
pub mod device;
pub mod swapchain;
pub mod shader_flags;
pub mod application;
pub mod structures;
pub mod object_picker;
pub mod debug_utils;
pub mod descriptor_pool;
pub mod entity_selection;
pub mod render_pass;
pub mod game_layer;
pub mod shader_io;
pub mod shader_source;
pub mod uniform_update;

verus! {

} // verus!
