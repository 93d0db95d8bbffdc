//! The extensions this rail asks about, by name.

use vstd::prelude::*;

verus! {

pub const SWAPCHAIN: &'static str = "VK_KHR_swapchain";

pub const MESH_SHADER: &'static str = "VK_EXT_mesh_shader";

pub const DESCRIPTOR_BUFFER: &'static str = "VK_EXT_descriptor_buffer";

pub const SYNCHRONIZATION_2: &'static str = "VK_KHR_synchronization2";

pub const DYNAMIC_RENDERING: &'static str = "VK_KHR_dynamic_rendering";

pub const EXTENDED_DYNAMIC_STATE: &'static str = "VK_EXT_extended_dynamic_state";

pub const EXTENDED_DYNAMIC_STATE_3: &'static str = "VK_EXT_extended_dynamic_state3";

pub const VERTEX_ATTRIBUTE_DIVISOR: &'static str = "VK_KHR_vertex_attribute_divisor";

pub const VERTEX_ATTRIBUTE_DIVISOR_EXT: &'static str = "VK_EXT_vertex_attribute_divisor";

pub const PUSH_DESCRIPTOR: &'static str = "VK_KHR_push_descriptor";

pub const MAINTENANCE_4: &'static str = "VK_KHR_maintenance4";

pub const EXTERNAL_MEMORY_HOST: &'static str = "VK_EXT_external_memory_host";

} // verus!
