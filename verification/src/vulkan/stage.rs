//! Stages of a legacy barrier.

use vstd::prelude::*;

verus! {

pub const NONE: u32 = 0;
pub const VERTEX_SHADER: u32 = 8;
pub const FRAGMENT_SHADER: u32 = 0x80;
pub const EARLY_FRAGMENT_TESTS: u32 = 0x100;
pub const LATE_FRAGMENT_TESTS: u32 = 0x200;
pub const COLOR_ATTACHMENT_OUTPUT: u32 = 0x400;
pub const COMPUTE_SHADER: u32 = 0x800;
pub const TRANSFER: u32 = 0x1000;
pub const ALL_GRAPHICS: u32 = 0x8000;
pub const ALL_COMMANDS: u32 = 0x10000;
pub const TASK_SHADER: u32 = 0x80000;
pub const MESH_SHADER: u32 = 0x100000;

} // verus!
