//! Stages of a barrier.

use vstd::prelude::*;

verus! {

pub const NONE: u64 = 0;
pub const VERTEX_SHADER: u64 = 8;
pub const FRAGMENT_SHADER: u64 = 0x80;
pub const EARLY_FRAGMENT_TESTS: u64 = 0x100;
pub const LATE_FRAGMENT_TESTS: u64 = 0x200;
pub const COLOR_ATTACHMENT_OUTPUT: u64 = 0x400;
pub const COMPUTE_SHADER: u64 = 0x800;
pub const ALL_TRANSFER: u64 = 0x1000;
pub const HOST: u64 = 0x4000;
pub const ALL_GRAPHICS: u64 = 0x8000;
pub const TASK_SHADER: u64 = 0x80000;
pub const MESH_SHADER: u64 = 0x100000;

} // verus!
