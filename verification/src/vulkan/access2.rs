//! Accesses of a barrier.

use vstd::prelude::*;

verus! {

pub const NONE: u64 = 0;
pub const UNIFORM_READ: u64 = 8;
pub const INPUT_ATTACHMENT_READ: u64 = 0x10;
pub const COLOR_ATTACHMENT_READ: u64 = 0x80;
pub const COLOR_ATTACHMENT_WRITE: u64 = 0x100;
pub const DEPTH_STENCIL_ATTACHMENT_READ: u64 = 0x200;
pub const DEPTH_STENCIL_ATTACHMENT_WRITE: u64 = 0x400;
pub const TRANSFER_READ: u64 = 0x800;
pub const TRANSFER_WRITE: u64 = 0x1000;
pub const HOST_WRITE: u64 = 0x4000;
pub const MEMORY_READ: u64 = 0x8000;
pub const MEMORY_WRITE: u64 = 0x10000;
pub const SHADER_SAMPLED_READ: u64 = 0x100000000;
pub const SHADER_STORAGE_READ: u64 = 0x200000000;
pub const SHADER_STORAGE_WRITE: u64 = 0x400000000;

} // verus!
