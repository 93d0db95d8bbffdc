//! Accesses of a legacy barrier.

use vstd::prelude::*;

verus! {

pub const NONE: u32 = 0;
pub const UNIFORM_READ: u32 = 8;
pub const INPUT_ATTACHMENT_READ: u32 = 0x10;
pub const SHADER_READ: u32 = 0x20;
pub const SHADER_WRITE: u32 = 0x40;
pub const COLOR_ATTACHMENT_READ: u32 = 0x80;
pub const COLOR_ATTACHMENT_WRITE: u32 = 0x100;
pub const DEPTH_STENCIL_ATTACHMENT_READ: u32 = 0x200;
pub const DEPTH_STENCIL_ATTACHMENT_WRITE: u32 = 0x400;
pub const TRANSFER_READ: u32 = 0x800;
pub const TRANSFER_WRITE: u32 = 0x1000;
pub const MEMORY_READ: u32 = 0x8000;
pub const MEMORY_WRITE: u32 = 0x10000;

} // verus!
