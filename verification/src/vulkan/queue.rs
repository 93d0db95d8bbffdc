//! What a queue family can do.

use vstd::prelude::*;

verus! {

pub const GRAPHICS: u32 = 1;
pub const COMPUTE: u32 = 2;
pub const TRANSFER: u32 = 4;
pub const SPARSE_BINDING: u32 = 8;
pub const VIDEO_DECODE: u32 = 0x20;

} // verus!
