//! What an image may be used for.

use vstd::prelude::*;

verus! {

pub const TRANSFER_SRC: u32 = 1;
pub const TRANSFER_DST: u32 = 2;
pub const SAMPLED: u32 = 4;
pub const STORAGE: u32 = 8;
pub const COLOR_ATTACHMENT: u32 = 0x10;
pub const DEPTH_STENCIL_ATTACHMENT: u32 = 0x20;

} // verus!
