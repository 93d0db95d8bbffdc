//! What an image may be viewed as.

use vstd::prelude::*;

verus! {

pub const MUTABLE_FORMAT: u32 = 8;
pub const CUBE_COMPATIBLE: u32 = 0x10;
pub const TYPE_2D_ARRAY_COMPATIBLE: u32 = 0x20;

} // verus!
