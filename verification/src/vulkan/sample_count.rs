//! Samples per texel.

use vstd::prelude::*;

verus! {

pub const TYPE_1: u32 = 1;
pub const TYPE_2: u32 = 2;
pub const TYPE_4: u32 = 4;
pub const TYPE_8: u32 = 8;
pub const TYPE_16: u32 = 0x10;
pub const TYPE_32: u32 = 0x20;
pub const TYPE_64: u32 = 0x40;

} // verus!
