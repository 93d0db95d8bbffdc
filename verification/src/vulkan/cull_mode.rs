//! The faces a rasterizer drops.

use vstd::prelude::*;

verus! {

pub const NONE: u32 = 0;
pub const FRONT: u32 = 1;
pub const BACK: u32 = 2;

} // verus!
