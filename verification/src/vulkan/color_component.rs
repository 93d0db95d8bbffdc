//! The components a draw writes.

use vstd::prelude::*;

verus! {

pub const R: u32 = 1;
pub const G: u32 = 2;
pub const B: u32 = 4;
pub const A: u32 = 8;
/// Every component.
pub const RGBA: u32 = 0xf;

} // verus!
