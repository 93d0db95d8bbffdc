//! What a buffer may be used for.

use vstd::prelude::*;

verus! {

pub const TRANSFER_SRC: u32 = 1;
pub const TRANSFER_DST: u32 = 2;
pub const UNIFORM_TEXEL_BUFFER: u32 = 4;
pub const STORAGE_TEXEL_BUFFER: u32 = 8;
pub const UNIFORM_BUFFER: u32 = 0x10;
pub const STORAGE_BUFFER: u32 = 0x20;
pub const INDEX_BUFFER: u32 = 0x40;
pub const VERTEX_BUFFER: u32 = 0x80;
pub const INDIRECT_BUFFER: u32 = 0x100;

} // verus!
