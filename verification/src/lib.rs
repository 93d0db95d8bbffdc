//! Planning a Vulkan rendering of guest Metal work.
//!
//! Everything here is a decision over plain values: which slots an emission
//! writes, which barrier an ordering needs, which pipeline state a guest
//! descriptor becomes.

pub mod barrier;
pub mod bindings;
pub mod bits;
pub mod blend;
pub mod buffer;
pub mod census;
pub mod depth_stencil;
pub mod descriptor;
pub mod flags;
pub mod frames;
pub mod guest;
pub mod host;
pub mod ieee;
pub mod ieee_sum;
pub mod image;
pub mod layout;
pub mod memory;
pub mod pass;
pub mod pixel;
pub mod placement;
pub mod pools;
pub mod queues;
pub mod raster;
pub mod sampler;
pub mod tally;
pub mod text;
pub mod texture;
pub mod vulkan;
