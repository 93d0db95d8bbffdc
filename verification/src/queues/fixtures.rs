//! Synthetic queue-family tables for the arrangements in the support matrix.

use super::Family;
use crate::vulkan::queue;
use vstd::prelude::*;

verus! {

/// A discrete part: a universal family, a transfer-only copy engine, and a
/// compute-only family.
#[must_use]
pub fn discrete() -> (families: Vec<Family>)
    ensures
        families@ == seq![
            Family {
                index: 0,
                flags: queue::GRAPHICS | queue::COMPUTE | queue::TRANSFER | queue::SPARSE_BINDING,
                count: 16,
            },
            Family { index: 1, flags: queue::TRANSFER | queue::SPARSE_BINDING, count: 2 },
            Family {
                index: 2,
                flags: queue::COMPUTE | queue::TRANSFER | queue::SPARSE_BINDING,
                count: 8,
            },
        ],
{
    let mut families: Vec<Family> = Vec::new();
    families.push(
        Family {
            index: 0,
            flags: queue::GRAPHICS | queue::COMPUTE | queue::TRANSFER | queue::SPARSE_BINDING,
            count: 16,
        },
    );
    families.push(Family { index: 1, flags: queue::TRANSFER | queue::SPARSE_BINDING, count: 2 });
    families.push(
        Family {
            index: 2,
            flags: queue::COMPUTE | queue::TRANSFER | queue::SPARSE_BINDING,
            count: 8,
        },
    );
    families
}

/// An integrated part: one family that does everything, and no copy engine.
#[must_use]
pub fn integrated() -> (families: Vec<Family>)
    ensures
        families@ == seq![
            Family {
                index: 0,
                flags: queue::GRAPHICS | queue::COMPUTE | queue::TRANSFER | queue::SPARSE_BINDING,
                count: 1,
            },
        ],
{
    let mut families: Vec<Family> = Vec::new();
    families.push(
        Family {
            index: 0,
            flags: queue::GRAPHICS | queue::COMPUTE | queue::TRANSFER | queue::SPARSE_BINDING,
            count: 1,
        },
    );
    families
}

/// A host whose only drawing family cannot dispatch.
#[must_use]
pub fn graphics_without_compute() -> (families: Vec<Family>)
    ensures
        families@ == seq![
            Family { index: 0, flags: queue::GRAPHICS | queue::TRANSFER, count: 1 },
            Family { index: 1, flags: queue::TRANSFER, count: 1 },
        ],
{
    let mut families: Vec<Family> = Vec::new();
    families.push(Family { index: 0, flags: queue::GRAPHICS | queue::TRANSFER, count: 1 });
    families.push(Family { index: 1, flags: queue::TRANSFER, count: 1 });
    families
}

/// A video-only family beside the universal one. Decoding video is not a
/// reason to call a family a copy engine.
#[must_use]
pub fn universal_and_video() -> (families: Vec<Family>)
    ensures
        families@ == seq![
            Family {
                index: 0,
                flags: queue::GRAPHICS | queue::COMPUTE | queue::TRANSFER,
                count: 4,
            },
            Family { index: 1, flags: queue::VIDEO_DECODE, count: 1 },
        ],
{
    let mut families: Vec<Family> = Vec::new();
    families.push(
        Family {
            index: 0,
            flags: queue::GRAPHICS | queue::COMPUTE | queue::TRANSFER,
            count: 4,
        },
    );
    families.push(Family { index: 1, flags: queue::VIDEO_DECODE, count: 1 });
    families
}

} // verus!
