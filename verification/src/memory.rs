//! What kinds of memory a host has, and how its device sees them.

use vstd::prelude::*;

verus! {

/// Whether the device's memory is the host's own.
#[derive(Clone, Copy, Debug, PartialEq, Eq, Hash, Structural)]
pub enum MemoryTopology {
    /// One memory, reached by both.
    Unified,
    /// The device has its own memory across a bus.
    Discrete,
}

impl MemoryTopology {
    /// The slug of each topology.
    pub open spec fn slug_text(self) -> Seq<char> {
        match self {
            MemoryTopology::Unified => "unified"@,
            MemoryTopology::Discrete => "discrete"@,
        }
    }

    /// The topology's slug.
    #[must_use]
    pub fn slug(self) -> (slug: &'static str)
        ensures
            slug@ == self.slug_text(),
    {
        match self {
            MemoryTopology::Unified => "unified",
            MemoryTopology::Discrete => "discrete",
        }
    }
}

/// What an allocation is for, as far as its placement goes.
#[derive(Clone, Copy, Debug, PartialEq, Eq, Hash, Structural)]
pub enum MemoryClass {
    /// Memory the device reads without crossing the bus.
    DeviceLocal,
    /// Device-local memory the host can also reach, where there is some.
    DeviceLocalPreferred,
    /// Memory the host writes and the device reads.
    Upload,
}

/// A topology is called by what its memory is.
pub proof fn law_a_topology_is_called_by_its_name(value: MemoryTopology, name: &'static str)
    requires
        call_ensures(MemoryTopology::slug, (value,), name),
    ensures
        value is Unified ==> name@ == "unified"@,
        value is Discrete ==> name@ == "discrete"@,
{
}

} // verus!
