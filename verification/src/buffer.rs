//! What a guest buffer becomes here: one `VkBuffer` that can be bound as
//! anything, because the guest's contract never said it could not.
//!
//! A guest buffer is created with a length and a storage mode and nothing else,
//! and Vulkan requires the usage up front. So the only translation that
//! preserves the guest's contract is the complete set of operation classes this
//! rail can ever bind a buffer as.
//!
//! What a device can still refuse is size.

use crate::placement::Route;
use crate::text::{decimal, push_decimal, push_text};
use crate::vulkan::{buffer_usage, BufferUsageFlags, SharingMode};
use vstd::prelude::*;

verus! {

/// Why a guest buffer cannot become a `VkBuffer` on this host.
#[derive(Clone, Copy, Debug, PartialEq, Eq, Structural)]
pub enum Refusal {
    /// A buffer of no bytes. `vkCreateBuffer` rejects a zero size.
    ZeroLength,
    /// Longer than this device creates buffers.
    LengthBeyondDevice { declared: u64, max: u64 },
}

impl Refusal {
    /// The slug of each refusal.
    pub open spec fn slug_text(self) -> Seq<char> {
        match self {
            Refusal::ZeroLength => "vk_buffer_zero_length"@,
            Refusal::LengthBeyondDevice { .. } => "vk_buffer_length_beyond_device"@,
        }
    }

    /// The refusal's slug.
    #[must_use]
    pub fn slug(self) -> (slug: &'static str)
        ensures
            slug@ == self.slug_text(),
    {
        match self {
            Refusal::ZeroLength => "vk_buffer_zero_length",
            Refusal::LengthBeyondDevice { .. } => "vk_buffer_length_beyond_device",
        }
    }

    /// The refusal with its numbers.
    pub open spec fn message_text(self) -> Seq<char> {
        match self {
            Refusal::ZeroLength => self.slug_text(),
            Refusal::LengthBeyondDevice { declared, max } => self.slug_text() + " declared="@
                + decimal(declared as nat) + " max="@ + decimal(max as nat),
        }
    }

    /// The refusal with its numbers.
    pub fn message(self) -> (text: String)
        ensures
            text@ == self.message_text(),
    {
        let mut text = String::new();
        push_text(&mut text, self.slug());
        match self {
            Refusal::ZeroLength => {},
            Refusal::LengthBeyondDevice { declared, max } => {
                push_text(&mut text, " declared=");
                push_decimal(&mut text, declared);
                push_text(&mut text, " max=");
                push_decimal(&mut text, max);
            },
        }
        assert(text@ =~= self.message_text());
        text
    }
}

/// The largest buffer this device creates, when it says.
///
/// `None` is "this device did not report one" and is deliberately not a number.
#[derive(Clone, Copy, Debug, Default, PartialEq, Eq, Structural)]
pub struct BufferLimits {
    pub max_buffer_size: Option<u64>,
}

/// Every operation class this rail can bind a buffer as.
pub const EVERY_CLASS: u32 = buffer_usage::TRANSFER_SRC | buffer_usage::TRANSFER_DST
    | buffer_usage::UNIFORM_TEXEL_BUFFER | buffer_usage::STORAGE_TEXEL_BUFFER
    | buffer_usage::UNIFORM_BUFFER | buffer_usage::STORAGE_BUFFER | buffer_usage::INDEX_BUFFER
    | buffer_usage::VERTEX_BUFFER | buffer_usage::INDIRECT_BUFFER;

/// A native buffer, as it would be created.
#[derive(Clone, Copy, Debug, PartialEq, Eq, Structural)]
#[must_use]
pub struct BufferPlan {
    pub size: u64,
    pub usage: BufferUsageFlags,
    /// A direct alias is the guest's own pages and every other route allocates
    /// a representation this device owns.
    pub aliased: bool,
}

/// The members of `VkBufferCreateInfo` this rail sets.
#[derive(Clone, Copy, Debug, PartialEq, Eq, Structural)]
pub struct BufferCreateInfo {
    pub size: u64,
    pub usage: BufferUsageFlags,
    pub sharing_mode: SharingMode,
}

/// Why a length cannot be a buffer, if it cannot.
pub open spec fn refusal(size: u64, limits: BufferLimits) -> Option<Refusal> {
    if size == 0 {
        Some(Refusal::ZeroLength)
    } else {
        match limits.max_buffer_size {
            Some(max) if size > max => Some(Refusal::LengthBeyondDevice { declared: size, max }),
            _ => None,
        }
    }
}

/// The buffer a length becomes.
pub open spec fn planned(size: u64, route: Route) -> BufferPlan {
    BufferPlan { size, usage: EVERY_CLASS, aliased: route is DirectAlias }
}

/// Plan the buffer for a guest allocation of `size` bytes.
///
/// Refuses a length no buffer can have, or one past what this device reported.
pub fn plan(size: u64, route: Route, limits: BufferLimits) -> (plan: Result<BufferPlan, Refusal>)
    ensures
        plan == match refusal(size, limits) {
            Some(refused) => Err::<BufferPlan, Refusal>(refused),
            None => Ok(planned(size, route)),
        },
{
    if size == 0 {
        return Err(Refusal::ZeroLength);
    }
    if let Some(max) = limits.max_buffer_size {
        if size > max {
            return Err(Refusal::LengthBeyondDevice { declared: size, max });
        }
    }
    Ok(BufferPlan { size, usage: EVERY_CLASS, aliased: matches!(route, Route::DirectAlias) })
}

impl BufferPlan {
    /// The create info for this plan.
    ///
    /// `EXCLUSIVE`: one queue family owns everything on this rail.
    #[must_use]
    pub fn create_info(&self) -> (info: BufferCreateInfo)
        ensures
            info == (BufferCreateInfo {
                size: self.size,
                usage: self.usage,
                sharing_mode: SharingMode::Exclusive,
            }),
    {
        BufferCreateInfo {
            size: self.size,
            usage: self.usage,
            sharing_mode: SharingMode::Exclusive,
        }
    }
}

/// Every class this rail binds a buffer as is among the planned usages.
pub proof fn law_every_buffer_can_be_bound_as_every_class()
    ensures
        EVERY_CLASS & buffer_usage::TRANSFER_SRC != 0,
        EVERY_CLASS & buffer_usage::TRANSFER_DST != 0,
        EVERY_CLASS & buffer_usage::UNIFORM_TEXEL_BUFFER != 0,
        EVERY_CLASS & buffer_usage::STORAGE_TEXEL_BUFFER != 0,
        EVERY_CLASS & buffer_usage::UNIFORM_BUFFER != 0,
        EVERY_CLASS & buffer_usage::STORAGE_BUFFER != 0,
        EVERY_CLASS & buffer_usage::INDEX_BUFFER != 0,
        EVERY_CLASS & buffer_usage::VERTEX_BUFFER != 0,
        EVERY_CLASS & buffer_usage::INDIRECT_BUFFER != 0,
        EVERY_CLASS == 0x1ff,
{
    assert(1u32 | 2u32 | 4u32 | 8u32 | 0x10u32 | 0x20u32 | 0x40u32 | 0x80u32 | 0x100u32
        == 0x1ffu32 && 0x1ffu32 & 1u32 != 0 && 0x1ffu32 & 2u32 != 0 && 0x1ffu32 & 4u32 != 0
        && 0x1ffu32 & 8u32 != 0 && 0x1ffu32 & 0x10u32 != 0 && 0x1ffu32 & 0x20u32 != 0 && 0x1ffu32
        & 0x40u32 != 0 && 0x1ffu32 & 0x80u32 != 0 && 0x1ffu32 & 0x100u32 != 0) by (bit_vector);
}

/// Nothing about an allocation narrows what it can be bound as, and the route
/// alone says whether the pages are the guest's.
pub proof fn law_the_usage_depends_on_nothing(size: u64, other: u64, a: Route, b: Route)
    ensures
        planned(size, a).usage == planned(other, b).usage,
        planned(size, a).aliased == planned(other, a).aliased,
        planned(size, a).aliased <==> a is DirectAlias,
{
}

/// A host that reported no maximum refuses nothing but the empty buffer, and a
/// reported maximum is itself admitted.
pub proof fn law_only_a_reported_maximum_bounds_a_buffer(size: u64, max: u64)
    requires
        size > 0,
    ensures
        refusal(size, BufferLimits { max_buffer_size: None }) is None,
        refusal(size, BufferLimits { max_buffer_size: Some(max) }) is None <==> size <= max,
{
}

/// No two refusals share a slug, and what a refusal says starts with its slug.
pub proof fn law_every_refusal_names_itself(a: Refusal, b: Refusal)
    ensures
        a.slug_text() == b.slug_text() ==> {
            &&& a is ZeroLength <==> b is ZeroLength
            &&& a is LengthBeyondDevice <==> b is LengthBeyondDevice
        },
        a.slug_text().is_prefix_of(a.message_text()),
{
    reveal_strlit("vk_buffer_zero_length");
    reveal_strlit("vk_buffer_length_beyond_device");
    assert(a.slug_text() =~= a.message_text().take(a.slug_text().len() as int));
}

/// A planned buffer is as long as was asked for, can be bound as every class
/// and is the guest's own pages on a direct alias alone; one is created with
/// those members, exclusive. A length is refused exactly where it is zero or
/// beyond a reported maximum, and the refusal carries both numbers.
pub proof fn law_a_planned_buffer_is_the_one_asked_for(
    size: u64,
    route: Route,
    limits: BufferLimits,
    answer: Result<BufferPlan, Refusal>,
    info: BufferCreateInfo,
)
    requires
        call_ensures(plan, (size, route, limits), answer),
        answer matches Ok(made) ==> call_ensures(BufferPlan::create_info, (&made,), info),
    ensures
        answer is Ok <==> size > 0 && (limits.max_buffer_size matches Some(max) ==> size <= max),
        answer matches Ok(made) ==> {
            &&& made.size == size
            &&& made.usage == 0x1ff
            &&& made.aliased <==> route is DirectAlias
            &&& info.size == size
            &&& info.usage == 0x1ff
            &&& info.sharing_mode is Exclusive
        },
        size == 0 ==> answer == Err::<BufferPlan, Refusal>(Refusal::ZeroLength),
        answer matches Err(Refusal::LengthBeyondDevice { declared, max }) ==> declared == size
            && limits.max_buffer_size == Some(max) && size > max,
{
    law_every_buffer_can_be_bound_as_every_class();
}

} // verus!
