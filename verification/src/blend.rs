//! A checked colour attachment as `VkPipelineColorBlendAttachmentState` would
//! hold it, and the one device feature four of its factors need.
//!
//! The blend colour is dynamic state and is supplied per draw, so nothing a
//! plan holds carries one.
//!
//! The four dual-source factors need `dualSrcBlend`, and attachments that blend
//! differently need `independentBlend`. Both are facts about the host, so each
//! is a typed refusal and not a parse failure.

use crate::flags::pick_u32;
use crate::guest::{
    Blend, BlendFactor as GuestFactor, BlendOperation, ColorAttachmentState, ColorWriteMask,
};
use crate::text::{decimal, push_decimal, push_text};
use crate::vulkan::{as_bool32, bool32, color_component, BlendFactor, BlendOp, ColorComponentFlags};
use vstd::prelude::*;

verus! {

/// What this host offers for the parts of a blend that are not mappings.
#[derive(Clone, Copy, Debug, Default, PartialEq, Eq, Structural)]
pub struct BlendCell {
    /// `VkPhysicalDeviceFeatures::dualSrcBlend`.
    pub dual_source: bool,
    /// `VkPhysicalDeviceFeatures::independentBlend`.
    pub independent: bool,
}

/// Why a colour attachment cannot be built here.
#[derive(Clone, Copy, Debug, PartialEq, Eq, Structural)]
pub enum Refusal {
    /// The guest named a factor reading the second fragment output and this
    /// device has no `dualSrcBlend`.
    NoDualSource { factor: GuestFactor },
    /// Attachments declare different blend states and this device has no
    /// `independentBlend`.
    NoIndependentBlend { slots: u32 },
}

impl Refusal {
    /// The slug of each refusal.
    pub open spec fn slug_text(self) -> Seq<char> {
        match self {
            Refusal::NoDualSource { .. } => "vk_blend_no_dual_source"@,
            Refusal::NoIndependentBlend { .. } => "vk_blend_no_independent_blend"@,
        }
    }

    /// The refusal's slug.
    #[must_use]
    pub fn slug(self) -> (slug: &'static str)
        ensures
            slug@ == self.slug_text(),
    {
        match self {
            Refusal::NoDualSource { .. } => "vk_blend_no_dual_source",
            Refusal::NoIndependentBlend { .. } => "vk_blend_no_independent_blend",
        }
    }

    /// The refusal with what it is about.
    pub open spec fn message_text(self) -> Seq<char> {
        self.slug_text() + match self {
            Refusal::NoDualSource { factor } => " ordinal="@ + decimal(factor.number() as nat),
            Refusal::NoIndependentBlend { slots } => " slots="@ + decimal(slots as nat),
        }
    }

    /// The refusal with what it is about.
    pub fn message(self) -> (text: String)
        ensures
            text@ == self.message_text(),
    {
        let mut text = String::new();
        push_text(&mut text, self.slug());
        match self {
            Refusal::NoDualSource { factor } => {
                push_text(&mut text, " ordinal=");
                push_decimal(&mut text, factor.ordinal() as u64);
            },
            Refusal::NoIndependentBlend { slots } => {
                push_text(&mut text, " slots=");
                push_decimal(&mut text, slots as u64);
            },
        }
        assert(text@ =~= self.message_text());
        text
    }
}

/// The factor each guest factor is. Metal's blend colour is Vulkan's constant.
pub open spec fn factor_of(guest: GuestFactor) -> BlendFactor {
    match guest {
        GuestFactor::Zero => BlendFactor::Zero,
        GuestFactor::One => BlendFactor::One,
        GuestFactor::SourceColor => BlendFactor::SrcColor,
        GuestFactor::OneMinusSourceColor => BlendFactor::OneMinusSrcColor,
        GuestFactor::SourceAlpha => BlendFactor::SrcAlpha,
        GuestFactor::OneMinusSourceAlpha => BlendFactor::OneMinusSrcAlpha,
        GuestFactor::DestinationColor => BlendFactor::DstColor,
        GuestFactor::OneMinusDestinationColor => BlendFactor::OneMinusDstColor,
        GuestFactor::DestinationAlpha => BlendFactor::DstAlpha,
        GuestFactor::OneMinusDestinationAlpha => BlendFactor::OneMinusDstAlpha,
        GuestFactor::SourceAlphaSaturated => BlendFactor::SrcAlphaSaturate,
        GuestFactor::BlendColor => BlendFactor::ConstantColor,
        GuestFactor::OneMinusBlendColor => BlendFactor::OneMinusConstantColor,
        GuestFactor::BlendAlpha => BlendFactor::ConstantAlpha,
        GuestFactor::OneMinusBlendAlpha => BlendFactor::OneMinusConstantAlpha,
        GuestFactor::Source1Color => BlendFactor::Src1Color,
        GuestFactor::OneMinusSource1Color => BlendFactor::OneMinusSrc1Color,
        GuestFactor::Source1Alpha => BlendFactor::Src1Alpha,
        GuestFactor::OneMinusSource1Alpha => BlendFactor::OneMinusSrc1Alpha,
    }
}

/// The factor each guest factor is. Metal's blend colour is Vulkan's constant.
///
/// Total, and written out rather than cast: a numeric coincidence between two
/// enumerations is not a contract.
#[must_use]
pub fn factor(guest: GuestFactor) -> (native: BlendFactor)
    ensures
        native == factor_of(guest),
{
    match guest {
        GuestFactor::Zero => BlendFactor::Zero,
        GuestFactor::One => BlendFactor::One,
        GuestFactor::SourceColor => BlendFactor::SrcColor,
        GuestFactor::OneMinusSourceColor => BlendFactor::OneMinusSrcColor,
        GuestFactor::SourceAlpha => BlendFactor::SrcAlpha,
        GuestFactor::OneMinusSourceAlpha => BlendFactor::OneMinusSrcAlpha,
        GuestFactor::DestinationColor => BlendFactor::DstColor,
        GuestFactor::OneMinusDestinationColor => BlendFactor::OneMinusDstColor,
        GuestFactor::DestinationAlpha => BlendFactor::DstAlpha,
        GuestFactor::OneMinusDestinationAlpha => BlendFactor::OneMinusDstAlpha,
        GuestFactor::SourceAlphaSaturated => BlendFactor::SrcAlphaSaturate,
        GuestFactor::BlendColor => BlendFactor::ConstantColor,
        GuestFactor::OneMinusBlendColor => BlendFactor::OneMinusConstantColor,
        GuestFactor::BlendAlpha => BlendFactor::ConstantAlpha,
        GuestFactor::OneMinusBlendAlpha => BlendFactor::OneMinusConstantAlpha,
        GuestFactor::Source1Color => BlendFactor::Src1Color,
        GuestFactor::OneMinusSource1Color => BlendFactor::OneMinusSrc1Color,
        GuestFactor::Source1Alpha => BlendFactor::Src1Alpha,
        GuestFactor::OneMinusSource1Alpha => BlendFactor::OneMinusSrc1Alpha,
    }
}

/// The operation each guest operation is.
pub open spec fn operation_of(guest: BlendOperation) -> BlendOp {
    match guest {
        BlendOperation::Add => BlendOp::Add,
        BlendOperation::Subtract => BlendOp::Subtract,
        BlendOperation::ReverseSubtract => BlendOp::ReverseSubtract,
        BlendOperation::Min => BlendOp::Min,
        BlendOperation::Max => BlendOp::Max,
    }
}

/// The operation each guest operation is.
///
/// Total, and written out rather than cast: a numeric coincidence between two
/// enumerations is not a contract.
#[must_use]
pub fn operation(guest: BlendOperation) -> (native: BlendOp)
    ensures
        native == operation_of(guest),
{
    match guest {
        BlendOperation::Add => BlendOp::Add,
        BlendOperation::Subtract => BlendOp::Subtract,
        BlendOperation::ReverseSubtract => BlendOp::ReverseSubtract,
        BlendOperation::Min => BlendOp::Min,
        BlendOperation::Max => BlendOp::Max,
    }
}

/// No two guest factors are one factor, and no two operations one operation.
pub proof fn law_factors_and_operations_stay_distinct(
    a: GuestFactor,
    b: GuestFactor,
    x: BlendOperation,
    y: BlendOperation,
)
    ensures
        factor_of(a) == factor_of(b) ==> a == b,
        operation_of(x) == operation_of(y) ==> x == y,
{
}

/// The components a guest mask writes.
pub open spec fn components(mask: ColorWriteMask) -> ColorComponentFlags {
    pick_u32(mask.bits() & ColorWriteMask::RED != 0, color_component::R) | pick_u32(
        mask.bits() & ColorWriteMask::GREEN != 0,
        color_component::G,
    ) | pick_u32(mask.bits() & ColorWriteMask::BLUE != 0, color_component::B) | pick_u32(
        mask.bits() & ColorWriteMask::ALPHA != 0,
        color_component::A,
    )
}

/// `MTLColorWriteMask` to `VkColorComponentFlags`.
///
/// Metal's bits run alpha-first from the low end; Vulkan's run red-first. The
/// two are reversed over four bits, so passing the mask through would turn an
/// alpha-only mask into a red-only one.
#[must_use]
pub fn write_mask(mask: ColorWriteMask) -> (flags: ColorComponentFlags)
    ensures
        flags == components(mask),
{
    let red: u32 = if mask.writes(ColorWriteMask::RED) {
        color_component::R
    } else {
        0
    };
    let green: u32 = if mask.writes(ColorWriteMask::GREEN) {
        color_component::G
    } else {
        0
    };
    let blue: u32 = if mask.writes(ColorWriteMask::BLUE) {
        color_component::B
    } else {
        0
    };
    let alpha: u32 = if mask.writes(ColorWriteMask::ALPHA) {
        color_component::A
    } else {
        0
    };
    red | green | blue | alpha
}

/// Each component is written exactly where the guest's mask says so.
pub proof fn law_the_write_mask_is_reordered(mask: ColorWriteMask)
    ensures
        components(mask) & color_component::R != 0 <==> mask.bits() & ColorWriteMask::RED != 0,
        components(mask) & color_component::G != 0 <==> mask.bits() & ColorWriteMask::GREEN != 0,
        components(mask) & color_component::B != 0 <==> mask.bits() & ColorWriteMask::BLUE != 0,
        components(mask) & color_component::A != 0 <==> mask.bits() & ColorWriteMask::ALPHA != 0,
        components(mask) <= color_component::RGBA,
{
    let red = pick_u32(mask.bits() & ColorWriteMask::RED != 0, color_component::R);
    let green = pick_u32(mask.bits() & ColorWriteMask::GREEN != 0, color_component::G);
    let blue = pick_u32(mask.bits() & ColorWriteMask::BLUE != 0, color_component::B);
    let alpha = pick_u32(mask.bits() & ColorWriteMask::ALPHA != 0, color_component::A);
    let flags = components(mask);
    assert((flags & 1u32 != 0 <==> red == 1u32) && (flags & 2u32 != 0 <==> green == 2u32) && (flags
        & 4u32 != 0 <==> blue == 4u32) && (flags & 8u32 != 0 <==> alpha == 8u32) && flags <= 15u32)
        by (bit_vector)
        requires
            flags == red | green | blue | alpha,
            red == 0u32 || red == 1u32,
            green == 0u32 || green == 2u32,
            blue == 0u32 || blue == 4u32,
            alpha == 0u32 || alpha == 8u32,
    ;
}

/// One attachment, as `VkPipelineColorBlendAttachmentState` would hold it.
#[derive(Clone, Copy, Debug, PartialEq, Eq, Hash, Structural)]
pub struct AttachmentPlan {
    pub blend_enable: bool,
    pub src_color_blend_factor: BlendFactor,
    pub dst_color_blend_factor: BlendFactor,
    pub color_blend_op: BlendOp,
    pub src_alpha_blend_factor: BlendFactor,
    pub dst_alpha_blend_factor: BlendFactor,
    pub alpha_blend_op: BlendOp,
    pub color_write_mask: ColorComponentFlags,
}

/// The members of `VkPipelineColorBlendAttachmentState`.
#[derive(Clone, Copy, Debug, PartialEq, Eq, Structural)]
pub struct NativeBlendAttachment {
    pub blend_enable: u32,
    pub src_color_blend_factor: BlendFactor,
    pub dst_color_blend_factor: BlendFactor,
    pub color_blend_op: BlendOp,
    pub src_alpha_blend_factor: BlendFactor,
    pub dst_alpha_blend_factor: BlendFactor,
    pub alpha_blend_op: BlendOp,
    pub color_write_mask: ColorComponentFlags,
}

impl AttachmentPlan {
    /// The members the pipeline is created with.
    #[must_use]
    pub fn native(self) -> (native: NativeBlendAttachment)
        ensures
            native == (NativeBlendAttachment {
                blend_enable: bool32(self.blend_enable),
                src_color_blend_factor: self.src_color_blend_factor,
                dst_color_blend_factor: self.dst_color_blend_factor,
                color_blend_op: self.color_blend_op,
                src_alpha_blend_factor: self.src_alpha_blend_factor,
                dst_alpha_blend_factor: self.dst_alpha_blend_factor,
                alpha_blend_op: self.alpha_blend_op,
                color_write_mask: self.color_write_mask,
            }),
    {
        NativeBlendAttachment {
            blend_enable: as_bool32(self.blend_enable),
            src_color_blend_factor: self.src_color_blend_factor,
            dst_color_blend_factor: self.dst_color_blend_factor,
            color_blend_op: self.color_blend_op,
            src_alpha_blend_factor: self.src_alpha_blend_factor,
            dst_alpha_blend_factor: self.dst_alpha_blend_factor,
            alpha_blend_op: self.alpha_blend_op,
            color_write_mask: self.color_write_mask,
        }
    }
}

/// The first of a blend's factors that reads the second fragment output: the
/// colour factors first, source before destination.
pub open spec fn first_dual_source(blend: Blend) -> Option<GuestFactor> {
    if blend.src_color.reads_second_output() {
        Some(blend.src_color)
    } else if blend.dst_color.reads_second_output() {
        Some(blend.dst_color)
    } else if blend.src_alpha.reads_second_output() {
        Some(blend.src_alpha)
    } else if blend.dst_alpha.reads_second_output() {
        Some(blend.dst_alpha)
    } else {
        None
    }
}

/// Why an attachment cannot be planned on a host, if it cannot.
pub open spec fn refusal(state: ColorAttachmentState, cell: BlendCell) -> Option<Refusal> {
    match state.blend {
        Some(blend) if !cell.dual_source && first_dual_source(blend) is Some => Some(
            Refusal::NoDualSource { factor: first_dual_source(blend)->0 },
        ),
        _ => None,
    }
}

/// What an attachment becomes. One that does not blend carries fixed factors,
/// which Vulkan ignores, so that attachments that behave alike plan alike.
pub open spec fn planned(state: ColorAttachmentState) -> AttachmentPlan {
    match state.blend {
        None => AttachmentPlan {
            blend_enable: false,
            src_color_blend_factor: BlendFactor::One,
            dst_color_blend_factor: BlendFactor::Zero,
            color_blend_op: BlendOp::Add,
            src_alpha_blend_factor: BlendFactor::One,
            dst_alpha_blend_factor: BlendFactor::Zero,
            alpha_blend_op: BlendOp::Add,
            color_write_mask: components(state.write_mask),
        },
        Some(blend) => AttachmentPlan {
            blend_enable: true,
            src_color_blend_factor: factor_of(blend.src_color),
            dst_color_blend_factor: factor_of(blend.dst_color),
            color_blend_op: operation_of(blend.color_operation),
            src_alpha_blend_factor: factor_of(blend.src_alpha),
            dst_alpha_blend_factor: factor_of(blend.dst_alpha),
            alpha_blend_op: operation_of(blend.alpha_operation),
            color_write_mask: components(state.write_mask),
        },
    }
}

/// Translate one checked colour attachment.
///
/// Refuses when a factor needs a feature this device lacks, with nothing
/// partially translated.
pub fn plan(state: &ColorAttachmentState, cell: BlendCell) -> (plan: Result<
    AttachmentPlan,
    Refusal,
>)
    ensures
        plan == match refusal(*state, cell) {
            Some(refused) => Err::<AttachmentPlan, Refusal>(refused),
            None => Ok(planned(*state)),
        },
{
    let mask: u32 = write_mask(state.write_mask);
    let blend = match state.blend {
        Some(blend) => blend,
        None => {
            return Ok(
                AttachmentPlan {
                    blend_enable: false,
                    src_color_blend_factor: BlendFactor::One,
                    dst_color_blend_factor: BlendFactor::Zero,
                    color_blend_op: BlendOp::Add,
                    src_alpha_blend_factor: BlendFactor::One,
                    dst_alpha_blend_factor: BlendFactor::Zero,
                    alpha_blend_op: BlendOp::Add,
                    color_write_mask: mask,
                },
            );
        },
    };
    if !cell.dual_source {
        if blend.src_color.is_dual_source() {
            return Err(Refusal::NoDualSource { factor: blend.src_color });
        }
        if blend.dst_color.is_dual_source() {
            return Err(Refusal::NoDualSource { factor: blend.dst_color });
        }
        if blend.src_alpha.is_dual_source() {
            return Err(Refusal::NoDualSource { factor: blend.src_alpha });
        }
        if blend.dst_alpha.is_dual_source() {
            return Err(Refusal::NoDualSource { factor: blend.dst_alpha });
        }
    }
    Ok(
        AttachmentPlan {
            blend_enable: true,
            src_color_blend_factor: factor(blend.src_color),
            dst_color_blend_factor: factor(blend.dst_color),
            color_blend_op: operation(blend.color_operation),
            src_alpha_blend_factor: factor(blend.src_alpha),
            dst_alpha_blend_factor: factor(blend.dst_alpha),
            alpha_blend_op: operation(blend.alpha_operation),
            color_write_mask: mask,
        },
    )
}

/// Every attachment of a pipeline carries the same state.
pub open spec fn all_agree(plans: Seq<AttachmentPlan>) -> bool {
    forall|i: int| 0 <= i < plans.len() ==> #[trigger] plans[i] == plans[0]
}

/// Check a whole pipeline's attachments against `independentBlend`.
///
/// Vulkan requires every attachment's state to be identical without the
/// feature, and Metal places no such restriction on what a guest may declare.
pub fn independent(plans: &[AttachmentPlan], cell: BlendCell) -> (checked: Result<(), Refusal>)
    ensures
        checked == if cell.independent || all_agree(plans@) {
            Ok::<(), Refusal>(())
        } else {
            Err(
                Refusal::NoIndependentBlend {
                    slots: if plans@.len() <= u32::MAX {
                        plans@.len() as u32
                    } else {
                        u32::MAX
                    },
                },
            )
        },
{
    if cell.independent || plans.len() < 2 {
        return Ok(());
    }
    let first = plans[0];
    let mut at: usize = 1;
    while at < plans.len()
        invariant
            1 <= at <= plans@.len(),
            first == plans@[0],
            !cell.independent,
            forall|i: int| 0 <= i < at ==> #[trigger] plans@[i] == plans@[0],
        decreases plans@.len() - at,
    {
        if plans[at] != first {
            let slots: u32 = if plans.len() <= u32::MAX as usize {
                plans.len() as u32
            } else {
                u32::MAX
            };
            assert(plans@[at as int] != plans@[0]);
            return Err(Refusal::NoIndependentBlend { slots });
        }
        at += 1;
    }
    Ok(())
}

/// Whether any attachment in a pipeline reads the encoder's blend colour.
///
/// The value the guest set then has to be pushed before a draw.
#[must_use]
pub fn reads_blend_color(states: &[ColorAttachmentState]) -> (reads: bool)
    ensures
        reads <==> exists|i: int|
            0 <= i < states@.len() && ((#[trigger] states@[i]).blend matches Some(blend)
                && blend.uses_constant()),
{
    let mut at: usize = 0;
    while at < states.len()
        invariant
            at <= states@.len(),
            forall|i: int|
                0 <= i < at ==> !((#[trigger] states@[i]).blend matches Some(blend)
                    && blend.uses_constant()),
        decreases states@.len() - at,
    {
        let state = states[at];
        if let Some(blend) = state.blend {
            if blend.reads_blend_color() {
                assert(states@[at as int].blend matches Some(blend) && blend.uses_constant());
                return true;
            }
        }
        at += 1;
    }
    false
}

/// An attachment that does not blend is refused nothing, and plans the same
/// whatever else it declared but its mask.
pub proof fn law_a_disabled_attachment_plans_by_its_mask_alone(
    a: ColorAttachmentState,
    b: ColorAttachmentState,
    cell: BlendCell,
)
    requires
        a.blend is None,
        b.blend is None,
    ensures
        refusal(a, cell) is None,
        planned(a) == planned(b) <==> components(a.write_mask) == components(b.write_mask),
{
}

/// Without the feature an attachment is refused exactly where it blends with a
/// dual-source factor, and with it never; the plan does not depend on the host.
pub proof fn law_only_dual_source_needs_the_feature(state: ColorAttachmentState, cell: BlendCell)
    ensures
        refusal(state, cell) is Some <==> !cell.dual_source && (state.blend matches Some(blend)
            && first_dual_source(blend) is Some),
        refusal(state, cell) matches Some(Refusal::NoDualSource { factor })
            ==> factor.reads_second_output(),
{
}

/// No two refusals share a slug, and what a refusal says starts with its slug.
pub proof fn law_every_refusal_names_itself(a: Refusal, b: Refusal)
    ensures
        a.slug_text() == b.slug_text() ==> {
            &&& a is NoDualSource <==> b is NoDualSource
            &&& a is NoIndependentBlend <==> b is NoIndependentBlend
        },
        a.slug_text().is_prefix_of(a.message_text()),
{
    reveal_strlit("vk_blend_no_dual_source");
    reveal_strlit("vk_blend_no_independent_blend");
    assert(a.slug_text() =~= a.message_text().take(a.slug_text().len() as int));
}

/// What a blend reads at one component: the fragment's first and second output,
/// the attachment and the blend colour, each with its alpha, on a scale of 255.
pub struct Inputs {
    pub source: int,
    pub source_alpha: int,
    pub second: int,
    pub second_alpha: int,
    pub stored: int,
    pub stored_alpha: int,
    pub constant: int,
    pub constant_alpha: int,
}

/// The smaller of what the source covers and what the attachment leaves
/// uncovered.
pub open spec fn uncovered(inputs: Inputs) -> int {
    if inputs.source_alpha <= 255 - inputs.stored_alpha {
        inputs.source_alpha
    } else {
        255 - inputs.stored_alpha
    }
}

/// The weight a guest factor is, out of 255.
pub open spec fn guest_weight(guest: GuestFactor, inputs: Inputs) -> int {
    match guest {
        GuestFactor::Zero => 0,
        GuestFactor::One => 255,
        GuestFactor::SourceColor => inputs.source,
        GuestFactor::OneMinusSourceColor => 255 - inputs.source,
        GuestFactor::SourceAlpha => inputs.source_alpha,
        GuestFactor::OneMinusSourceAlpha => 255 - inputs.source_alpha,
        GuestFactor::DestinationColor => inputs.stored,
        GuestFactor::OneMinusDestinationColor => 255 - inputs.stored,
        GuestFactor::DestinationAlpha => inputs.stored_alpha,
        GuestFactor::OneMinusDestinationAlpha => 255 - inputs.stored_alpha,
        GuestFactor::SourceAlphaSaturated => uncovered(inputs),
        GuestFactor::BlendColor => inputs.constant,
        GuestFactor::OneMinusBlendColor => 255 - inputs.constant,
        GuestFactor::BlendAlpha => inputs.constant_alpha,
        GuestFactor::OneMinusBlendAlpha => 255 - inputs.constant_alpha,
        GuestFactor::Source1Color => inputs.second,
        GuestFactor::OneMinusSource1Color => 255 - inputs.second,
        GuestFactor::Source1Alpha => inputs.second_alpha,
        GuestFactor::OneMinusSource1Alpha => 255 - inputs.second_alpha,
    }
}

/// The weight a native factor is, out of 255.
pub open spec fn native_weight(native: BlendFactor, inputs: Inputs) -> int {
    match native {
        BlendFactor::Zero => 0,
        BlendFactor::One => 255,
        BlendFactor::SrcColor => inputs.source,
        BlendFactor::OneMinusSrcColor => 255 - inputs.source,
        BlendFactor::DstColor => inputs.stored,
        BlendFactor::OneMinusDstColor => 255 - inputs.stored,
        BlendFactor::SrcAlpha => inputs.source_alpha,
        BlendFactor::OneMinusSrcAlpha => 255 - inputs.source_alpha,
        BlendFactor::DstAlpha => inputs.stored_alpha,
        BlendFactor::OneMinusDstAlpha => 255 - inputs.stored_alpha,
        BlendFactor::ConstantColor => inputs.constant,
        BlendFactor::OneMinusConstantColor => 255 - inputs.constant,
        BlendFactor::ConstantAlpha => inputs.constant_alpha,
        BlendFactor::OneMinusConstantAlpha => 255 - inputs.constant_alpha,
        BlendFactor::SrcAlphaSaturate => uncovered(inputs),
        BlendFactor::Src1Color => inputs.second,
        BlendFactor::OneMinusSrc1Color => 255 - inputs.second,
        BlendFactor::Src1Alpha => inputs.second_alpha,
        BlendFactor::OneMinusSrc1Alpha => 255 - inputs.second_alpha,
    }
}

/// What a guest operation makes of two weighted values.
pub open spec fn guest_combines(guest: BlendOperation, source: int, stored: int) -> int {
    match guest {
        BlendOperation::Add => source + stored,
        BlendOperation::Subtract => source - stored,
        BlendOperation::ReverseSubtract => stored - source,
        BlendOperation::Min => if source <= stored {
            source
        } else {
            stored
        },
        BlendOperation::Max => if source <= stored {
            stored
        } else {
            source
        },
    }
}

/// What a native operation makes of two weighted values.
pub open spec fn native_combines(native: BlendOp, source: int, stored: int) -> int {
    match native {
        BlendOp::Add => source + stored,
        BlendOp::Subtract => source - stored,
        BlendOp::ReverseSubtract => stored - source,
        BlendOp::Min => if source <= stored {
            source
        } else {
            stored
        },
        BlendOp::Max => if source <= stored {
            stored
        } else {
            source
        },
    }
}

/// A factor weighs, and an operation combines, as the guest's does whatever the
/// blend reads.
pub proof fn law_a_factor_weighs_what_the_guests_does(
    guest: GuestFactor,
    native: BlendFactor,
    inputs: Inputs,
    operation_guest: BlendOperation,
    operation_native: BlendOp,
    source: int,
    stored: int,
)
    requires
        call_ensures(factor, (guest,), native),
        call_ensures(operation, (operation_guest,), operation_native),
    ensures
        native_weight(native, inputs) == guest_weight(guest, inputs),
        native == factor_of(guest),
        native_combines(operation_native, source, stored) == guest_combines(
            operation_guest,
            source,
            stored,
        ),
        operation_native == operation_of(operation_guest),
{
}

/// Only the factors said to read the blend colour depend on it, and only those
/// said to read the second output depend on that; each of them does.
pub proof fn law_a_factor_reads_what_it_says(guest: GuestFactor, a: Inputs, b: Inputs)
    requires
        a.source == b.source,
        a.source_alpha == b.source_alpha,
        a.stored == b.stored,
        a.stored_alpha == b.stored_alpha,
    ensures
        !guest.reads_constant() && a.second == b.second && a.second_alpha == b.second_alpha
            ==> guest_weight(guest, a) == guest_weight(guest, b),
        !guest.reads_second_output() && a.constant == b.constant && a.constant_alpha
            == b.constant_alpha ==> guest_weight(guest, a) == guest_weight(guest, b),
        guest.reads_constant() && a.constant != b.constant && a.constant_alpha != b.constant_alpha
            ==> guest_weight(guest, a) != guest_weight(guest, b),
        guest.reads_second_output() && a.second != b.second && a.second_alpha != b.second_alpha
            ==> guest_weight(guest, a) != guest_weight(guest, b),
{
}

/// An attachment that blends weighs the source and the attachment by the
/// guest's own factors, colour and alpha apart, and combines each by its own
/// operation; one that does not passes the source through. Either writes the
/// components the guest's mask names.
pub proof fn law_an_attachment_blends_as_the_guests_does(
    state: ColorAttachmentState,
    cell: BlendCell,
    made: AttachmentPlan,
    inputs: Inputs,
    source: int,
    stored: int,
)
    requires
        call_ensures(plan, (&state, cell), Ok::<AttachmentPlan, Refusal>(made)),
    ensures
        made.blend_enable <==> state.blend is Some,
        state.blend matches Some(blend) ==> {
            &&& native_weight(made.src_color_blend_factor, inputs) == guest_weight(
                blend.src_color,
                inputs,
            )
            &&& native_weight(made.dst_color_blend_factor, inputs) == guest_weight(
                blend.dst_color,
                inputs,
            )
            &&& native_weight(made.src_alpha_blend_factor, inputs) == guest_weight(
                blend.src_alpha,
                inputs,
            )
            &&& native_weight(made.dst_alpha_blend_factor, inputs) == guest_weight(
                blend.dst_alpha,
                inputs,
            )
            &&& native_combines(made.color_blend_op, source, stored) == guest_combines(
                blend.color_operation,
                source,
                stored,
            )
            &&& native_combines(made.alpha_blend_op, source, stored) == guest_combines(
                blend.alpha_operation,
                source,
                stored,
            )
        },
        state.blend is None ==> {
            &&& native_weight(made.src_color_blend_factor, inputs) == 255
            &&& native_weight(made.dst_color_blend_factor, inputs) == 0
            &&& native_weight(made.src_alpha_blend_factor, inputs) == 255
            &&& native_weight(made.dst_alpha_blend_factor, inputs) == 0
            &&& made.color_blend_op is Add
            &&& made.alpha_blend_op is Add
        },
        ({
            let bits = state.write_mask.bits();
            let written = made.color_write_mask;
            &&& written & color_component::R != 0 <==> bits & ColorWriteMask::RED != 0
            &&& written & color_component::G != 0 <==> bits & ColorWriteMask::GREEN != 0
            &&& written & color_component::B != 0 <==> bits & ColorWriteMask::BLUE != 0
            &&& written & color_component::A != 0 <==> bits & ColorWriteMask::ALPHA != 0
            &&& written <= color_component::RGBA
        }),
{
    law_the_write_mask_is_reordered(state.write_mask);
}

/// An attachment is refused exactly where one of its four factors reads a
/// second output the host does not have, by the first such factor; attachments
/// are refused together exactly where two of them differ on a host that cannot
/// tell them apart, by how many there are.
pub proof fn law_blending_is_refused_for_its_own_reason(
    state: ColorAttachmentState,
    plans: &[AttachmentPlan],
    cell: BlendCell,
    made: Result<AttachmentPlan, Refusal>,
    checked: Result<(), Refusal>,
)
    requires
        call_ensures(plan, (&state, cell), made),
        call_ensures(independent, (plans, cell), checked),
    ensures
        made is Err <==> !cell.dual_source && (state.blend matches Some(blend) && (
        blend.src_color.reads_second_output() || blend.dst_color.reads_second_output()
            || blend.src_alpha.reads_second_output() || blend.dst_alpha.reads_second_output())),
        made matches Err(refused) ==> {
            let blend = state.blend->0;
            &&& refused matches Refusal::NoDualSource { factor } && factor.reads_second_output()
            &&& blend.src_color.reads_second_output() ==> refused->factor == blend.src_color
            &&& !blend.src_color.reads_second_output() && blend.dst_color.reads_second_output()
                ==> refused->factor == blend.dst_color
            &&& !blend.src_color.reads_second_output() && !blend.dst_color.reads_second_output()
                && blend.src_alpha.reads_second_output() ==> refused->factor == blend.src_alpha
            &&& !blend.src_color.reads_second_output() && !blend.dst_color.reads_second_output()
                && !blend.src_alpha.reads_second_output() ==> refused->factor == blend.dst_alpha
        },
        checked is Ok <==> cell.independent || forall|i: int, j: int|
            0 <= i < plans@.len() && 0 <= j < plans@.len() ==> plans@[i] == plans@[j],
        checked matches Err(refused) ==> refused is NoIndependentBlend && (plans@.len() <= u32::MAX
            ==> refused->slots == plans@.len()),
{
    if !cell.independent && checked is Ok {
        assert forall|i: int, j: int|
            0 <= i < plans@.len() && 0 <= j < plans@.len() implies plans@[i] == plans@[j] by {
            assert(plans@[i] == plans@[0]);
            assert(plans@[j] == plans@[0]);
        }
    }
    if !cell.independent && checked is Err {
        let i = choose|i: int| 0 <= i < plans@.len() && #[trigger] plans@[i] != plans@[0];
        assert(plans@[i] != plans@[0]);
    }
}

/// The blend colour is read exactly where some attachment that blends has one
/// of its four factors read it.
pub proof fn law_the_blend_colour_is_read_where_a_factor_reads_it(
    states: &[ColorAttachmentState],
    reads: bool,
)
    requires
        call_ensures(reads_blend_color, (states,), reads),
    ensures
        reads <==> exists|i: int|
            0 <= i < states@.len() && (#[trigger] states@[i]).blend is Some && (
            states@[i].blend->0.src_color.reads_constant()
                || states@[i].blend->0.dst_color.reads_constant()
                || states@[i].blend->0.src_alpha.reads_constant()
                || states@[i].blend->0.dst_alpha.reads_constant()),
{
}

/// The members a pipeline is created with are the plan's own, each in its own
/// place.
pub proof fn law_an_attachment_is_created_with_the_plans_members(
    plan: AttachmentPlan,
    native: NativeBlendAttachment,
)
    requires
        call_ensures(AttachmentPlan::native, (plan,), native),
    ensures
        native.blend_enable == 1 <==> plan.blend_enable,
        native.blend_enable <= 1,
        native.src_color_blend_factor == plan.src_color_blend_factor,
        native.dst_color_blend_factor == plan.dst_color_blend_factor,
        native.color_blend_op == plan.color_blend_op,
        native.src_alpha_blend_factor == plan.src_alpha_blend_factor,
        native.dst_alpha_blend_factor == plan.dst_alpha_blend_factor,
        native.alpha_blend_op == plan.alpha_blend_op,
        native.color_write_mask == plan.color_write_mask,
{
}

} // verus!
