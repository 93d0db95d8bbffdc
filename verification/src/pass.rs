//! What a render-pass descriptor becomes here: the attachments, their load and
//! store operations, and the clear values read the way the format says.
//!
//! A clear colour is four doubles, and Metal interprets them by the
//! attachment's format. The member of Vulkan's clear value is chosen from the
//! guest's format code, and the conversion is a value conversion: `4.0` clears
//! an integer attachment to four.
//!
//! Depth and stencil are two slots to the guest and one attachment here. When
//! the guest attaches both, they must be the same part of the same texture and
//! resolve to the same place; a descriptor that says otherwise is refused.
//!
//! A resolve is a store action, and it needs somewhere to resolve to.
//!
//! [`select`] is a capability ladder whose bottom rung is Vulkan 1.0, so the
//! choice is total.

use crate::guest::{
    Attachment, AttachmentSlot, LoadAction, PassDescriptor, RenderTargetExtent, ResourceId,
    StoreAction, Switch,
};
use crate::ieee::{
    is_finite_single, narrow, narrowed, saturated_i32, saturated_u32, single_is_finite, to_i32,
    to_u32,
};
use crate::pixel::{class_of, clear_class, ClearClass};
use crate::text::{decimal, hexadecimal, push_decimal, push_hexadecimal, push_text};
use crate::vulkan::{AttachmentLoadOp, AttachmentStoreOp, Extent2D};
use vstd::prelude::*;

verus! {

/// Whether this host has dynamic rendering.
///
/// Core from Vulkan 1.3 and `VK_KHR_dynamic_rendering` below it.
#[derive(Clone, Copy, Debug, Default, PartialEq, Eq, Structural)]
pub struct PassCell {
    pub dynamic_rendering: bool,
}

/// An operator switch, which may narrow what this rail uses and never widen
/// it.
#[derive(Clone, Copy, Debug, Default, PartialEq, Eq, Structural)]
pub struct Narrowing {
    /// Force the render-pass object path even where dynamic rendering exists.
    pub no_dynamic_rendering: bool,
}

impl Narrowing {
    /// The veto an operator set, given the environment's dynamic-rendering
    /// switch.
    ///
    /// Only [`Switch::Off`] does anything: `On` would have to widen to mean
    /// anything, and there is nothing above the rung it names.
    #[must_use]
    pub fn from_env(dynamic_rendering: Switch) -> (narrowing: Self)
        ensures
            narrowing.no_dynamic_rendering <==> dynamic_rendering == Switch::Off,
    {
        Narrowing { no_dynamic_rendering: dynamic_rendering == Switch::Off }
    }
}

/// Which mechanism carries a pass here.
#[derive(Clone, Copy, Debug, PartialEq, Eq, Structural)]
pub enum Carrier {
    /// `vkCmdBeginRendering`. No render-pass object, no framebuffer, and no
    /// compatibility rules between a pipeline and the pass it was made for.
    DynamicRendering,
    /// `VkRenderPass` and `VkFramebuffer`. Vulkan 1.0, so this rung is always
    /// available and the ladder is total.
    RenderPassObject,
}

impl Carrier {
    /// The carrier's name.
    #[must_use]
    pub fn name(self) -> (name: &'static str)
        ensures
            name@ == match self {
                Carrier::DynamicRendering => "dynamic_rendering"@,
                Carrier::RenderPassObject => "render_pass_object"@,
            },
    {
        match self {
            Carrier::DynamicRendering => "dynamic_rendering",
            Carrier::RenderPassObject => "render_pass_object",
        }
    }
}

/// Why the higher rung was not taken.
#[derive(Clone, Copy, Debug, PartialEq, Eq, Structural)]
pub enum Declined {
    /// Neither core here nor enumerated.
    Unsupported,
    /// An operator switch narrowed it away.
    Narrowed,
}

impl Declined {
    /// The reason's name.
    #[must_use]
    pub fn name(self) -> (name: &'static str)
        ensures
            name@ == match self {
                Declined::Unsupported => "unsupported"@,
                Declined::Narrowed => "narrowed"@,
            },
    {
        match self {
            Declined::Unsupported => "unsupported",
            Declined::Narrowed => "narrowed",
        }
    }
}

/// The carrier this host uses, and why the other one was not taken.
#[derive(Clone, Copy, Debug, PartialEq, Eq, Structural)]
pub struct Selection {
    pub carrier: Carrier,
    /// `None` when dynamic rendering was taken.
    pub dynamic_rendering: Option<Declined>,
}

/// The carrier a host uses.
pub open spec fn selected(cell: PassCell, narrowing: Narrowing) -> Selection {
    let declined = if !cell.dynamic_rendering {
        Some(Declined::Unsupported)
    } else if narrowing.no_dynamic_rendering {
        Some(Declined::Narrowed)
    } else {
        None
    };
    Selection {
        carrier: if declined is None {
            Carrier::DynamicRendering
        } else {
            Carrier::RenderPassObject
        },
        dynamic_rendering: declined,
    }
}

/// Choose the carrier. Total: the bottom rung needs nothing.
#[must_use]
pub fn select(cell: PassCell, narrowing: Narrowing) -> (selection: Selection)
    ensures
        selection == selected(cell, narrowing),
{
    if !cell.dynamic_rendering {
        return Selection {
            carrier: Carrier::RenderPassObject,
            dynamic_rendering: Some(Declined::Unsupported),
        };
    }
    if narrowing.no_dynamic_rendering {
        return Selection {
            carrier: Carrier::RenderPassObject,
            dynamic_rendering: Some(Declined::Narrowed),
        };
    }
    Selection { carrier: Carrier::DynamicRendering, dynamic_rendering: None }
}

/// Dynamic rendering is carried only where the host has it and nobody vetoed
/// it, so no narrowing takes a host above what it does unnarrowed.
pub proof fn law_no_narrowing_widens_the_carrier(
    cell: PassCell,
    open: Narrowing,
    narrowed: Narrowing,
)
    requires
        open.no_dynamic_rendering ==> narrowed.no_dynamic_rendering,
    ensures
        selected(cell, narrowed).carrier is DynamicRendering ==> selected(
            cell,
            open,
        ).carrier is DynamicRendering,
        selected(cell, narrowed).carrier is DynamicRendering <==> cell.dynamic_rendering
            && !narrowed.no_dynamic_rendering,
{
}

/// Why a pass descriptor cannot be expressed here.
#[derive(Clone, Copy, Debug, PartialEq, Eq)]
pub enum Refusal {
    /// No slot is attached. A pass with no attachments renders nowhere.
    NoAttachments,
    /// The guest attached depth and stencil to different textures. One Vulkan
    /// attachment cannot be two images.
    SplitDepthStencil { depth: ResourceId, stencil: ResourceId },
    /// A store action that resolves, with no resolve target named.
    ResolveWithoutTarget { slot: AttachmentSlot },
    /// The guest attached depth and stencil to one texture but disagreed about
    /// which part of it, or about where it resolves. `field` is the one the two
    /// slots differ on.
    DepthStencilDisagree { field: &'static str },
    /// The depth slot clears to a value no depth buffer can hold: a NaN, an
    /// infinity, or a double that narrows to one. The value travels as its bit
    /// pattern.
    NonFiniteDepthClear { value: u64 },
    /// The render-target extent does not fit the 32-bit fields a pass carries.
    ExtentTooLarge { axis: &'static str, value: u64 },
    /// The render target has no extent at all.
    ZeroExtent { width: u64, height: u64 },
    /// One attachment named both an array slice and a depth plane, which no
    /// texture has both of.
    SliceAndDepthPlane {
        slot: AttachmentSlot,
        /// The attachment itself, or the target it resolves to.
        which: &'static str,
        slice: u16,
        depth_plane: u16,
    },
}

/// A slot's name.
pub open spec fn slot_text(slot: AttachmentSlot) -> Seq<char> {
    match slot {
        AttachmentSlot::Color(index) => "color"@ + decimal(index as nat),
        AttachmentSlot::Depth => "depth"@,
        AttachmentSlot::Stencil => "stencil"@,
    }
}

fn push_slot(text: &mut String, slot: AttachmentSlot)
    ensures
        final(text)@ == old(text)@ + slot_text(slot),
{
    match slot {
        AttachmentSlot::Color(index) => {
            push_text(text, "color");
            push_decimal(text, index as u64);
            assert(text@ =~= old(text)@ + slot_text(slot));
        },
        AttachmentSlot::Depth => push_text(text, "depth"),
        AttachmentSlot::Stencil => push_text(text, "stencil"),
    }
}

impl Refusal {
    /// The slug of each refusal.
    pub open spec fn slug_text(self) -> Seq<char> {
        match self {
            Refusal::NoAttachments => "vk_pass_no_attachments"@,
            Refusal::SplitDepthStencil { .. } => "vk_pass_split_depth_stencil"@,
            Refusal::ResolveWithoutTarget { .. } => "vk_pass_resolve_without_target"@,
            Refusal::DepthStencilDisagree { .. } => "vk_pass_depth_stencil_disagree"@,
            Refusal::NonFiniteDepthClear { .. } => "vk_pass_non_finite_depth_clear"@,
            Refusal::ExtentTooLarge { .. } => "vk_pass_extent_too_large"@,
            Refusal::ZeroExtent { .. } => "vk_pass_zero_extent"@,
            Refusal::SliceAndDepthPlane { .. } => "vk_pass_slice_and_depth_plane"@,
        }
    }

    /// The refusal's slug.
    #[must_use]
    pub fn slug(self) -> (slug: &'static str)
        ensures
            slug@ == self.slug_text(),
    {
        match self {
            Refusal::NoAttachments => "vk_pass_no_attachments",
            Refusal::SplitDepthStencil { .. } => "vk_pass_split_depth_stencil",
            Refusal::ResolveWithoutTarget { .. } => "vk_pass_resolve_without_target",
            Refusal::DepthStencilDisagree { .. } => "vk_pass_depth_stencil_disagree",
            Refusal::NonFiniteDepthClear { .. } => "vk_pass_non_finite_depth_clear",
            Refusal::ExtentTooLarge { .. } => "vk_pass_extent_too_large",
            Refusal::ZeroExtent { .. } => "vk_pass_zero_extent",
            Refusal::SliceAndDepthPlane { .. } => "vk_pass_slice_and_depth_plane",
        }
    }

    /// The refusal with what it is about.
    pub open spec fn message_text(self) -> Seq<char> {
        self.slug_text() + match self {
            Refusal::NoAttachments => Seq::<char>::empty(),
            Refusal::SplitDepthStencil { depth, stencil } => " depth="@ + decimal(
                depth.slot.0 as nat,
            ) + " stencil="@ + decimal(stencil.slot.0 as nat),
            Refusal::ResolveWithoutTarget { slot } => " slot="@ + slot_text(slot),
            Refusal::DepthStencilDisagree { field } => " field="@ + field@,
            Refusal::NonFiniteDepthClear { value } => " value="@ + hexadecimal(value as nat),
            Refusal::ExtentTooLarge { axis, value } => " axis="@ + axis@ + " value="@ + decimal(
                value as nat,
            ),
            Refusal::ZeroExtent { width, height } => " width="@ + decimal(width as nat)
                + " height="@ + decimal(height as nat),
            Refusal::SliceAndDepthPlane { slot, which, slice, depth_plane } => " slot="@
                + slot_text(slot) + " which="@ + which@ + " slice="@ + decimal(slice as nat)
                + " depth_plane="@ + decimal(depth_plane as nat),
        }
    }

    /// The refusal with what it is about.
    pub fn message(self) -> (text: String)
        ensures
            text@ == self.message_text(),
    {
        let mut text = String::new();
        push_text(&mut text, self.slug());
        match self {
            Refusal::NoAttachments => {},
            Refusal::SplitDepthStencil { depth, stencil } => {
                push_text(&mut text, " depth=");
                push_decimal(&mut text, depth.slot.0 as u64);
                push_text(&mut text, " stencil=");
                push_decimal(&mut text, stencil.slot.0 as u64);
            },
            Refusal::ResolveWithoutTarget { slot } => {
                push_text(&mut text, " slot=");
                push_slot(&mut text, slot);
            },
            Refusal::DepthStencilDisagree { field } => {
                push_text(&mut text, " field=");
                push_text(&mut text, field);
            },
            Refusal::NonFiniteDepthClear { value } => {
                push_text(&mut text, " value=");
                push_hexadecimal(&mut text, value);
            },
            Refusal::ExtentTooLarge { axis, value } => {
                push_text(&mut text, " axis=");
                push_text(&mut text, axis);
                push_text(&mut text, " value=");
                push_decimal(&mut text, value);
            },
            Refusal::ZeroExtent { width, height } => {
                push_text(&mut text, " width=");
                push_decimal(&mut text, width);
                push_text(&mut text, " height=");
                push_decimal(&mut text, height);
            },
            Refusal::SliceAndDepthPlane { slot, which, slice, depth_plane } => {
                push_text(&mut text, " slot=");
                push_slot(&mut text, slot);
                push_text(&mut text, " which=");
                push_text(&mut text, which);
                push_text(&mut text, " slice=");
                push_decimal(&mut text, slice as u64);
                push_text(&mut text, " depth_plane=");
                push_decimal(&mut text, depth_plane as u64);
            },
        }
        assert(text@ =~= self.message_text());
        text
    }
}

/// A clear colour in the member the format says to read. Floats travel as the
/// bit patterns of singles.
#[derive(Clone, Copy, Debug, PartialEq, Eq)]
pub enum ClearColor {
    Float([u32; 4]),
    Uint([u32; 4]),
    Sint([i32; 4]),
}

impl ClearColor {
    /// Whether this is what the doubles `components` clear an attachment of
    /// `format` to.
    pub open spec fn reads(self, format: u16, components: [u64; 4]) -> bool {
        match class_of(format) {
            ClearClass::Float => self matches ClearColor::Float(values) && forall|i: int|
                0 <= i < 4 ==> #[trigger] values[i] == narrowed(components[i]),
            ClearClass::Uint => self matches ClearColor::Uint(values) && forall|i: int|
                0 <= i < 4 ==> #[trigger] values[i] == saturated_u32(components[i]),
            ClearClass::Sint => self matches ClearColor::Sint(values) && forall|i: int|
                0 <= i < 4 ==> #[trigger] values[i] == saturated_i32(components[i]),
        }
    }

    /// The guest's four doubles, read the way `format` says.
    ///
    /// A value conversion and never a reinterpretation: a guest clearing an
    /// integer attachment to `4.0` means four.
    #[must_use]
    pub fn of(format: u16, components: [u64; 4]) -> (color: Self)
        ensures
            color.reads(format, components),
    {
        match clear_class(format) {
            ClearClass::Float => ClearColor::Float(
                [
                    narrow(components[0]),
                    narrow(components[1]),
                    narrow(components[2]),
                    narrow(components[3]),
                ],
            ),
            ClearClass::Uint => ClearColor::Uint(
                [
                    to_u32(components[0]),
                    to_u32(components[1]),
                    to_u32(components[2]),
                    to_u32(components[3]),
                ],
            ),
            ClearClass::Sint => ClearColor::Sint(
                [
                    to_i32(components[0]),
                    to_i32(components[1]),
                    to_i32(components[2]),
                    to_i32(components[3]),
                ],
            ),
        }
    }
}

/// A signed value as the word that holds it.
pub open spec fn word_of(value: i32) -> u32 {
    (if value < 0 {
        value + 0x1_0000_0000
    } else {
        value as int
    }) as u32
}

fn as_word(value: i32) -> (word: u32)
    ensures
        word == word_of(value),
{
    if value < 0 {
        (value as i64 + 0x1_0000_0000) as u32
    } else {
        value as u32
    }
}

impl ClearColor {
    /// The four words of a clear value, whichever member they are read through.
    pub open spec fn words(self) -> Seq<u32> {
        match self {
            ClearColor::Float(values) => values@,
            ClearColor::Uint(values) => values@,
            ClearColor::Sint(values) => values@.map_values(|value: i32| word_of(value)),
        }
    }

    /// The four words of `VkClearColorValue`.
    #[must_use]
    pub fn native(self) -> (words: [u32; 4])
        ensures
            words@ == self.words(),
    {
        match self {
            ClearColor::Float(values) => values,
            ClearColor::Uint(values) => values,
            ClearColor::Sint(values) => {
                let words: [u32; 4] = [
                    as_word(values[0]),
                    as_word(values[1]),
                    as_word(values[2]),
                    as_word(values[3]),
                ];
                assert(words@ =~= self.words());
                words
            },
        }
    }
}

/// Where a multisample attachment resolves to.
#[derive(Clone, Copy, Debug, PartialEq, Eq, Structural)]
pub struct Resolve {
    pub texture: ResourceId,
    pub level: u32,
    pub slice: u32,
}

/// One attachment, translated.
#[derive(Clone, Copy, Debug, PartialEq, Eq)]
pub struct AttachmentPlan {
    pub slot: AttachmentSlot,
    pub texture: ResourceId,
    pub level: u32,
    pub slice: u32,
    pub load: AttachmentLoadOp,
    pub store: AttachmentStoreOp,
    /// `None` unless the load operation is a clear.
    pub clear: Option<ClearColor>,
    pub resolve: Option<Resolve>,
}

/// The depth-stencil attachment, which is one image and two pairs of
/// operations.
#[derive(Clone, Copy, Debug, PartialEq, Eq, Structural)]
pub struct DepthStencilPlan {
    pub texture: ResourceId,
    pub level: u32,
    pub slice: u32,
    /// `None` when the guest attached only stencil.
    pub depth: Option<Ops>,
    /// `None` when the guest attached only depth.
    pub stencil: Option<Ops>,
    /// The bit pattern of the single the depth clears to.
    pub clear_depth: u32,
    pub clear_stencil: u32,
    pub resolve: Option<Resolve>,
}

/// One aspect's load and store operations.
#[derive(Clone, Copy, Debug, PartialEq, Eq, Structural)]
pub struct Ops {
    pub load: AttachmentLoadOp,
    pub store: AttachmentStoreOp,
}

/// A whole pass, translated.
#[derive(Clone, Debug, PartialEq, Eq)]
pub struct PassPlan {
    /// Attached colour slots, in slot order. Vulkan's colour attachment index
    /// is the position in this list, so a gap in the guest's slots renumbers.
    pub color: Vec<AttachmentPlan>,
    pub depth_stencil: Option<DepthStencilPlan>,
    pub extent: Extent2D,
    pub layers: u32,
}

/// The load operation each action becomes.
pub open spec fn load_of(action: LoadAction) -> AttachmentLoadOp {
    match action {
        LoadAction::DontCare => AttachmentLoadOp::DontCare,
        LoadAction::Load => AttachmentLoadOp::Load,
        LoadAction::Clear => AttachmentLoadOp::Clear,
    }
}

/// The store operation each action becomes: the attachment itself is stored by
/// the two actions that say so.
pub open spec fn store_of(action: StoreAction) -> AttachmentStoreOp {
    match action {
        StoreAction::DontCare => AttachmentStoreOp::DontCare,
        StoreAction::MultisampleResolve => AttachmentStoreOp::DontCare,
        StoreAction::Store => AttachmentStoreOp::Store,
        StoreAction::StoreAndMultisampleResolve => AttachmentStoreOp::Store,
    }
}

/// The load operation an action becomes.
#[must_use]
pub fn load_op(action: LoadAction) -> (op: AttachmentLoadOp)
    ensures
        op == load_of(action),
{
    match action {
        LoadAction::DontCare => AttachmentLoadOp::DontCare,
        LoadAction::Load => AttachmentLoadOp::Load,
        LoadAction::Clear => AttachmentLoadOp::Clear,
    }
}

/// The store operation an action becomes.
///
/// The two resolving actions differ in exactly one thing — whether the
/// multisample attachment itself is also stored — so the resolve half is not
/// here. It is [`Resolve`], produced beside this.
#[must_use]
pub fn store_op(action: StoreAction) -> (op: AttachmentStoreOp)
    ensures
        op == store_of(action),
{
    match action {
        StoreAction::DontCare | StoreAction::MultisampleResolve => AttachmentStoreOp::DontCare,
        StoreAction::Store | StoreAction::StoreAndMultisampleResolve => AttachmentStoreOp::Store,
    }
}

/// The one subresource an attachment names; a slice and a depth plane at once
/// name none.
pub open spec fn subresource(attachment: Attachment) -> Result<(u32, u32), Refusal> {
    if attachment.slice != 0 && attachment.depth_plane != 0 {
        Err(
            Refusal::SliceAndDepthPlane {
                slot: attachment.slot,
                which: "attachment",
                slice: attachment.slice,
                depth_plane: attachment.depth_plane,
            },
        )
    } else {
        Ok((attachment.attached().base_level, attachment.attached().base_slice))
    }
}

/// Where an attachment resolves to, if its store action resolves.
pub open spec fn resolve(attachment: Attachment) -> Result<Option<Resolve>, Refusal> {
    if !attachment.store.is_resolving() {
        Ok(None)
    } else if attachment.resolve_texture is None {
        Err(Refusal::ResolveWithoutTarget { slot: attachment.slot })
    } else if attachment.resolve_slice != 0 && attachment.resolve_depth_plane != 0 {
        Err(
            Refusal::SliceAndDepthPlane {
                slot: attachment.slot,
                which: "resolve",
                slice: attachment.resolve_slice,
                depth_plane: attachment.resolve_depth_plane,
            },
        )
    } else {
        Ok(
            Some(
                Resolve {
                    texture: attachment.resolve_texture->0,
                    level: attachment.resolved().base_level,
                    slice: attachment.resolved().base_slice,
                },
            ),
        )
    }
}

fn subresource_of(attachment: &Attachment) -> (named: Result<(u32, u32), Refusal>)
    ensures
        named == subresource(*attachment),
{
    if attachment.slice != 0 && attachment.depth_plane != 0 {
        return Err(
            Refusal::SliceAndDepthPlane {
                slot: attachment.slot,
                which: "attachment",
                slice: attachment.slice,
                depth_plane: attachment.depth_plane,
            },
        );
    }
    let range = attachment.subresource();
    Ok((range.base_level, range.base_slice))
}

fn resolve_of(attachment: &Attachment) -> (target: Result<Option<Resolve>, Refusal>)
    ensures
        target == resolve(*attachment),
{
    if !attachment.store.resolves() {
        return Ok(None);
    }
    let texture = match attachment.resolve_texture {
        Some(texture) => texture,
        None => {
            return Err(Refusal::ResolveWithoutTarget { slot: attachment.slot });
        },
    };
    if attachment.resolve_slice != 0 && attachment.resolve_depth_plane != 0 {
        return Err(
            Refusal::SliceAndDepthPlane {
                slot: attachment.slot,
                which: "resolve",
                slice: attachment.resolve_slice,
                depth_plane: attachment.resolve_depth_plane,
            },
        );
    }
    let range = attachment.resolve_subresource();
    Ok(Some(Resolve { texture, level: range.base_level, slice: range.base_slice }))
}

/// Why an extent cannot be rendered to, if it cannot: the two axes are looked
/// at first, then their area, then the layers.
pub open spec fn extent_refusal(extent: RenderTargetExtent) -> Option<Refusal> {
    if extent.width > u32::MAX {
        Some(Refusal::ExtentTooLarge { axis: "width", value: extent.width })
    } else if extent.height > u32::MAX {
        Some(Refusal::ExtentTooLarge { axis: "height", value: extent.height })
    } else if extent.width == 0 || extent.height == 0 {
        Some(Refusal::ZeroExtent { width: extent.width, height: extent.height })
    } else if extent.array_length > u32::MAX {
        Some(Refusal::ExtentTooLarge { axis: "array_length", value: extent.array_length })
    } else {
        None
    }
}

/// The slots that name a texture, in slot order.
pub open spec fn attached(slots: Seq<Attachment>) -> Seq<Attachment>
    decreases slots.len(),
{
    if slots.len() == 0 {
        Seq::empty()
    } else if slots.last().texture is Some {
        attached(slots.drop_last()).push(slots.last())
    } else {
        attached(slots.drop_last())
    }
}

/// Why one colour slot cannot be attached, if it cannot.
pub open spec fn slot_refusal(attachment: Attachment) -> Option<Refusal> {
    if attachment.texture is None {
        None
    } else if subresource(attachment) is Err {
        Some(subresource(attachment)->Err_0)
    } else if resolve(attachment) is Err {
        Some(resolve(attachment)->Err_0)
    } else {
        None
    }
}

/// The refusal of the first colour slot that has one.
pub open spec fn first_refusal(slots: Seq<Attachment>) -> Option<Refusal>
    decreases slots.len(),
{
    if slots.len() == 0 {
        None
    } else {
        match first_refusal(slots.drop_last()) {
            Some(refusal) => Some(refusal),
            None => slot_refusal(slots.last()),
        }
    }
}

/// Whether `plan` is what an attached colour slot becomes. The clear value
/// exists only where the load action clears, and is read the way the format
/// `format_of` answers for the texture says.
pub open spec fn is_color_plan<F: Fn(ResourceId) -> u16>(
    plan: AttachmentPlan,
    attachment: Attachment,
    format_of: F,
) -> bool {
    &&& plan.slot == attachment.slot
    &&& attachment.texture == Some(plan.texture)
    &&& subresource(attachment) == Ok::<(u32, u32), Refusal>((plan.level, plan.slice))
    &&& plan.load == load_of(attachment.load)
    &&& plan.store == store_of(attachment.store)
    &&& resolve(attachment) == Ok::<Option<Resolve>, Refusal>(plan.resolve)
    &&& plan.clear is Some <==> attachment.load is Clear && attachment.slot is Color
    &&& plan.clear is Some ==> exists|format: u16|
        #![trigger class_of(format)]
        format_of.ensures((plan.texture,), format) && plan.clear->0.reads(
            format,
            attachment.clear_bits,
        )
}

/// The field on which two slots of one attachment first disagree, if they do.
/// Both resolve targets are looked at before anything is compared.
pub open spec fn disagreement(depth: Attachment, stencil: Attachment) -> Option<&'static str> {
    if depth.level != stencil.level {
        Some("level")
    } else if depth.slice != stencil.slice {
        Some("slice")
    } else if depth.depth_plane != stencil.depth_plane {
        Some("depth_plane")
    } else if resolve(depth) != resolve(stencil) {
        Some("resolve")
    } else {
        None
    }
}

/// The double a depth slot clears to.
pub open spec fn depth_clear_bits(depth: Attachment) -> u64 {
    if depth.slot is Depth {
        depth.clear_bits[0]
    } else {
        0
    }
}

/// The slot that names the depth-stencil image: depth where it is attached,
/// otherwise stencil.
pub open spec fn carrying(descriptor: PassDescriptor) -> Attachment {
    if descriptor.depth.texture is Some {
        descriptor.depth
    } else {
        descriptor.stencil
    }
}

/// Why the depth and stencil slots are not one attachment, if they are not.
pub open spec fn depth_stencil_refusal(descriptor: PassDescriptor) -> Option<Refusal> {
    let depth = descriptor.depth;
    let stencil = descriptor.stencil;
    let both = depth.texture is Some && stencil.texture is Some;
    if depth.texture is None && stencil.texture is None {
        None
    } else if both && depth.texture != stencil.texture {
        Some(Refusal::SplitDepthStencil { depth: depth.texture->0, stencil: stencil.texture->0 })
    } else if both && resolve(depth) is Err {
        Some(resolve(depth)->Err_0)
    } else if both && resolve(stencil) is Err {
        Some(resolve(stencil)->Err_0)
    } else if both && disagreement(depth, stencil) is Some {
        Some(Refusal::DepthStencilDisagree { field: disagreement(depth, stencil)->0 })
    } else if depth.load is Clear && !single_is_finite(narrowed(depth_clear_bits(depth)) as u32) {
        Some(Refusal::NonFiniteDepthClear { value: depth_clear_bits(depth) })
    } else if subresource(carrying(descriptor)) is Err {
        Some(subresource(carrying(descriptor))->Err_0)
    } else if resolve(carrying(descriptor)) is Err {
        Some(resolve(carrying(descriptor))->Err_0)
    } else {
        None
    }
}

/// The operations of an attached aspect.
pub open spec fn ops(attachment: Attachment) -> Option<Ops> {
    if attachment.texture is Some {
        Some(Ops { load: load_of(attachment.load), store: store_of(attachment.store) })
    } else {
        None
    }
}

/// What the depth and stencil slots become together.
pub open spec fn depth_stencil(descriptor: PassDescriptor) -> Option<DepthStencilPlan> {
    let depth = descriptor.depth;
    let stencil = descriptor.stencil;
    let carrier = carrying(descriptor);
    if carrier.texture is None {
        None
    } else {
        Some(
            DepthStencilPlan {
                texture: carrier.texture->0,
                level: carrier.attached().base_level,
                slice: carrier.attached().base_slice,
                depth: ops(depth),
                stencil: ops(stencil),
                clear_depth: if depth.load is Clear {
                    narrowed(depth_clear_bits(depth)) as u32
                } else {
                    0
                },
                clear_stencil: if stencil.load is Clear && stencil.slot is Stencil {
                    (stencil.clear_bits[0] % 0x1_0000_0000) as u32
                } else {
                    0
                },
                resolve: resolve(carrier)->Ok_0,
            },
        )
    }
}

/// Why a descriptor cannot be planned, if it cannot: the extent, the colour
/// slots in order, the depth and stencil slots, and then whether anything is
/// attached at all.
pub open spec fn refusal(descriptor: PassDescriptor) -> Option<Refusal> {
    if extent_refusal(descriptor.extent) is Some {
        extent_refusal(descriptor.extent)
    } else if first_refusal(descriptor.color@) is Some {
        first_refusal(descriptor.color@)
    } else if depth_stencil_refusal(descriptor) is Some {
        depth_stencil_refusal(descriptor)
    } else if attached(descriptor.color@).len() == 0 && depth_stencil(descriptor) is None {
        Some(Refusal::NoAttachments)
    } else {
        None
    }
}

/// Whether `plan` is what a descriptor becomes.
pub open spec fn is_plan<F: Fn(ResourceId) -> u16>(
    plan: PassPlan,
    descriptor: PassDescriptor,
    format_of: F,
) -> bool {
    let slots = attached(descriptor.color@);
    &&& plan.color@.len() == slots.len()
    &&& forall|i: int|
        0 <= i < slots.len() ==> is_color_plan(#[trigger] plan.color@[i], slots[i], format_of)
    &&& plan.depth_stencil == depth_stencil(descriptor)
    &&& plan.extent.width == descriptor.extent.width
    &&& plan.extent.height == descriptor.extent.height
    &&& plan.layers == if descriptor.extent.array_length == 0 {
        1
    } else {
        descriptor.extent.array_length
    }
}

/// Whether the format of a colour slot's texture is asked for: the slot is
/// attached and clears, and neither the extent nor an earlier slot refused.
pub open spec fn asks_format(descriptor: PassDescriptor, slot: int) -> bool {
    &&& 0 <= slot < descriptor.color@.len()
    &&& descriptor.color@[slot].texture is Some
    &&& descriptor.color@[slot].load is Clear
    &&& descriptor.color@[slot].slot is Color
    &&& extent_refusal(descriptor.extent) is None
    &&& first_refusal(descriptor.color@.take(slot)) is None
}

/// Translate a resolved pass descriptor.
///
/// `format_of` answers the guest pixel format of an attached texture, which is
/// what decides a clear colour's member. It is asked only of textures whose
/// slot clears, and not after a refusal. That it is asked once for each slot is
/// not stated.
///
/// Refuses with nothing partially translated.
pub fn plan<F: Fn(ResourceId) -> u16>(descriptor: &PassDescriptor, format_of: F) -> (planned:
    Result<PassPlan, Refusal>)
    requires
        forall|slot: int| #[trigger]
            asks_format(*descriptor, slot) ==> format_of.requires(
                (descriptor.color@[slot].texture->0,),
            ),
    ensures
        match refusal(*descriptor) {
            Some(refused) => planned == Err::<PassPlan, Refusal>(refused),
            None => planned is Ok && is_plan(planned->Ok_0, *descriptor, format_of),
        },
{
    if descriptor.extent.width > u32::MAX as u64 {
        return Err(Refusal::ExtentTooLarge { axis: "width", value: descriptor.extent.width });
    }
    if descriptor.extent.height > u32::MAX as u64 {
        return Err(Refusal::ExtentTooLarge { axis: "height", value: descriptor.extent.height });
    }
    let width: u32 = descriptor.extent.width as u32;
    let height: u32 = descriptor.extent.height as u32;
    if width == 0 || height == 0 {
        return Err(
            Refusal::ZeroExtent {
                width: descriptor.extent.width,
                height: descriptor.extent.height,
            },
        );
    }
    if descriptor.extent.array_length > u32::MAX as u64 {
        return Err(
            Refusal::ExtentTooLarge {
                axis: "array_length",
                value: descriptor.extent.array_length,
            },
        );
    }
    let layers: u32 = if descriptor.extent.array_length == 0 {
        1
    } else {
        descriptor.extent.array_length as u32
    };

    let ghost slots = descriptor.color@;
    let mut color: Vec<AttachmentPlan> = Vec::new();
    let mut index: usize = 0;
    assert(slots.take(0) =~= Seq::empty());
    while index < 8
        invariant
            index <= 8,
            slots == descriptor.color@,
            slots.len() == 8,
            forall|slot: int| #[trigger]
                asks_format(*descriptor, slot) ==> format_of.requires(
                    (descriptor.color@[slot].texture->0,),
                ),
            first_refusal(slots.take(index as int)) is None,
            color@.len() == attached(slots.take(index as int)).len(),
            forall|i: int|
                0 <= i < color@.len() ==> is_color_plan(
                    #[trigger] color@[i],
                    attached(slots.take(index as int))[i],
                    format_of,
                ),
            extent_refusal(descriptor.extent) is None,
        decreases 8 - index,
    {
        let attachment = descriptor.color[index];
        proof {
            assert(attachment == slots[index as int]);
            assert(slots.take(index + 1).drop_last() =~= slots.take(index as int));
            assert(slots.take(index + 1).last() == attachment);
            if first_refusal(slots.take(index + 1)) is Some {
                lemma_first_refusal(slots, index + 1);
            }
        }
        if let Some(texture) = attachment.texture {
            let clear: Option<ClearColor> = if attachment.load == LoadAction::Clear {
                match attachment.clear_color() {
                    Some(components) => {
                        assert(asks_format(*descriptor, index as int));
                        let format: u16 = format_of(texture);
                        let color = ClearColor::of(format, components);
                        assert(class_of(format) == class_of(format));
                        Some(color)
                    },
                    None => None,
                }
            } else {
                None
            };
            let (level, slice): (u32, u32) = match subresource_of(&attachment) {
                Ok(named) => named,
                Err(refused) => {
                    return Err(refused);
                },
            };
            let resolve = match resolve_of(&attachment) {
                Ok(target) => target,
                Err(refused) => {
                    return Err(refused);
                },
            };
            let planned = AttachmentPlan {
                slot: attachment.slot,
                texture,
                level,
                slice,
                load: load_op(attachment.load),
                store: store_op(attachment.store),
                clear,
                resolve,
            };
            assert(is_color_plan(planned, attachment, format_of));
            color.push(planned);
        }
        index += 1;
    }
    assert(slots.take(8) =~= slots);

    let depth_stencil = match depth_stencil_of(descriptor) {
        Ok(planned) => planned,
        Err(refused) => {
            return Err(refused);
        },
    };
    if color.len() == 0 && depth_stencil.is_none() {
        return Err(Refusal::NoAttachments);
    }
    Ok(PassPlan { color, depth_stencil, extent: Extent2D { width, height }, layers })
}

/// A refusal among the first slots is the refusal of all of them.
proof fn lemma_first_refusal(slots: Seq<Attachment>, taken: int)
    requires
        0 <= taken <= slots.len(),
        first_refusal(slots.take(taken)) is Some,
    ensures
        first_refusal(slots) == first_refusal(slots.take(taken)),
    decreases slots.len() - taken,
{
    if taken < slots.len() {
        assert(slots.take(taken + 1).drop_last() =~= slots.take(taken));
        lemma_first_refusal(slots, taken + 1);
    } else {
        assert(slots.take(taken) =~= slots);
    }
}

/// What the depth and stencil slots become together.
///
/// Whichever slot is attached names the image; when both are, they must agree
/// about which part of it they mean and about where it resolves, because there
/// is one place here to record either. A clear value is read only where the
/// load action clears.
fn depth_stencil_of(descriptor: &PassDescriptor) -> (planned: Result<
    Option<DepthStencilPlan>,
    Refusal,
>)
    ensures
        match depth_stencil_refusal(*descriptor) {
            Some(refused) => planned == Err::<Option<DepthStencilPlan>, Refusal>(refused),
            None => planned == Ok::<Option<DepthStencilPlan>, Refusal>(depth_stencil(*descriptor)),
        },
{
    let depth = descriptor.depth.texture;
    let stencil = descriptor.stencil.texture;
    let texture = match (depth, stencil) {
        (None, None) => {
            return Ok(None);
        },
        (Some(depth), Some(stencil)) => {
            if depth != stencil {
                return Err(Refusal::SplitDepthStencil { depth, stencil });
            }
            depth
        },
        (Some(texture), None) => texture,
        (None, Some(texture)) => texture,
    };
    let carrier = if depth.is_some() {
        descriptor.depth
    } else {
        descriptor.stencil
    };
    if depth.is_some() && stencil.is_some() {
        let from_depth = match resolve_of(&descriptor.depth) {
            Ok(target) => target,
            Err(refused) => {
                return Err(refused);
            },
        };
        let from_stencil = match resolve_of(&descriptor.stencil) {
            Ok(target) => target,
            Err(refused) => {
                return Err(refused);
            },
        };
        if descriptor.depth.level != descriptor.stencil.level {
            return Err(Refusal::DepthStencilDisagree { field: "level" });
        }
        if descriptor.depth.slice != descriptor.stencil.slice {
            return Err(Refusal::DepthStencilDisagree { field: "slice" });
        }
        if descriptor.depth.depth_plane != descriptor.stencil.depth_plane {
            return Err(Refusal::DepthStencilDisagree { field: "depth_plane" });
        }
        if from_depth != from_stencil {
            return Err(Refusal::DepthStencilDisagree { field: "resolve" });
        }
    }
    let clear_depth: u32 = if descriptor.depth.load == LoadAction::Clear {
        let value: u64 = match descriptor.depth.clear_depth() {
            Some(bits) => bits,
            None => 0,
        };
        let single: u32 = narrow(value);
        if !is_finite_single(single) {
            return Err(Refusal::NonFiniteDepthClear { value });
        }
        single
    } else {
        0
    };
    let clear_stencil: u32 = if descriptor.stencil.load == LoadAction::Clear {
        match descriptor.stencil.clear_stencil() {
            Some(word) => word,
            None => 0,
        }
    } else {
        0
    };
    let (level, slice): (u32, u32) = match subresource_of(&carrier) {
        Ok(named) => named,
        Err(refused) => {
            return Err(refused);
        },
    };
    let resolve = match resolve_of(&carrier) {
        Ok(target) => target,
        Err(refused) => {
            return Err(refused);
        },
    };
    Ok(
        Some(
            DepthStencilPlan {
                texture,
                level,
                slice,
                depth: if depth.is_some() {
                    Some(
                        Ops {
                            load: load_op(descriptor.depth.load),
                            store: store_op(descriptor.depth.store),
                        },
                    )
                } else {
                    None
                },
                stencil: if stencil.is_some() {
                    Some(
                        Ops {
                            load: load_op(descriptor.stencil.load),
                            store: store_op(descriptor.stencil.store),
                        },
                    )
                } else {
                    None
                },
                clear_depth,
                clear_stencil,
                resolve,
            },
        ),
    )
}

/// A planned attachment carries a clear value only where it clears, and
/// resolves exactly where its store action does, to the texture it named.
pub proof fn law_a_clear_and_a_resolve_exist_only_where_asked<F: Fn(ResourceId) -> u16>(
    plan: AttachmentPlan,
    attachment: Attachment,
    format_of: F,
)
    requires
        is_color_plan(plan, attachment, format_of),
    ensures
        plan.clear is Some ==> plan.load is Clear,
        plan.resolve is Some <==> attachment.store.is_resolving(),
        plan.resolve matches Some(target) ==> attachment.resolve_texture == Some(target.texture),
{
}

/// The attached slots keep their order: of two that are attached, the one with
/// the lower slot comes first.
pub proof fn law_renumbering_keeps_slot_order(slots: Seq<Attachment>, low: int, high: int)
    requires
        0 <= low < high < slots.len(),
        slots[low].texture is Some,
        slots[high].texture is Some,
    ensures
        ({
            let first = attached(slots.take(low)).len() as int;
            let second = attached(slots.take(high)).len() as int;
            &&& 0 <= first < second < attached(slots).len()
            &&& attached(slots)[first] == slots[low]
            &&& attached(slots)[second] == slots[high]
        }),
{
    lemma_position(slots, low);
    lemma_position(slots, high);
    lemma_position(slots.take(high), low);
    assert(slots.take(high).take(low) =~= slots.take(low));
}

/// An attached slot stands after all the attached slots before it.
proof fn lemma_position(slots: Seq<Attachment>, at: int)
    requires
        0 <= at < slots.len(),
        slots[at].texture is Some,
    ensures
        attached(slots.take(at)).len() < attached(slots).len(),
        attached(slots)[attached(slots.take(at)).len() as int] == slots[at],
    decreases slots.len(),
{
    if at == slots.len() - 1 {
        assert(slots.take(at) =~= slots.drop_last());
    } else {
        lemma_position(slots.drop_last(), at);
        assert(slots.drop_last().take(at) =~= slots.take(at));
    }
}

/// A pass that plans both aspects of one image describes both slots: the level,
/// the slice and the resolve it records are the stencil slot's as much as the
/// depth slot's.
pub proof fn law_both_aspects_are_recorded(descriptor: PassDescriptor)
    requires
        depth_stencil_refusal(descriptor) is None,
        descriptor.depth.texture is Some,
        descriptor.stencil.texture is Some,
    ensures
        ({
            let planned = depth_stencil(descriptor)->0;
            &&& Some(planned.texture) == descriptor.stencil.texture
            &&& Some(planned.texture) == descriptor.depth.texture
            &&& subresource(descriptor.stencil) == Ok::<(u32, u32), Refusal>(
                (planned.level, planned.slice),
            )
            &&& subresource(descriptor.depth) == Ok::<(u32, u32), Refusal>(
                (planned.level, planned.slice),
            )
            &&& resolve(descriptor.stencil) == Ok::<Option<Resolve>, Refusal>(planned.resolve)
            &&& resolve(descriptor.depth) == Ok::<Option<Resolve>, Refusal>(planned.resolve)
            &&& planned.depth is Some && planned.stencil is Some
        }),
{
}

/// A depth slot that does not clear is never refused for the clear value it
/// still carries, and the pass carries none for it.
pub proof fn law_a_slot_that_does_not_clear_carries_no_clear(descriptor: PassDescriptor)
    requires
        !(descriptor.depth.load is Clear),
        !(descriptor.stencil.load is Clear),
    ensures
        !(depth_stencil_refusal(descriptor) matches Some(Refusal::NonFiniteDepthClear { .. })),
        depth_stencil(descriptor) matches Some(planned) ==> planned.clear_depth == 0
            && planned.clear_stencil == 0,
{
}

/// No two refusals share a slug, and what a refusal says starts with its slug.
pub proof fn law_every_refusal_names_itself(a: Refusal, b: Refusal)
    ensures
        a.slug_text() == b.slug_text() ==> {
            &&& a is NoAttachments <==> b is NoAttachments
            &&& a is SplitDepthStencil <==> b is SplitDepthStencil
            &&& a is ResolveWithoutTarget <==> b is ResolveWithoutTarget
            &&& a is DepthStencilDisagree <==> b is DepthStencilDisagree
            &&& a is NonFiniteDepthClear <==> b is NonFiniteDepthClear
            &&& a is ExtentTooLarge <==> b is ExtentTooLarge
            &&& a is ZeroExtent <==> b is ZeroExtent
            &&& a is SliceAndDepthPlane <==> b is SliceAndDepthPlane
        },
        a.slug_text().is_prefix_of(a.message_text()),
{
    reveal_strlit("vk_pass_no_attachments");
    reveal_strlit("vk_pass_split_depth_stencil");
    reveal_strlit("vk_pass_resolve_without_target");
    reveal_strlit("vk_pass_depth_stencil_disagree");
    reveal_strlit("vk_pass_non_finite_depth_clear");
    reveal_strlit("vk_pass_extent_too_large");
    reveal_strlit("vk_pass_zero_extent");
    reveal_strlit("vk_pass_slice_and_depth_plane");
    assert("vk_pass_resolve_without_target"@[8] != "vk_pass_depth_stencil_disagree"@[8]);
    assert("vk_pass_resolve_without_target"@[8] != "vk_pass_non_finite_depth_clear"@[8]);
    assert("vk_pass_depth_stencil_disagree"@[8] != "vk_pass_non_finite_depth_clear"@[8]);
    assert(a.slug_text() =~= a.message_text().take(a.slug_text().len() as int));
}

/// The low word of a double's pattern.
pub open spec fn low_word(bits: u64) -> int {
    bits as int % 0x1_0000_0000
}

/// What a plan says of depth and stencil is what the descriptor's two slots say.
/// An attached slot that clears is cleared to its own value, whatever the other
/// slot does: the narrowing of a depth slot's double, the low word of a stencil
/// slot's pattern. Each attached aspect has its own slot's operations and an
/// unattached one has none. The image, the level, the slice and the resolve
/// target are those of an attached slot, and of both where both are.
pub proof fn law_depth_and_stencil_are_what_their_slots_say<F: Fn(ResourceId) -> u16>(
    descriptor: PassDescriptor,
    format_of: F,
    made: PassPlan,
)
    requires
        descriptor.depth.slot is Depth,
        descriptor.stencil.slot is Stencil,
        call_ensures(plan::<F>, (&descriptor, format_of), Ok::<PassPlan, Refusal>(made)),
    ensures
        ({
            let depth = descriptor.depth;
            let stencil = descriptor.stencil;
            &&& made.depth_stencil is Some <==> depth.texture is Some || stencil.texture is Some
            &&& made.depth_stencil matches Some(planned) ==> {
                &&& depth.texture is Some && depth.load is Clear ==> planned.clear_depth == narrowed(
                    depth.clear_bits[0],
                ) as u32 && single_is_finite(planned.clear_depth)
                &&& stencil.texture is Some && stencil.load is Clear ==> planned.clear_stencil
                    == low_word(stencil.clear_bits[0])
                &&& !(depth.load is Clear) ==> planned.clear_depth == 0
                &&& !(stencil.load is Clear) ==> planned.clear_stencil == 0
                &&& planned.depth is Some <==> depth.texture is Some
                &&& planned.stencil is Some <==> stencil.texture is Some
                &&& planned.depth matches Some(ops) ==> loads_as(ops.load, depth.load) && stores_as(
                    ops.store,
                    depth.store,
                )
                &&& planned.stencil matches Some(ops) ==> loads_as(ops.load, stencil.load)
                    && stores_as(ops.store, stencil.store)
                &&& depth.texture is Some ==> is_planned_where(
                    depth,
                    planned.texture,
                    planned.level,
                    planned.slice,
                    planned.resolve,
                )
                &&& stencil.texture is Some ==> is_planned_where(
                    stencil,
                    planned.texture,
                    planned.level,
                    planned.slice,
                    planned.resolve,
                )
            }
        }),
{
    if descriptor.depth.texture is Some && descriptor.stencil.texture is Some {
        law_both_aspects_are_recorded(descriptor);
    }
}

/// Whether an operation begins an attachment as the guest's action does: only a
/// load keeps what was there, and only a clear sets it.
pub open spec fn loads_as(op: AttachmentLoadOp, action: LoadAction) -> bool {
    (op is Load <==> action is Load) && (op is Clear <==> action is Clear)
}

/// Whether an operation ends an attachment as the guest's action does: what was
/// drawn is kept where the action stores, whether or not it also resolves.
pub open spec fn stores_as(op: AttachmentStoreOp, action: StoreAction) -> bool {
    op is Store <==> action is Store || action is StoreAndMultisampleResolve
}

/// Whether a plan names the texture, the level and the slice a slot names, and
/// resolves where the slot's action does, into the target, level and slice it
/// names. A depth plane is a slice of a volume, and no slot names both.
pub open spec fn is_planned_where(
    slot: Attachment,
    texture: ResourceId,
    level: u32,
    slice: u32,
    target: Option<Resolve>,
) -> bool {
    &&& slot.texture == Some(texture)
    &&& level == slot.level
    &&& slot.slice == 0 || slot.depth_plane == 0
    &&& slot.depth_plane == 0 ==> slice == slot.slice
    &&& slot.slice == 0 ==> slice == slot.depth_plane
    &&& target is Some <==> slot.store is MultisampleResolve
        || slot.store is StoreAndMultisampleResolve
    &&& target matches Some(resolve) ==> {
        &&& slot.resolve_texture == Some(resolve.texture)
        &&& resolve.level == slot.resolve_level
        &&& slot.resolve_slice == 0 || slot.resolve_depth_plane == 0
        &&& slot.resolve_depth_plane == 0 ==> resolve.slice == slot.resolve_slice
        &&& slot.resolve_slice == 0 ==> resolve.slice == slot.resolve_depth_plane
    }
}

/// Whether a clear colour is what a slot's four doubles are in a format: each
/// component narrowed, or converted to a signed or unsigned integer, in order.
pub open spec fn clears_to(color: ClearColor, format: u16, components: [u64; 4]) -> bool {
    match color {
        ClearColor::Float(values) => class_of(format) is Float && values[0] == narrowed(
            components[0],
        ) && values[1] == narrowed(components[1]) && values[2] == narrowed(components[2])
            && values[3] == narrowed(components[3]),
        ClearColor::Uint(values) => class_of(format) is Uint && values[0] == saturated_u32(
            components[0],
        ) && values[1] == saturated_u32(components[1]) && values[2] == saturated_u32(components[2])
            && values[3] == saturated_u32(components[3]),
        ClearColor::Sint(values) => class_of(format) is Sint && values[0] == saturated_i32(
            components[0],
        ) && values[1] == saturated_i32(components[1]) && values[2] == saturated_i32(components[2])
            && values[3] == saturated_i32(components[3]),
    }
}

/// A clear colour reads a format's member, component by component, and its
/// words are its own components in order, a signed one modulo the word.
pub proof fn law_a_clear_colour_keeps_its_components(
    format: u16,
    components: [u64; 4],
    color: ClearColor,
    words: [u32; 4],
    i: int,
)
    requires
        call_ensures(ClearColor::of, (format, components), color),
        call_ensures(ClearColor::native, (color,), words),
        0 <= i < 4,
    ensures
        clears_to(color, format, components),
        color matches ClearColor::Float(values) ==> words[i] == values[i],
        color matches ClearColor::Uint(values) ==> words[i] == values[i],
        color matches ClearColor::Sint(values) ==> words[i] == values[i] as int % 0x1_0000_0000,
{
    assert(words@[i] == color.words()[i]);
}

/// Each colour attachment of a plan is what its slot says. The attached slots
/// are there in order and no other, each with its own texture, level, slice,
/// operations and resolve target; one is cleared exactly where its slot clears,
/// to its slot's own four doubles in the format of its texture. The pass is as
/// large as the descriptor's extent, with at least one layer.
pub proof fn law_a_colour_attachment_is_what_its_slot_says<F: Fn(ResourceId) -> u16>(
    descriptor: PassDescriptor,
    format_of: F,
    made: PassPlan,
    slot: int,
)
    requires
        call_ensures(plan::<F>, (&descriptor, format_of), Ok::<PassPlan, Refusal>(made)),
        0 <= slot < descriptor.color@.len(),
        descriptor.color@[slot].texture is Some,
    ensures
        ({
            let named = descriptor.color@[slot];
            let at = attached_before(descriptor.color@, slot) as int;
            let planned = made.color@[at];
            &&& at < made.color@.len()
            &&& planned.slot == named.slot
            &&& is_planned_where(
                named,
                planned.texture,
                planned.level,
                planned.slice,
                planned.resolve,
            )
            &&& loads_as(planned.load, named.load)
            &&& stores_as(planned.store, named.store)
            &&& planned.clear is Some <==> named.load is Clear && named.slot is Color
            &&& planned.clear matches Some(color) ==> exists|format: u16| #[trigger]
                format_of.ensures((planned.texture,), format) && clears_to(
                    color,
                    format,
                    named.clear_bits,
                )
        }),
        made.color@.len() == attached_before(
            descriptor.color@,
            descriptor.color@.len() as int,
        ),
        made.extent.width == descriptor.extent.width,
        made.extent.height == descriptor.extent.height,
        made.extent.width > 0,
        made.extent.height > 0,
        made.layers == if descriptor.extent.array_length > 1 {
            descriptor.extent.array_length as int
        } else {
            1int
        },
{
    let slots = descriptor.color@;
    let at = attached_before(slots, slot) as int;
    lemma_attached_before(slots, slot);
    lemma_attached_before(slots, slots.len() as int);
    assert(slots.take(slots.len() as int) =~= slots);
    lemma_position(slots, slot);
    lemma_no_refusal(slots, slot);
    let planned = made.color@[at];
    assert(is_color_plan(planned, slots[slot], format_of));
    if let Some(color) = planned.clear {
        let format = choose|format: u16|
            #![trigger class_of(format)]
            format_of.ensures((planned.texture,), format) && color.reads(
                format,
                slots[slot].clear_bits,
            );
        assert(format_of.ensures((planned.texture,), format));
        assert(clears_to(color, format, slots[slot].clear_bits));
    }
}

/// How many of the slots before one are attached.
pub open spec fn attached_before(slots: Seq<Attachment>, slot: int) -> nat
    decreases slot,
{
    if slot <= 0 {
        0
    } else {
        attached_before(slots, slot - 1) + if slots[slot - 1].texture is Some {
            1nat
        } else {
            0nat
        }
    }
}

proof fn lemma_attached_before(slots: Seq<Attachment>, slot: int)
    requires
        0 <= slot <= slots.len(),
    ensures
        attached(slots.take(slot)).len() == attached_before(slots, slot),
    decreases slot,
{
    if slot > 0 {
        lemma_attached_before(slots, slot - 1);
        assert(slots.take(slot).drop_last() =~= slots.take(slot - 1));
    }
}

/// Where no slot refuses, no one slot does.
proof fn lemma_no_refusal(slots: Seq<Attachment>, slot: int)
    requires
        first_refusal(slots) is None,
        0 <= slot < slots.len(),
    ensures
        slot_refusal(slots[slot]) is None,
    decreases slots.len(),
{
    if slot < slots.len() - 1 {
        lemma_no_refusal(slots.drop_last(), slot);
    }
}

/// Whether a slot names a part of its texture that there is, and a target where
/// it resolves.
pub open spec fn is_nameable(slot: Attachment) -> bool {
    slot.texture is Some ==> {
        &&& slot.slice == 0 || slot.depth_plane == 0
        &&& slot.store is MultisampleResolve || slot.store is StoreAndMultisampleResolve ==> {
            &&& slot.resolve_texture is Some
            &&& slot.resolve_slice == 0 || slot.resolve_depth_plane == 0
        }
    }
}

/// Whether two slots that share an image resolve alike: neither does, or both
/// do into the same level and slice of the same texture.
pub open spec fn resolves_alike(a: Attachment, b: Attachment) -> bool {
    let resolving = |slot: Attachment|
        slot.store is MultisampleResolve || slot.store is StoreAndMultisampleResolve;
    &&& resolving(a) == resolving(b)
    &&& resolving(a) ==> {
        &&& a.resolve_texture == b.resolve_texture
        &&& a.resolve_level == b.resolve_level
        &&& a.resolve_slice + a.resolve_depth_plane == b.resolve_slice + b.resolve_depth_plane
    }
}

/// A pass is planned exactly where its extent is there and fits its fields,
/// some slot is attached, every attached slot can be named, a depth slot that
/// clears clears to a value a depth buffer holds, and depth and stencil attached
/// together are one image, one part of it and one resolve target.
pub proof fn law_a_pass_is_planned_wherever_it_can_be<F: Fn(ResourceId) -> u16>(
    descriptor: PassDescriptor,
    format_of: F,
    answer: Result<PassPlan, Refusal>,
)
    requires
        descriptor.depth.slot is Depth,
        call_ensures(plan::<F>, (&descriptor, format_of), answer),
    ensures
        ({
            let depth = descriptor.depth;
            let stencil = descriptor.stencil;
            let engaged = depth.texture is Some || stencil.texture is Some;
            answer is Ok <==> {
                &&& 0 < descriptor.extent.width <= u32::MAX
                &&& 0 < descriptor.extent.height <= u32::MAX
                &&& descriptor.extent.array_length <= u32::MAX
                &&& engaged || exists|i: int|
                    0 <= i < descriptor.color@.len()
                        && (#[trigger] descriptor.color@[i]).texture is Some
                &&& forall|i: int|
                    0 <= i < descriptor.color@.len() ==> is_nameable(
                        #[trigger] descriptor.color@[i],
                    )
                &&& is_nameable(depth)
                &&& is_nameable(stencil)
                &&& engaged && depth.load is Clear ==> single_is_finite(
                    narrowed(depth.clear_bits[0]) as u32,
                )
                &&& depth.texture is Some && stencil.texture is Some ==> {
                    &&& depth.texture == stencil.texture
                    &&& depth.level == stencil.level
                    &&& depth.slice == stencil.slice
                    &&& depth.depth_plane == stencil.depth_plane
                    &&& resolves_alike(depth, stencil)
                }
            }
        }),
{
    let slots = descriptor.color@;
    if first_refusal(slots) is None {
        assert forall|i: int| 0 <= i < slots.len() implies is_nameable(#[trigger] slots[i]) by {
            lemma_no_refusal(slots, i);
        }
    } else {
        lemma_some_refusal(slots);
        let i = choose|i: int| 0 <= i < slots.len() && slot_refusal(#[trigger] slots[i]) is Some;
        assert(!is_nameable(slots[i]));
    }
    lemma_some_attached(slots);
}

proof fn lemma_some_refusal(slots: Seq<Attachment>)
    requires
        first_refusal(slots) is Some,
    ensures
        exists|i: int| 0 <= i < slots.len() && slot_refusal(#[trigger] slots[i]) is Some,
    decreases slots.len(),
{
    if first_refusal(slots.drop_last()) is Some {
        lemma_some_refusal(slots.drop_last());
        let i = choose|i: int|
            0 <= i < slots.drop_last().len() && slot_refusal(
                #[trigger] slots.drop_last()[i],
            ) is Some;
        assert(slots[i] == slots.drop_last()[i]);
    } else {
        assert(slot_refusal(slots[slots.len() - 1]) is Some);
    }
}

proof fn lemma_some_attached(slots: Seq<Attachment>)
    ensures
        attached(slots).len() > 0 <==> exists|i: int|
            0 <= i < slots.len() && (#[trigger] slots[i]).texture is Some,
    decreases slots.len(),
{
    if slots.len() > 0 {
        let earlier = slots.drop_last();
        lemma_some_attached(earlier);
        if attached(earlier).len() > 0 {
            let i = choose|i: int| 0 <= i < earlier.len() && (#[trigger] earlier[i]).texture is Some;
            assert(slots[i].texture is Some);
        }
        if slots.last().texture is Some {
            assert(slots[slots.len() - 1].texture is Some);
        }
        if exists|i: int| 0 <= i < slots.len() && (#[trigger] slots[i]).texture is Some {
            let i = choose|i: int| 0 <= i < slots.len() && (#[trigger] slots[i]).texture is Some;
            if i < slots.len() - 1 {
                assert(earlier[i].texture is Some);
            }
        }
    }
}

/// A refusal carries what it is about: the extent at fault, the two images
/// depth and stencil name, the field they differ on, the double a depth slot
/// clears to, or the slot that cannot be named and its numbers.
pub proof fn law_a_refused_pass_says_what_is_at_fault<F: Fn(ResourceId) -> u16>(
    descriptor: PassDescriptor,
    format_of: F,
    refused: Refusal,
)
    requires
        descriptor.depth.slot is Depth,
        call_ensures(plan::<F>, (&descriptor, format_of), Err::<PassPlan, Refusal>(refused)),
    ensures
        ({
            let extent = descriptor.extent;
            let depth = descriptor.depth;
            let stencil = descriptor.stencil;
            match refused {
                Refusal::NoAttachments => depth.texture is None && stencil.texture is None,
                Refusal::SplitDepthStencil { depth: a, stencil: b } => depth.texture == Some(a)
                    && stencil.texture == Some(b) && a != b,
                Refusal::DepthStencilDisagree { field } => depth.texture == stencil.texture && {
                    ||| field@ == "level"@ && depth.level != stencil.level
                    ||| field@ == "slice"@ && depth.slice != stencil.slice
                    ||| field@ == "depth_plane"@ && depth.depth_plane != stencil.depth_plane
                    ||| field@ == "resolve"@ && !resolves_alike(depth, stencil)
                },
                Refusal::NonFiniteDepthClear { value } => depth.load is Clear && value
                    == depth.clear_bits[0] && !single_is_finite(narrowed(value) as u32),
                Refusal::ExtentTooLarge { axis, value } => value > u32::MAX && {
                    ||| axis@ == "width"@ && value == extent.width
                    ||| axis@ == "height"@ && value == extent.height
                    ||| axis@ == "array_length"@ && value == extent.array_length
                },
                Refusal::ZeroExtent { width, height } => width == extent.width && height
                    == extent.height && (width == 0 || height == 0),
                Refusal::ResolveWithoutTarget { slot } => exists|at: Attachment| #[trigger]
                    is_slot_of(descriptor, at) && at.slot == slot && at.texture is Some
                        && at.store.is_resolving() && at.resolve_texture is None,
                Refusal::SliceAndDepthPlane { slot, which, slice, depth_plane } => slice != 0
                    && depth_plane != 0 && exists|at: Attachment| #[trigger]
                    is_slot_of(descriptor, at) && at.slot == slot && at.texture is Some && {
                        ||| which@ == "attachment"@ && slice == at.slice && depth_plane
                            == at.depth_plane
                        ||| which@ == "resolve"@ && slice == at.resolve_slice && depth_plane
                            == at.resolve_depth_plane
                    },
            }
        }),
{
    let slots = descriptor.color@;
    assert(is_slot_of(descriptor, descriptor.depth));
    assert(is_slot_of(descriptor, descriptor.stencil));
    if first_refusal(slots) == Some(refused) {
        lemma_which_refusal(slots, refused);
        let i = choose|i: int|
            0 <= i < slots.len() && slot_refusal(#[trigger] slots[i]) == Some(refused);
        assert(is_slot_of(descriptor, slots[i]));
    }
}

/// Whether an attachment is one of a descriptor's slots.
pub open spec fn is_slot_of(descriptor: PassDescriptor, slot: Attachment) -> bool {
    descriptor.color@.contains(slot) || slot == descriptor.depth || slot == descriptor.stencil
}

proof fn lemma_which_refusal(slots: Seq<Attachment>, refused: Refusal)
    requires
        first_refusal(slots) == Some(refused),
    ensures
        exists|i: int| 0 <= i < slots.len() && slot_refusal(#[trigger] slots[i]) == Some(refused),
    decreases slots.len(),
{
    let earlier = slots.drop_last();
    if first_refusal(earlier) is Some {
        lemma_which_refusal(earlier, refused);
        let i = choose|i: int|
            0 <= i < earlier.len() && slot_refusal(#[trigger] earlier[i]) == Some(refused);
        assert(slots[i] == earlier[i]);
    } else {
        assert(slot_refusal(slots[slots.len() - 1]) == Some(refused));
    }
}

/// The outermost fault of a pass is the one it is refused for: its extent, then
/// the first colour slot that cannot be named, then depth and stencil, and only
/// then that nothing is attached. Within depth and stencil, that they are two
/// images comes first, then a resolve with no target, then the field they differ
/// on in order, then the clear value.
pub proof fn law_the_outermost_fault_is_named<F: Fn(ResourceId) -> u16>(
    descriptor: PassDescriptor,
    format_of: F,
    answer: Result<PassPlan, Refusal>,
    slot: int,
)
    requires
        descriptor.depth.slot is Depth,
        call_ensures(plan::<F>, (&descriptor, format_of), answer),
        0 <= slot < descriptor.color@.len(),
    ensures
        ({
            let extent = descriptor.extent;
            let depth = descriptor.depth;
            let stencil = descriptor.stencil;
            let sized = 0 < extent.width <= u32::MAX && 0 < extent.height <= u32::MAX
                && extent.array_length <= u32::MAX;
            let named = forall|i: int|
                0 <= i < descriptor.color@.len() ==> is_nameable(#[trigger] descriptor.color@[i]);
            let both = depth.texture is Some && stencil.texture is Some;
            let one = both && depth.texture == stencil.texture;
            let targets = is_resolvable(depth) && is_resolvable(stencil);
            let same = depth.level == stencil.level && depth.slice == stencil.slice
                && depth.depth_plane == stencil.depth_plane;
            &&& extent.width > u32::MAX ==> answer == Err::<PassPlan, Refusal>(
                Refusal::ExtentTooLarge { axis: "width", value: extent.width },
            )
            &&& extent.width <= u32::MAX && extent.height > u32::MAX ==> answer == Err::<
                PassPlan,
                Refusal,
            >(Refusal::ExtentTooLarge { axis: "height", value: extent.height })
            &&& extent.width <= u32::MAX && extent.height <= u32::MAX && (extent.width == 0
                || extent.height == 0) ==> answer == Err::<PassPlan, Refusal>(
                Refusal::ZeroExtent { width: extent.width, height: extent.height },
            )
            &&& sized && !is_nameable(descriptor.color@[slot]) && (forall|i: int|
                0 <= i < slot ==> is_nameable(#[trigger] descriptor.color@[i])) ==> answer is Err
                && (answer->Err_0 is SliceAndDepthPlane || answer->Err_0 is ResolveWithoutTarget)
                && slot_at_fault(answer->Err_0) == Some(descriptor.color@[slot].slot)
            &&& sized && named && both && !one ==> answer == Err::<PassPlan, Refusal>(
                Refusal::SplitDepthStencil { depth: depth.texture->0, stencil: stencil.texture->0 },
            )
            &&& sized && named && one && targets && depth.level != stencil.level ==> answer == Err::<
                PassPlan,
                Refusal,
            >(Refusal::DepthStencilDisagree { field: "level" })
            &&& sized && named && one && targets && depth.level == stencil.level && depth.slice
                != stencil.slice ==> answer == Err::<PassPlan, Refusal>(
                Refusal::DepthStencilDisagree { field: "slice" },
            )
            &&& sized && named && one && targets && depth.level == stencil.level && depth.slice
                == stencil.slice && depth.depth_plane != stencil.depth_plane ==> answer == Err::<
                PassPlan,
                Refusal,
            >(Refusal::DepthStencilDisagree { field: "depth_plane" })
            &&& sized && named && one && targets && same && !resolves_alike(depth, stencil)
                ==> answer == Err::<PassPlan, Refusal>(
                Refusal::DepthStencilDisagree { field: "resolve" },
            )
            &&& sized && named && depth.texture is None && stencil.texture is None ==> (
            answer is Err ==> answer->Err_0 is NoAttachments)
        }),
{
    let slots = descriptor.color@;
    if first_refusal(slots) is Some {
        lemma_some_refusal(slots);
        let i = choose|i: int| 0 <= i < slots.len() && slot_refusal(#[trigger] slots[i]) is Some;
        assert(!is_nameable(slots[i]));
    }
    if !is_nameable(slots[slot]) && forall|i: int|
        0 <= i < slot ==> is_nameable(#[trigger] slots[i]) {
        if first_refusal(slots.take(slot)) is Some {
            lemma_some_refusal(slots.take(slot));
            let i = choose|i: int|
                0 <= i < slots.take(slot).len() && slot_refusal(
                    #[trigger] slots.take(slot)[i],
                ) is Some;
            assert(slots[i] == slots.take(slot)[i]);
            assert(is_nameable(slots[i]));
        }
        assert(slots.take(slot + 1).drop_last() =~= slots.take(slot));
        assert(slots.take(slot + 1).last() == slots[slot]);
        assert(first_refusal(slots.take(slot + 1)) == slot_refusal(slots[slot]));
        lemma_first_refusal(slots, slot + 1);
    }
}

/// Whether a slot that resolves has one target it can resolve to.
pub open spec fn is_resolvable(slot: Attachment) -> bool {
    slot.store is MultisampleResolve || slot.store is StoreAndMultisampleResolve ==> {
        &&& slot.resolve_texture is Some
        &&& slot.resolve_slice == 0 || slot.resolve_depth_plane == 0
    }
}

/// The slot a refusal is about, where it is about one.
pub open spec fn slot_at_fault(refused: Refusal) -> Option<AttachmentSlot> {
    match refused {
        Refusal::ResolveWithoutTarget { slot } => Some(slot),
        Refusal::SliceAndDepthPlane { slot, .. } => Some(slot),
        _ => None,
    }
}

/// Passes are carried by dynamic rendering exactly where the host has it and the
/// operator did not switch it off, and by pass objects everywhere else, with the
/// reason.
pub proof fn law_a_carrier_is_what_the_host_and_the_operator_allow(
    cell: PassCell,
    switch: Switch,
    narrowing: Narrowing,
    selection: Selection,
)
    requires
        call_ensures(Narrowing::from_env, (switch,), narrowing),
        call_ensures(select, (cell, narrowing), selection),
    ensures
        narrowing.no_dynamic_rendering <==> switch is Off,
        selection.carrier is DynamicRendering <==> cell.dynamic_rendering && !(switch is Off),
        selection.carrier is RenderPassObject <==> selection.dynamic_rendering is Some,
        selection.dynamic_rendering matches Some(why) ==> (why is Unsupported
            <==> !cell.dynamic_rendering),
{
}

/// A carrier is called by its name.
pub proof fn law_a_carrier_is_called_by_its_name(value: Carrier, name: &'static str)
    requires
        call_ensures(Carrier::name, (value,), name),
    ensures
        value is DynamicRendering ==> name@ == "dynamic_rendering"@,
        value is RenderPassObject ==> name@ == "render_pass_object"@,
{
}

/// A reason for passing a carrier over is called by its name.
pub proof fn law_a_reason_is_called_by_its_name(value: Declined, name: &'static str)
    requires
        call_ensures(Declined::name, (value,), name),
    ensures
        value is Unsupported ==> name@ == "unsupported"@,
        value is Narrowed ==> name@ == "narrowed"@,
{
}

} // verus!
