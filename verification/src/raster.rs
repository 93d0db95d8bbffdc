//! The fixed-function render state a guest sets, translated — and the two
//! pieces of it that are host capabilities rather than mappings.
//!
//! Metal's clip space has +Y up and Vulkan's framebuffer coordinates have +Y
//! down. [`viewport`] is the one place that flips: a negative height with the
//! origin moved to the bottom edge.
//!
//! Depth clamping and wireframe fill are optional Vulkan features with no
//! substitute. Both refuse by name, and only for the mode that needs the
//! feature.
//!
//! Metal sets the cull mode, the winding, the fill mode and the depth clip mode
//! on the encoder; Vulkan puts all four in the pipeline unless the host offers
//! them as dynamic state. A state this host made dynamic is normalized out of
//! [`RasterizationState`] and carried in [`DynamicRaster`] instead. Making a
//! state dynamic does not make its capability free.
//!
//! Depth bias is always enabled, and its values and the line width always
//! arrive dynamically. A line width other than 1.0 needs `wideLines`, and is
//! only a question where a draw rasterizes lines.
//!
//! An unknown ordinal is refused and never folded onto a neighbour.

use crate::guest::{ScissorRect, TopologyClass, Viewport};
use crate::ieee::{
    at_most, is_finite_single, narrow, narrowed, place, single_at_most, single_is_finite, SINGLE_ONE,
    SINGLE_SIGN,
};
use crate::ieee_sum::{plus, sum_pattern};
use crate::text::{decimal, push_decimal, push_text};
use crate::vulkan;
use crate::vulkan::{
    as_bool32, bool32, cull_mode, CullModeFlags, DynamicState, Extent2D, FrontFace, Offset2D,
    PolygonMode, Rect2D,
};
use vstd::prelude::*;

verus! {

/// `MTLCullMode`.
pub const MTL_CULL_MODE_NONE: u64 = 0;

pub const MTL_CULL_MODE_FRONT: u64 = 1;

pub const MTL_CULL_MODE_BACK: u64 = 2;

/// `MTLWinding`.
pub const MTL_WINDING_CLOCKWISE: u64 = 0;

pub const MTL_WINDING_COUNTER_CLOCKWISE: u64 = 1;

/// `MTLDepthClipMode`.
pub const MTL_DEPTH_CLIP_MODE_CLIP: u64 = 0;

pub const MTL_DEPTH_CLIP_MODE_CLAMP: u64 = 1;

/// `MTLTriangleFillMode`.
pub const MTL_TRIANGLE_FILL_MODE_FILL: u64 = 0;

pub const MTL_TRIANGLE_FILL_MODE_LINES: u64 = 1;

/// The optional Vulkan features two of these states need, and the ones that
/// make states dynamic.
#[derive(Clone, Copy, Debug, Default, PartialEq, Eq, Structural)]
pub struct RasterCell {
    /// `VkPhysicalDeviceFeatures::depthClamp`.
    pub depth_clamp: bool,
    /// `VkPhysicalDeviceFeatures::fillModeNonSolid`.
    pub fill_mode_non_solid: bool,
    /// `VkPhysicalDeviceExtendedDynamicStateFeaturesEXT::extendedDynamicState`,
    /// or 1.3 core. One feature bit that reaches `vkCmdSetCullMode` and
    /// `vkCmdSetFrontFace` together.
    pub dynamic_cull_and_winding: bool,
    /// `…ExtendedDynamicState3FeaturesEXT::extendedDynamicState3PolygonMode`.
    pub dynamic_polygon_mode: bool,
    /// `…ExtendedDynamicState3FeaturesEXT::extendedDynamicState3DepthClampEnable`.
    pub dynamic_depth_clamp: bool,
}

/// How many viewport and scissor rectangles this host lets one pipeline
/// declare.
#[derive(Clone, Copy, Debug, PartialEq, Eq, Structural)]
pub struct ViewportCell {
    /// `VkPhysicalDeviceFeatures::multiViewport`.
    pub multi_viewport: bool,
    /// `VkPhysicalDeviceLimits::maxViewports`.
    pub max_viewports: u32,
}

impl ViewportCell {
    /// The one slot every device has.
    #[must_use]
    pub fn single() -> (cell: Self)
        ensures
            cell == (ViewportCell { multi_viewport: false, max_viewports: 1 }),
    {
        ViewportCell { multi_viewport: false, max_viewports: 1 }
    }
}

impl Default for ViewportCell {
    fn default() -> (cell: Self)
        ensures
            cell == (ViewportCell { multi_viewport: false, max_viewports: 1 }),
    {
        ViewportCell::single()
    }
}

/// How many viewport and scissor rectangles a pipeline declares, checked
/// against the host that will build it.
///
/// The only ways to reach one are [`viewport_slots`], which asks the host, and
/// [`ViewportSlots::one`], which is the count no host can refuse.
#[derive(Clone, Copy, Debug, PartialEq, Eq, PartialOrd, Ord, Hash, Structural)]
pub struct ViewportSlots(u32);

impl ViewportSlots {
    /// The number of slots.
    pub closed spec fn slots(self) -> u32 {
        self.0
    }

    /// One viewport, which needs no capability at all.
    #[must_use]
    pub fn one() -> (slots: Self)
        ensures
            slots.slots() == 1,
    {
        ViewportSlots(1)
    }

    /// The count, for `viewportCount` and `scissorCount`.
    #[must_use]
    pub fn count(self) -> (count: u32)
        ensures
            count == self.slots(),
    {
        self.0
    }
}

/// Why a host does not let a pipeline declare so many viewports, if it does
/// not. The feature is asked before the limit.
pub open spec fn slots_refusal(requested: u32, cell: ViewportCell) -> Option<Refusal> {
    if requested == 0 {
        Some(Refusal::NoViewport)
    } else if requested > 1 && !cell.multi_viewport {
        Some(Refusal::ViewportSlots { requested, limit: 1, multi_viewport: false })
    } else if requested > cell.max_viewports {
        Some(
            Refusal::ViewportSlots {
                requested,
                limit: cell.max_viewports,
                multi_viewport: cell.multi_viewport,
            },
        )
    } else {
        None
    }
}

/// How many viewports this pipeline may declare on this host.
///
/// Refuses a pipeline that would rasterize nothing, and a count past what this
/// host offers. Refused rather than clamped: a pipeline built with fewer
/// viewports than the guest bound rasterizes through the wrong rectangle.
pub fn viewport_slots(requested: u32, cell: ViewportCell) -> (slots: Result<
    ViewportSlots,
    Refusal,
>)
    ensures
        match slots_refusal(requested, cell) {
            Some(refusal) => slots == Err::<ViewportSlots, Refusal>(refusal),
            None => slots is Ok && slots->Ok_0.slots() == requested,
        },
{
    if requested == 0 {
        return Err(Refusal::NoViewport);
    }
    if requested > 1 && !cell.multi_viewport {
        return Err(Refusal::ViewportSlots { requested, limit: 1, multi_viewport: false });
    }
    if requested > cell.max_viewports {
        return Err(
            Refusal::ViewportSlots {
                requested,
                limit: cell.max_viewports,
                multi_viewport: cell.multi_viewport,
            },
        );
    }
    Ok(ViewportSlots(requested))
}

/// What this host will accept from `vkCmdSetLineWidth`.
#[derive(Clone, Copy, Debug, PartialEq, Eq)]
pub struct LineWidthCell {
    /// `VkPhysicalDeviceFeatures::wideLines`.
    pub wide_lines: bool,
    /// `VkPhysicalDeviceLimits::lineWidthRange`, `[min, max]`, as the bit
    /// patterns of singles. Always contains 1.0.
    pub range: [u32; 2],
}

impl LineWidthCell {
    /// A device without `wideLines`: one width, and it is the default.
    #[must_use]
    pub fn narrow() -> (cell: Self)
        ensures
            !cell.wide_lines,
            cell.range@ == seq![DEFAULT_LINE_WIDTH, DEFAULT_LINE_WIDTH],
    {
        let cell = LineWidthCell {
            wide_lines: false,
            range: [DEFAULT_LINE_WIDTH, DEFAULT_LINE_WIDTH],
        };
        assert(cell.range@ =~= seq![DEFAULT_LINE_WIDTH, DEFAULT_LINE_WIDTH]);
        cell
    }
}

impl Default for LineWidthCell {
    fn default() -> (cell: Self)
        ensures
            !cell.wide_lines,
            cell.range@ == seq![DEFAULT_LINE_WIDTH, DEFAULT_LINE_WIDTH],
    {
        LineWidthCell::narrow()
    }
}

/// The width a render encoder rasterizes with before the guest sets one: the
/// bit pattern of 1.0.
pub const DEFAULT_LINE_WIDTH: u32 = SINGLE_ONE;

/// Why a state the guest set cannot be honoured here.
#[derive(Clone, Copy, Debug, PartialEq, Eq)]
pub enum Refusal {
    /// An ordinal outside the closed set.
    UnknownOrdinal { state: &'static str, ordinal: u64 },
    /// The guest asked to clamp depth and this device cannot.
    NoDepthClamp,
    /// The guest asked for a wireframe fill and this device cannot.
    NoNonSolidFill,
    /// A viewport or scissor dimension outside the fields Vulkan carries.
    OutOfRange { field: &'static str, value: u64 },
    /// The draw rasterizes lines at a width other than 1.0 and this device has
    /// no `wideLines`. The width travels as its bit pattern.
    NoWideLines { width_bits: u32 },
    /// The draw rasterizes lines at a width outside `lineWidthRange`.
    LineWidthOutOfRange { width_bits: u32, min_bits: u32, max_bits: u32 },
    /// A viewport with no area. The bits are the guest's own doubles, before
    /// the narrowing.
    NonPositiveViewport { width_bits: u64, height_bits: u64 },
    /// A pipeline that declares no viewport at all.
    NoViewport,
    /// More viewports than this host offers. `limit` is `maxViewports` where
    /// `multiViewport` is enabled and one where it is not.
    ViewportSlots { requested: u32, limit: u32, multi_viewport: bool },
}

impl Refusal {
    /// The slug of each refusal.
    pub open spec fn slug_text(self) -> Seq<char> {
        match self {
            Refusal::UnknownOrdinal { .. } => "vk_raster_unknown_ordinal"@,
            Refusal::NoDepthClamp => "vk_raster_no_depth_clamp"@,
            Refusal::NoNonSolidFill => "vk_raster_no_non_solid_fill"@,
            Refusal::OutOfRange { .. } => "vk_raster_out_of_range"@,
            Refusal::NoWideLines { .. } => "vk_raster_no_wide_lines"@,
            Refusal::LineWidthOutOfRange { .. } => "vk_raster_line_width_out_of_range"@,
            Refusal::NonPositiveViewport { .. } => "vk_raster_non_positive_viewport"@,
            Refusal::NoViewport => "vk_raster_no_viewport"@,
            Refusal::ViewportSlots { .. } => "vk_raster_viewport_slots"@,
        }
    }

    /// The refusal's slug.
    #[must_use]
    pub fn slug(self) -> (slug: &'static str)
        ensures
            slug@ == self.slug_text(),
    {
        match self {
            Refusal::UnknownOrdinal { .. } => "vk_raster_unknown_ordinal",
            Refusal::NoDepthClamp => "vk_raster_no_depth_clamp",
            Refusal::NoNonSolidFill => "vk_raster_no_non_solid_fill",
            Refusal::OutOfRange { .. } => "vk_raster_out_of_range",
            Refusal::NoWideLines { .. } => "vk_raster_no_wide_lines",
            Refusal::LineWidthOutOfRange { .. } => "vk_raster_line_width_out_of_range",
            Refusal::NonPositiveViewport { .. } => "vk_raster_non_positive_viewport",
            Refusal::NoViewport => "vk_raster_no_viewport",
            Refusal::ViewportSlots { .. } => "vk_raster_viewport_slots",
        }
    }

    /// Whether `text` is the refusal with what it is about, its floats written
    /// the way `single` and `double` write a bit pattern.
    pub open spec fn is_message<S: Fn(u32) -> String, D: Fn(u64) -> String>(
        self,
        text: Seq<char>,
        single: S,
        double: D,
    ) -> bool {
        match self {
            Refusal::UnknownOrdinal { state, ordinal } => text == self.slug_text() + (" state="@
                + state@ + " ordinal="@ + decimal(ordinal as nat)),
            Refusal::NoDepthClamp => text == self.slug_text(),
            Refusal::NoNonSolidFill => text == self.slug_text(),
            Refusal::NoViewport => text == self.slug_text(),
            Refusal::ViewportSlots { requested, limit, multi_viewport } => text == self.slug_text()
                + (" requested="@ + decimal(requested as nat) + " limit="@ + decimal(limit as nat)
                + " multi_viewport="@ + decimal(
                if multi_viewport {
                    1
                } else {
                    0
                },
            )),
            Refusal::OutOfRange { field, value } => text == self.slug_text() + (" field="@ + field@
                + " value="@ + decimal(value as nat)),
            Refusal::NoWideLines { width_bits } => exists|width: String|
                #[trigger]
                single.ensures((width_bits,), width) && text == self.slug_text() + (" width="@
                    + width@),
            Refusal::LineWidthOutOfRange {
                width_bits,
                min_bits,
                max_bits,
            } => exists|width: String, min: String, max: String|
                #[trigger]
                single.ensures((width_bits,), width) && #[trigger] single.ensures(
                    (min_bits,),
                    min,
                ) && #[trigger] single.ensures((max_bits,), max) && text == self.slug_text() + (
                " width="@ + width@ + " min="@ + min@ + " max="@ + max@),
            Refusal::NonPositiveViewport { width_bits, height_bits } => exists|
                width: String,
                height: String,
            |
                #[trigger]
                double.ensures((width_bits,), width) && #[trigger] double.ensures(
                    (height_bits,),
                    height,
                ) && text == self.slug_text() + (" width="@ + width@ + " height="@ + height@),
        }
    }

    /// The refusal with what it is about. `single` and `double` write a float
    /// from its bit pattern.
    pub fn message<S: Fn(u32) -> String, D: Fn(u64) -> String>(self, single: S, double: D) -> (text:
        String)
        requires
            forall|bits: u32| #[trigger] single.requires((bits,)),
            forall|bits: u64| #[trigger] double.requires((bits,)),
        ensures
            self.is_message(text@, single, double),
    {
        let mut text = String::new();
        push_text(&mut text, self.slug());
        assert(text@ =~= self.slug_text());
        let mut tail = String::new();
        match self {
            Refusal::UnknownOrdinal { state, ordinal } => {
                push_text(&mut tail, " state=");
                push_text(&mut tail, state);
                push_text(&mut tail, " ordinal=");
                push_decimal(&mut tail, ordinal);
                assert(tail@ =~= " state="@ + state@ + " ordinal="@ + decimal(ordinal as nat));
            },
            Refusal::NoDepthClamp | Refusal::NoNonSolidFill | Refusal::NoViewport => {
                return text;
            },
            Refusal::ViewportSlots { requested, limit, multi_viewport } => {
                push_text(&mut tail, " requested=");
                push_decimal(&mut tail, requested as u64);
                push_text(&mut tail, " limit=");
                push_decimal(&mut tail, limit as u64);
                push_text(&mut tail, " multi_viewport=");
                let flag: u64 = if multi_viewport {
                    1
                } else {
                    0
                };
                push_decimal(&mut tail, flag);
                assert(tail@ =~= " requested="@ + decimal(requested as nat) + " limit="@ + decimal(
                    limit as nat,
                ) + " multi_viewport="@ + decimal(flag as nat));
            },
            Refusal::OutOfRange { field, value } => {
                push_text(&mut tail, " field=");
                push_text(&mut tail, field);
                push_text(&mut tail, " value=");
                push_decimal(&mut tail, value);
                assert(tail@ =~= " field="@ + field@ + " value="@ + decimal(value as nat));
            },
            Refusal::NoWideLines { width_bits } => {
                let width = single(width_bits);
                push_text(&mut tail, " width=");
                push_text(&mut tail, width.as_str());
                assert(tail@ =~= " width="@ + width@);
            },
            Refusal::LineWidthOutOfRange { width_bits, min_bits, max_bits } => {
                let width = single(width_bits);
                let min = single(min_bits);
                let max = single(max_bits);
                push_text(&mut tail, " width=");
                push_text(&mut tail, width.as_str());
                push_text(&mut tail, " min=");
                push_text(&mut tail, min.as_str());
                push_text(&mut tail, " max=");
                push_text(&mut tail, max.as_str());
                assert(tail@ =~= " width="@ + width@ + " min="@ + min@ + " max="@ + max@);
            },
            Refusal::NonPositiveViewport { width_bits, height_bits } => {
                let width = double(width_bits);
                let height = double(height_bits);
                push_text(&mut tail, " width=");
                push_text(&mut tail, width.as_str());
                push_text(&mut tail, " height=");
                push_text(&mut tail, height.as_str());
                assert(tail@ =~= " width="@ + width@ + " height="@ + height@);
            },
        }
        push_text(&mut text, tail.as_str());
        text
    }
}

/// The faces each cull ordinal discards.
pub open spec fn cull_of(ordinal: u64) -> Result<CullModeFlags, Refusal> {
    if ordinal == MTL_CULL_MODE_NONE {
        Ok(cull_mode::NONE)
    } else if ordinal == MTL_CULL_MODE_FRONT {
        Ok(cull_mode::FRONT)
    } else if ordinal == MTL_CULL_MODE_BACK {
        Ok(cull_mode::BACK)
    } else {
        Err(Refusal::UnknownOrdinal { state: "cull_mode", ordinal })
    }
}

/// The front face each winding ordinal names.
pub open spec fn winding_of(ordinal: u64) -> Result<FrontFace, Refusal> {
    if ordinal == MTL_WINDING_CLOCKWISE {
        Ok(FrontFace::Clockwise)
    } else if ordinal == MTL_WINDING_COUNTER_CLOCKWISE {
        Ok(FrontFace::CounterClockwise)
    } else {
        Err(Refusal::UnknownOrdinal { state: "winding", ordinal })
    }
}

/// Whether each depth-clip ordinal clamps, on a host that can.
pub open spec fn clamp_of(ordinal: u64, cell: RasterCell) -> Result<bool, Refusal> {
    if ordinal == MTL_DEPTH_CLIP_MODE_CLIP {
        Ok(false)
    } else if ordinal == MTL_DEPTH_CLIP_MODE_CLAMP {
        if cell.depth_clamp {
            Ok(true)
        } else {
            Err(Refusal::NoDepthClamp)
        }
    } else {
        Err(Refusal::UnknownOrdinal { state: "depth_clip_mode", ordinal })
    }
}

/// How each fill ordinal fills, on a host that can.
pub open spec fn fill_of(ordinal: u64, cell: RasterCell) -> Result<PolygonMode, Refusal> {
    if ordinal == MTL_TRIANGLE_FILL_MODE_FILL {
        Ok(PolygonMode::Fill)
    } else if ordinal == MTL_TRIANGLE_FILL_MODE_LINES {
        if cell.fill_mode_non_solid {
            Ok(PolygonMode::Line)
        } else {
            Err(Refusal::NoNonSolidFill)
        }
    } else {
        Err(Refusal::UnknownOrdinal { state: "triangle_fill_mode", ordinal })
    }
}

/// Which faces a draw discards.
pub fn cull_mode(ordinal: u64) -> (mode: Result<CullModeFlags, Refusal>)
    ensures
        mode == cull_of(ordinal),
{
    match ordinal {
        MTL_CULL_MODE_NONE => Ok(cull_mode::NONE),
        MTL_CULL_MODE_FRONT => Ok(cull_mode::FRONT),
        MTL_CULL_MODE_BACK => Ok(cull_mode::BACK),
        _ => Err(Refusal::UnknownOrdinal { state: "cull_mode", ordinal }),
    }
}

/// Which winding is the front face.
///
/// The mapping is direct because the Y flip is in the viewport.
pub fn front_face(ordinal: u64) -> (face: Result<FrontFace, Refusal>)
    ensures
        face == winding_of(ordinal),
{
    match ordinal {
        MTL_WINDING_CLOCKWISE => Ok(FrontFace::Clockwise),
        MTL_WINDING_COUNTER_CLOCKWISE => Ok(FrontFace::CounterClockwise),
        _ => Err(Refusal::UnknownOrdinal { state: "winding", ordinal }),
    }
}

/// Whether fragments outside the depth range are clamped or clipped.
///
/// Refuses to clamp on a device without the feature: clipping instead throws
/// away geometry the guest expected to keep.
pub fn depth_clamp(ordinal: u64, cell: RasterCell) -> (clamp: Result<bool, Refusal>)
    ensures
        clamp == clamp_of(ordinal, cell),
{
    match ordinal {
        MTL_DEPTH_CLIP_MODE_CLIP => Ok(false),
        MTL_DEPTH_CLIP_MODE_CLAMP => {
            if cell.depth_clamp {
                Ok(true)
            } else {
                Err(Refusal::NoDepthClamp)
            }
        },
        _ => Err(Refusal::UnknownOrdinal { state: "depth_clip_mode", ordinal }),
    }
}

/// How a triangle is filled.
///
/// Refuses lines on a device without the feature: filling instead draws solid
/// triangles over a wireframe.
pub fn polygon_mode(ordinal: u64, cell: RasterCell) -> (mode: Result<PolygonMode, Refusal>)
    ensures
        mode == fill_of(ordinal, cell),
{
    match ordinal {
        MTL_TRIANGLE_FILL_MODE_FILL => Ok(PolygonMode::Fill),
        MTL_TRIANGLE_FILL_MODE_LINES => {
            if cell.fill_mode_non_solid {
                Ok(PolygonMode::Line)
            } else {
                Err(Refusal::NoNonSolidFill)
            }
        },
        _ => Err(Refusal::UnknownOrdinal { state: "triangle_fill_mode", ordinal }),
    }
}

/// The four encoder states a guest sets, as ordinals.
#[derive(Clone, Copy, Debug, PartialEq, Eq, PartialOrd, Ord, Hash, Structural)]
pub struct GuestRasterState {
    pub cull_mode: u64,
    pub winding: u64,
    pub depth_clip_mode: u64,
    pub fill_mode: u64,
}

impl GuestRasterState {
    /// What an encoder rasterizes with before the guest sets anything.
    pub open spec fn initial() -> GuestRasterState {
        GuestRasterState {
            cull_mode: MTL_CULL_MODE_NONE,
            winding: MTL_WINDING_CLOCKWISE,
            depth_clip_mode: MTL_DEPTH_CLIP_MODE_CLIP,
            fill_mode: MTL_TRIANGLE_FILL_MODE_FILL,
        }
    }
}

impl Default for GuestRasterState {
    /// What an encoder rasterizes with before the guest sets anything: Metal's
    /// own defaults, every one of them the mode that needs no optional feature.
    fn default() -> (state: Self)
        ensures
            state == GuestRasterState::initial(),
    {
        GuestRasterState {
            cull_mode: MTL_CULL_MODE_NONE,
            winding: MTL_WINDING_CLOCKWISE,
            depth_clip_mode: MTL_DEPTH_CLIP_MODE_CLIP,
            fill_mode: MTL_TRIANGLE_FILL_MODE_FILL,
        }
    }
}

/// Which rasterization members this host supplies per draw rather than per
/// pipeline.
#[derive(Clone, Copy, Debug, Default, PartialEq, Eq, PartialOrd, Ord, Hash, Structural)]
pub struct RasterDynamic {
    /// `vkCmdSetCullMode` and `vkCmdSetFrontFace`.
    pub cull_and_winding: bool,
    pub polygon_mode: bool,
    pub depth_clamp_enable: bool,
}

impl RasterDynamic {
    /// What a cell makes dynamic.
    pub open spec fn offered(cell: RasterCell) -> RasterDynamic {
        RasterDynamic {
            cull_and_winding: cell.dynamic_cull_and_winding,
            polygon_mode: cell.dynamic_polygon_mode,
            depth_clamp_enable: cell.dynamic_depth_clamp,
        }
    }

    /// What this host offers, from the cell.
    #[must_use]
    pub fn of(cell: RasterCell) -> (dynamic: Self)
        ensures
            dynamic == RasterDynamic::offered(cell),
    {
        RasterDynamic {
            cull_and_winding: cell.dynamic_cull_and_winding,
            polygon_mode: cell.dynamic_polygon_mode,
            depth_clamp_enable: cell.dynamic_depth_clamp,
        }
    }

    /// Nothing dynamic: every state is baked.
    #[must_use]
    pub fn none() -> (dynamic: Self)
        ensures
            dynamic == (RasterDynamic {
                cull_and_winding: false,
                polygon_mode: false,
                depth_clamp_enable: false,
            }),
    {
        RasterDynamic { cull_and_winding: false, polygon_mode: false, depth_clamp_enable: false }
    }

    /// The states a pipeline built with these flags declares.
    pub open spec fn declared(self) -> Seq<DynamicState> {
        seq![DynamicState::DepthBias, DynamicState::LineWidth] + (if self.cull_and_winding {
            seq![DynamicState::CullMode, DynamicState::FrontFace]
        } else {
            seq![]
        }) + (if self.polygon_mode {
            seq![DynamicState::PolygonMode]
        } else {
            seq![]
        }) + (if self.depth_clamp_enable {
            seq![DynamicState::DepthClampEnable]
        } else {
            seq![]
        })
    }

    /// The states a pipeline built with these flags must declare.
    ///
    /// The depth bias and the line width are unconditional: the pipeline always
    /// enables biasing, and the line width is Vulkan 1.0 core dynamic state.
    #[must_use]
    pub fn states(self) -> (states: Vec<DynamicState>)
        ensures
            states@ == self.declared(),
    {
        let mut states: Vec<DynamicState> = Vec::new();
        states.push(DynamicState::DepthBias);
        states.push(DynamicState::LineWidth);
        if self.cull_and_winding {
            states.push(DynamicState::CullMode);
            states.push(DynamicState::FrontFace);
        }
        if self.polygon_mode {
            states.push(DynamicState::PolygonMode);
        }
        if self.depth_clamp_enable {
            states.push(DynamicState::DepthClampEnable);
        }
        assert(states@ =~= self.declared());
        states
    }
}

/// The rasterization state a pipeline is created with.
///
/// A member this host made dynamic carries its default here, not the guest's
/// value.
#[derive(Clone, Copy, Debug, PartialEq, Eq, Hash, Structural)]
pub struct RasterizationState {
    pub depth_clamp_enable: bool,
    pub polygon_mode: PolygonMode,
    pub cull_mode: CullModeFlags,
    pub front_face: FrontFace,
    /// Always true.
    pub depth_bias_enable: bool,
    /// Which members above are placeholders because the encoder supplies them.
    pub dynamic: RasterDynamic,
}

/// The members of `VkPipelineRasterizationStateCreateInfo`. Floats are the bit
/// patterns of singles.
#[derive(Clone, Copy, Debug, PartialEq, Eq, Structural)]
pub struct NativeRasterization {
    pub depth_clamp_enable: u32,
    pub rasterizer_discard_enable: u32,
    pub polygon_mode: PolygonMode,
    pub cull_mode: CullModeFlags,
    pub front_face: FrontFace,
    pub depth_bias_enable: u32,
    pub depth_bias_constant_factor: u32,
    pub depth_bias_clamp: u32,
    pub depth_bias_slope_factor: u32,
    pub line_width: u32,
}

impl RasterizationState {
    /// The members the pipeline is created with.
    ///
    /// Rasterization is never discarded. The bias starts at zero and the line
    /// width at the default; the encoder supplies both.
    #[must_use]
    pub fn native(self) -> (native: NativeRasterization)
        ensures
            native == (NativeRasterization {
                depth_clamp_enable: bool32(self.depth_clamp_enable),
                rasterizer_discard_enable: vulkan::FALSE,
                polygon_mode: self.polygon_mode,
                cull_mode: self.cull_mode,
                front_face: self.front_face,
                depth_bias_enable: bool32(self.depth_bias_enable),
                depth_bias_constant_factor: 0,
                depth_bias_clamp: 0,
                depth_bias_slope_factor: 0,
                line_width: DEFAULT_LINE_WIDTH,
            }),
    {
        NativeRasterization {
            depth_clamp_enable: as_bool32(self.depth_clamp_enable),
            rasterizer_discard_enable: vulkan::FALSE,
            polygon_mode: self.polygon_mode,
            cull_mode: self.cull_mode,
            front_face: self.front_face,
            depth_bias_enable: as_bool32(self.depth_bias_enable),
            depth_bias_constant_factor: 0,
            depth_bias_clamp: 0,
            depth_bias_slope_factor: 0,
            line_width: DEFAULT_LINE_WIDTH,
        }
    }
}

/// The guest's values for the members this host made dynamic.
///
/// `Some` exactly where [`RasterizationState`] holds a placeholder.
#[derive(Clone, Copy, Debug, Default, PartialEq, Eq, Structural)]
pub struct DynamicRaster {
    pub cull_mode: Option<CullModeFlags>,
    pub front_face: Option<FrontFace>,
    pub polygon_mode: Option<PolygonMode>,
    pub depth_clamp_enable: Option<bool>,
}

/// A translated rasterizer state: what the pipeline is built with, and what
/// the encoder sets before each draw.
#[derive(Clone, Copy, Debug, PartialEq, Eq, Structural)]
pub struct Plan {
    pub state: RasterizationState,
    pub dynamic: DynamicRaster,
}

impl Plan {
    /// The polygon mode a draw rasterizes with, whichever half holds it.
    pub open spec fn effective_polygon_mode(self) -> PolygonMode {
        match self.dynamic.polygon_mode {
            Some(mode) => mode,
            None => self.state.polygon_mode,
        }
    }

    /// The cull mode a draw rasterizes with, whichever half holds it.
    pub open spec fn effective_cull_mode(self) -> CullModeFlags {
        match self.dynamic.cull_mode {
            Some(mode) => mode,
            None => self.state.cull_mode,
        }
    }

    /// The front face a draw rasterizes with, whichever half holds it.
    pub open spec fn effective_front_face(self) -> FrontFace {
        match self.dynamic.front_face {
            Some(face) => face,
            None => self.state.front_face,
        }
    }

    /// Whether a draw clamps depth, whichever half holds it.
    pub open spec fn effective_depth_clamp(self) -> bool {
        match self.dynamic.depth_clamp_enable {
            Some(clamp) => clamp,
            None => self.state.depth_clamp_enable,
        }
    }

    /// The polygon mode this draw actually rasterizes with, whichever half of
    /// the plan holds it.
    #[must_use]
    pub fn polygon_mode(self) -> (mode: PolygonMode)
        ensures
            mode == self.effective_polygon_mode(),
    {
        match self.dynamic.polygon_mode {
            Some(mode) => mode,
            None => self.state.polygon_mode,
        }
    }
}

/// Whether a draw puts line segments through the rasterizer.
///
/// A line-class topology does whatever the polygon mode is, a triangle-class
/// one exactly when the polygon mode is `LINE`, and a point-class one never.
#[must_use]
pub fn rasterizes_lines(polygon_mode: PolygonMode, class: TopologyClass) -> (lines: bool)
    ensures
        lines == (class is Line || (class is Triangle && polygon_mode is Line)),
{
    match class {
        TopologyClass::Point => false,
        TopologyClass::Line => true,
        TopologyClass::Triangle => polygon_mode == PolygonMode::Line,
    }
}

/// The width a draw is given, or why it cannot have it. A draw that rasterizes
/// no lines takes the default whatever the guest set.
pub open spec fn width_of(guest: Option<u32>, draws_lines: bool, cell: LineWidthCell) -> Result<
    u32,
    Refusal,
> {
    let width = match guest {
        Some(bits) => bits,
        None => DEFAULT_LINE_WIDTH,
    };
    if !draws_lines || width == DEFAULT_LINE_WIDTH {
        Ok(DEFAULT_LINE_WIDTH)
    } else if !cell.wide_lines {
        Err(Refusal::NoWideLines { width_bits: width })
    } else if !(single_at_most(cell.range[0], width) && single_at_most(width, cell.range[1])) {
        Err(
            Refusal::LineWidthOutOfRange {
                width_bits: width,
                min_bits: cell.range[0],
                max_bits: cell.range[1],
            },
        )
    } else {
        Ok(width)
    }
}

/// The width to hand `vkCmdSetLineWidth` before this draw, as the bit pattern
/// of a single.
///
/// `guest` is what the stream's `setLineWidth:` last set, or `None` where it
/// set none. `draws_lines` is [`rasterizes_lines`]' answer. A width this host
/// cannot serve is refused and never clamped; a NaN is outside every range.
pub fn line_width(guest: Option<u32>, draws_lines: bool, cell: LineWidthCell) -> (width: Result<
    u32,
    Refusal,
>)
    ensures
        width == width_of(guest, draws_lines, cell),
{
    let width: u32 = match guest {
        Some(bits) => bits,
        None => DEFAULT_LINE_WIDTH,
    };
    if !draws_lines {
        return Ok(DEFAULT_LINE_WIDTH);
    }
    if width == DEFAULT_LINE_WIDTH {
        return Ok(DEFAULT_LINE_WIDTH);
    }
    if !cell.wide_lines {
        return Err(Refusal::NoWideLines { width_bits: width });
    }
    let min: u32 = cell.range[0];
    let max: u32 = cell.range[1];
    if !(at_most(min, width) && at_most(width, max)) {
        return Err(
            Refusal::LineWidthOutOfRange { width_bits: width, min_bits: min, max_bits: max },
        );
    }
    Ok(width)
}

/// Why a guest state cannot be planned on a host, if it cannot. The four states
/// are looked at in order, and none of the answers depends on what is dynamic.
pub open spec fn refusal(guest: GuestRasterState, cell: RasterCell) -> Option<Refusal> {
    if cull_of(guest.cull_mode) is Err {
        Some(cull_of(guest.cull_mode)->Err_0)
    } else if winding_of(guest.winding) is Err {
        Some(winding_of(guest.winding)->Err_0)
    } else if clamp_of(guest.depth_clip_mode, cell) is Err {
        Some(clamp_of(guest.depth_clip_mode, cell)->Err_0)
    } else if fill_of(guest.fill_mode, cell) is Err {
        Some(fill_of(guest.fill_mode, cell)->Err_0)
    } else {
        None
    }
}

/// A member's value in the half of the plan it belongs to.
pub open spec fn supplied<T>(dynamic: bool, value: T) -> Option<T> {
    if dynamic {
        Some(value)
    } else {
        None
    }
}

/// What a guest state becomes on a host: each member is the encoder's where the
/// host made it dynamic, and the pipeline's otherwise.
pub open spec fn planned(guest: GuestRasterState, cell: RasterCell) -> Plan {
    let dynamic = RasterDynamic::offered(cell);
    let cull = cull_of(guest.cull_mode)->Ok_0;
    let winding = winding_of(guest.winding)->Ok_0;
    let clamp = clamp_of(guest.depth_clip_mode, cell)->Ok_0;
    let fill = fill_of(guest.fill_mode, cell)->Ok_0;
    Plan {
        state: RasterizationState {
            depth_clamp_enable: !dynamic.depth_clamp_enable && clamp,
            polygon_mode: if dynamic.polygon_mode {
                PolygonMode::Fill
            } else {
                fill
            },
            cull_mode: if dynamic.cull_and_winding {
                cull_mode::NONE
            } else {
                cull
            },
            front_face: if dynamic.cull_and_winding {
                FrontFace::Clockwise
            } else {
                winding
            },
            depth_bias_enable: true,
            dynamic,
        },
        dynamic: DynamicRaster {
            cull_mode: supplied(dynamic.cull_and_winding, cull),
            front_face: supplied(dynamic.cull_and_winding, winding),
            polygon_mode: supplied(dynamic.polygon_mode, fill),
            depth_clamp_enable: supplied(dynamic.depth_clamp_enable, clamp),
        },
    }
}

/// Translate a guest rasterizer state against this host.
///
/// Every ordinal is parsed and every capability is checked, whether or not the
/// state it names ends up dynamic. Nothing is partially translated.
pub fn plan(guest: GuestRasterState, cell: RasterCell) -> (plan: Result<Plan, Refusal>)
    ensures
        plan == match refusal(guest, cell) {
            Some(refused) => Err::<Plan, Refusal>(refused),
            None => Ok(planned(guest, cell)),
        },
{
    let cull: u32 = match cull_mode(guest.cull_mode) {
        Ok(mode) => mode,
        Err(refused) => {
            return Err(refused);
        },
    };
    let winding = match front_face(guest.winding) {
        Ok(face) => face,
        Err(refused) => {
            return Err(refused);
        },
    };
    let clamp = match depth_clamp(guest.depth_clip_mode, cell) {
        Ok(clamp) => clamp,
        Err(refused) => {
            return Err(refused);
        },
    };
    let fill = match polygon_mode(guest.fill_mode, cell) {
        Ok(mode) => mode,
        Err(refused) => {
            return Err(refused);
        },
    };
    let dynamic = RasterDynamic::of(cell);
    Ok(
        Plan {
            state: RasterizationState {
                depth_clamp_enable: if dynamic.depth_clamp_enable {
                    false
                } else {
                    clamp
                },
                polygon_mode: if dynamic.polygon_mode {
                    PolygonMode::Fill
                } else {
                    fill
                },
                cull_mode: if dynamic.cull_and_winding {
                    cull_mode::NONE
                } else {
                    cull
                },
                front_face: if dynamic.cull_and_winding {
                    FrontFace::Clockwise
                } else {
                    winding
                },
                depth_bias_enable: true,
                dynamic,
            },
            dynamic: DynamicRaster {
                cull_mode: if dynamic.cull_and_winding {
                    Some(cull)
                } else {
                    None
                },
                front_face: if dynamic.cull_and_winding {
                    Some(winding)
                } else {
                    None
                },
                polygon_mode: if dynamic.polygon_mode {
                    Some(fill)
                } else {
                    None
                },
                depth_clamp_enable: if dynamic.depth_clamp_enable {
                    Some(clamp)
                } else {
                    None
                },
            },
        },
    )
}

/// On a host where all four states are dynamic, every guest state it accepts
/// plans to one pipeline state.
pub proof fn law_one_pipeline_where_everything_is_dynamic(
    a: GuestRasterState,
    b: GuestRasterState,
    cell: RasterCell,
)
    requires
        cell.dynamic_cull_and_winding,
        cell.dynamic_polygon_mode,
        cell.dynamic_depth_clamp,
        refusal(a, cell) is None,
        refusal(b, cell) is None,
    ensures
        planned(a, cell).state == planned(b, cell).state,
{
}

/// On a host where nothing is dynamic, different guest states plan to different
/// pipeline states and the encoder is asked for none of them.
pub proof fn law_baking_tells_every_state_apart(
    a: GuestRasterState,
    b: GuestRasterState,
    cell: RasterCell,
)
    requires
        !cell.dynamic_cull_and_winding,
        !cell.dynamic_polygon_mode,
        !cell.dynamic_depth_clamp,
        refusal(a, cell) is None,
        refusal(b, cell) is None,
        planned(a, cell).state == planned(b, cell).state,
    ensures
        a == b,
        planned(a, cell).dynamic == (DynamicRaster {
            cull_mode: None,
            front_face: None,
            polygon_mode: None,
            depth_clamp_enable: None,
        }),
{
}

/// A member is the encoder's exactly where the host made it dynamic, and the
/// pipeline then holds the default in its place.
pub proof fn law_a_member_lives_in_one_half(guest: GuestRasterState, cell: RasterCell)
    requires
        refusal(guest, cell) is None,
    ensures
        ({
            let plan = planned(guest, cell);
            let default = planned(GuestRasterState::initial(), cell).state;
            &&& plan.state.dynamic == RasterDynamic::offered(cell)
            &&& plan.dynamic.cull_mode is Some <==> cell.dynamic_cull_and_winding
            &&& plan.dynamic.front_face is Some <==> cell.dynamic_cull_and_winding
            &&& plan.dynamic.polygon_mode is Some <==> cell.dynamic_polygon_mode
            &&& plan.dynamic.depth_clamp_enable is Some <==> cell.dynamic_depth_clamp
            &&& cell.dynamic_cull_and_winding ==> plan.state.cull_mode == default.cull_mode
                && plan.state.front_face == default.front_face
            &&& cell.dynamic_polygon_mode ==> plan.state.polygon_mode == default.polygon_mode
            &&& cell.dynamic_depth_clamp ==> plan.state.depth_clamp_enable
                == default.depth_clamp_enable
        }),
{
}

/// Read across both halves, a plan is what the guest asked for on every host
/// that accepts it.
pub proof fn law_the_halves_reproduce_the_guests_state(guest: GuestRasterState, cell: RasterCell)
    requires
        refusal(guest, cell) is None,
    ensures
        ({
            let plan = planned(guest, cell);
            &&& cull_of(guest.cull_mode) == Ok::<CullModeFlags, Refusal>(
                plan.effective_cull_mode(),
            )
            &&& winding_of(guest.winding) == Ok::<FrontFace, Refusal>(plan.effective_front_face())
            &&& clamp_of(guest.depth_clip_mode, cell) == Ok::<bool, Refusal>(
                plan.effective_depth_clamp(),
            )
            &&& fill_of(guest.fill_mode, cell) == Ok::<PolygonMode, Refusal>(
                plan.effective_polygon_mode(),
            )
            &&& plan.state.depth_bias_enable
        }),
{
}

/// Making a state dynamic does not make its capability free: what a host
/// refuses depends on its two features alone.
pub proof fn law_dynamic_state_refuses_nothing_less(
    guest: GuestRasterState,
    a: RasterCell,
    b: RasterCell,
)
    requires
        a.depth_clamp == b.depth_clamp,
        a.fill_mode_non_solid == b.fill_mode_non_solid,
    ensures
        refusal(guest, a) == refusal(guest, b),
{
}

/// A guest that sets nothing is accepted by every host.
pub proof fn law_the_defaults_need_no_feature(cell: RasterCell)
    ensures
        refusal(GuestRasterState::initial(), cell) is None,
{
}

/// The declared dynamic states name each member once.
pub proof fn law_declared_states_do_not_repeat(dynamic: RasterDynamic)
    ensures
        dynamic.declared().no_duplicates(),
        dynamic.declared().contains(DynamicState::DepthBias),
        dynamic.declared().contains(DynamicState::LineWidth),
        dynamic.declared().len() == 2 + (if dynamic.cull_and_winding {
            2int
        } else {
            0
        }) + (if dynamic.polygon_mode {
            1int
        } else {
            0
        }) + (if dynamic.depth_clamp_enable {
            1int
        } else {
            0
        }),
{
    assert(dynamic.declared()[0] == DynamicState::DepthBias);
    assert(dynamic.declared()[1] == DynamicState::LineWidth);
}

/// A draw is refused a width only if it draws lines at a width other than the
/// default.
pub proof fn law_a_draw_without_lines_is_never_refused_a_width(
    guest: Option<u32>,
    draws_lines: bool,
    cell: LineWidthCell,
)
    requires
        width_of(guest, draws_lines, cell) is Err,
    ensures
        draws_lines,
        guest is Some,
        guest->0 != DEFAULT_LINE_WIDTH,
{
}

/// The single a guest's double lands in a field as.
pub open spec fn field(bits: u64) -> u32 {
    narrowed(bits) as u32
}

/// The pattern of the bottom edge of a guest rectangle.
pub open spec fn bottom(guest: Viewport) -> u64 {
    sum_pattern(guest.origin_y_bits, guest.height_bits) as u64
}

/// Why a viewport cannot be set, if it cannot: the first field whose narrowed
/// value is not finite, and then an area that is not positive.
pub open spec fn viewport_refusal(guest: Viewport) -> Option<Refusal> {
    if !single_is_finite(field(guest.origin_x_bits)) {
        Some(Refusal::OutOfRange { field: "origin_x", value: guest.origin_x_bits })
    } else if !single_is_finite(field(bottom(guest))) {
        Some(Refusal::OutOfRange { field: "origin_y", value: bottom(guest) })
    } else if !single_is_finite(field(guest.width_bits)) {
        Some(Refusal::OutOfRange { field: "width", value: guest.width_bits })
    } else if !single_is_finite(field(guest.height_bits)) {
        Some(Refusal::OutOfRange { field: "height", value: guest.height_bits })
    } else if !single_is_finite(field(guest.z_near_bits)) {
        Some(Refusal::OutOfRange { field: "z_near", value: guest.z_near_bits })
    } else if !single_is_finite(field(guest.z_far_bits)) {
        Some(Refusal::OutOfRange { field: "z_far", value: guest.z_far_bits })
    } else if place(field(guest.width_bits)) <= 0 || place(field(guest.height_bits)) <= 0 {
        Some(
            Refusal::NonPositiveViewport {
                width_bits: guest.width_bits,
                height_bits: guest.height_bits,
            },
        )
    } else {
        None
    }
}

/// The viewport a guest rectangle becomes: measured from the bottom edge, with
/// the height negated.
pub open spec fn flipped(guest: Viewport) -> vulkan::Viewport {
    vulkan::Viewport {
        x: field(guest.origin_x_bits),
        y: field(bottom(guest)),
        width: field(guest.width_bits),
        height: (SINGLE_SIGN + field(guest.height_bits)) as u32,
        min_depth: field(guest.z_near_bits),
        max_depth: field(guest.z_far_bits),
    }
}

fn narrowed_field(name: &'static str, bits: u64) -> (single: Result<u32, Refusal>)
    ensures
        single == if single_is_finite(field(bits)) {
            Ok::<u32, Refusal>(field(bits))
        } else {
            Err(Refusal::OutOfRange { field: name, value: bits })
        },
{
    let single: u32 = narrow(bits);
    if is_finite_single(single) {
        Ok(single)
    } else {
        Err(Refusal::OutOfRange { field: name, value: bits })
    }
}

/// The viewport a guest rectangle becomes, with the Y flip in it.
///
/// The origin moves to the bottom edge and the height is negated. Finiteness is
/// decided on the value that lands in the field: a finite double may narrow to
/// an infinity, and the bottom edge is a sum of two that each fit. The area is
/// decided on the narrowed values too, before the flip negates the height,
/// because a positive double small enough narrows to zero.
pub fn viewport(guest: Viewport) -> (native: Result<vulkan::Viewport, Refusal>)
    ensures
        native == match viewport_refusal(guest) {
            Some(refused) => Err::<vulkan::Viewport, Refusal>(refused),
            None => Ok(flipped(guest)),
        },
{
    let x: u32 = match narrowed_field("origin_x", guest.origin_x_bits) {
        Ok(single) => single,
        Err(refused) => {
            return Err(refused);
        },
    };
    let edge: u64 = plus(guest.origin_y_bits, guest.height_bits);
    assert(edge == bottom(guest));
    let y: u32 = match narrowed_field("origin_y", edge) {
        Ok(single) => single,
        Err(refused) => {
            return Err(refused);
        },
    };
    let width: u32 = match narrowed_field("width", guest.width_bits) {
        Ok(single) => single,
        Err(refused) => {
            return Err(refused);
        },
    };
    let height: u32 = match narrowed_field("height", guest.height_bits) {
        Ok(single) => single,
        Err(refused) => {
            return Err(refused);
        },
    };
    let min_depth: u32 = match narrowed_field("z_near", guest.z_near_bits) {
        Ok(single) => single,
        Err(refused) => {
            return Err(refused);
        },
    };
    let max_depth: u32 = match narrowed_field("z_far", guest.z_far_bits) {
        Ok(single) => single,
        Err(refused) => {
            return Err(refused);
        },
    };
    if at_most(width, 0) || at_most(height, 0) {
        return Err(
            Refusal::NonPositiveViewport {
                width_bits: guest.width_bits,
                height_bits: guest.height_bits,
            },
        );
    }
    Ok(vulkan::Viewport { x, y, width, height: height + SINGLE_SIGN, min_depth, max_depth })
}

/// Every field of a viewport that is set is finite, its width is positive, its
/// height is negative, and the flip changes the height's sign and nothing else.
pub proof fn law_a_set_viewport_is_finite_and_flipped(guest: Viewport)
    requires
        viewport_refusal(guest) is None,
    ensures
        ({
            let native = flipped(guest);
            &&& single_is_finite(native.x)
            &&& single_is_finite(native.y)
            &&& single_is_finite(native.width)
            &&& single_is_finite(native.height)
            &&& single_is_finite(native.min_depth)
            &&& single_is_finite(native.max_depth)
            &&& place(native.width) > 0
            &&& place(native.height) < 0
            &&& place(native.height) == -place(field(guest.height_bits))
        }),
{
}

/// Why a scissor cannot be set, if it cannot.
pub open spec fn scissor_refusal(guest: ScissorRect) -> Option<Refusal> {
    if guest.x > i32::MAX {
        Some(Refusal::OutOfRange { field: "x", value: guest.x })
    } else if guest.y > i32::MAX {
        Some(Refusal::OutOfRange { field: "y", value: guest.y })
    } else if guest.width > u32::MAX {
        Some(Refusal::OutOfRange { field: "width", value: guest.width })
    } else if guest.height > u32::MAX {
        Some(Refusal::OutOfRange { field: "height", value: guest.height })
    } else {
        None
    }
}

/// The scissor a guest rectangle becomes.
///
/// No flip: a scissor is in framebuffer pixels in both models, with the origin
/// at the top left.
pub fn scissor(guest: ScissorRect) -> (rect: Result<Rect2D, Refusal>)
    ensures
        match scissor_refusal(guest) {
            Some(refused) => rect == Err::<Rect2D, Refusal>(refused),
            None => rect is Ok && {
                let native = rect->Ok_0;
                &&& native.offset.x == guest.x
                &&& native.offset.y == guest.y
                &&& native.extent.width == guest.width
                &&& native.extent.height == guest.height
            },
        },
{
    if guest.x > i32::MAX as u64 {
        return Err(Refusal::OutOfRange { field: "x", value: guest.x });
    }
    if guest.y > i32::MAX as u64 {
        return Err(Refusal::OutOfRange { field: "y", value: guest.y });
    }
    if guest.width > u32::MAX as u64 {
        return Err(Refusal::OutOfRange { field: "width", value: guest.width });
    }
    if guest.height > u32::MAX as u64 {
        return Err(Refusal::OutOfRange { field: "height", value: guest.height });
    }
    Ok(
        Rect2D {
            offset: Offset2D { x: guest.x as i32, y: guest.y as i32 },
            extent: Extent2D { width: guest.width as u32, height: guest.height as u32 },
        },
    )
}

/// No two refusals share a slug.
pub proof fn law_every_refusal_names_itself(a: Refusal, b: Refusal)
    ensures
        a.slug_text() == b.slug_text() ==> {
            &&& a is UnknownOrdinal <==> b is UnknownOrdinal
            &&& a is NoDepthClamp <==> b is NoDepthClamp
            &&& a is NoNonSolidFill <==> b is NoNonSolidFill
            &&& a is OutOfRange <==> b is OutOfRange
            &&& a is NoWideLines <==> b is NoWideLines
            &&& a is LineWidthOutOfRange <==> b is LineWidthOutOfRange
            &&& a is NonPositiveViewport <==> b is NonPositiveViewport
            &&& a is NoViewport <==> b is NoViewport
            &&& a is ViewportSlots <==> b is ViewportSlots
        },
{
    reveal_strlit("vk_raster_unknown_ordinal");
    reveal_strlit("vk_raster_no_depth_clamp");
    reveal_strlit("vk_raster_no_non_solid_fill");
    reveal_strlit("vk_raster_out_of_range");
    reveal_strlit("vk_raster_no_wide_lines");
    reveal_strlit("vk_raster_line_width_out_of_range");
    reveal_strlit("vk_raster_non_positive_viewport");
    reveal_strlit("vk_raster_no_viewport");
    reveal_strlit("vk_raster_viewport_slots");
    assert("vk_raster_unknown_ordinal"@.len() == 25);
    assert("vk_raster_no_depth_clamp"@.len() == 24);
    assert("vk_raster_no_non_solid_fill"@.len() == 27);
    assert("vk_raster_out_of_range"@.len() == 22);
    assert("vk_raster_no_wide_lines"@.len() == 23);
    assert("vk_raster_line_width_out_of_range"@.len() == 33);
    assert("vk_raster_non_positive_viewport"@.len() == 31);
    assert("vk_raster_no_viewport"@.len() == 21);
    assert("vk_raster_viewport_slots"@.len() == 24);
    assert("vk_raster_no_depth_clamp"@[10] != "vk_raster_viewport_slots"@[10]);
}

/// An ordinal means one thing in both vocabularies: the cull masks and the
/// polygon modes have the ordinals' own numbers, the windings the opposite ones,
/// and depth is clamped by the second clip mode. Every other ordinal is refused
/// by name, and so is a mode the host lacks.
pub proof fn law_an_ordinal_keeps_its_meaning(
    ordinal: u64,
    cell: RasterCell,
    cull: Result<CullModeFlags, Refusal>,
    face: Result<FrontFace, Refusal>,
    clamp: Result<bool, Refusal>,
    fill: Result<PolygonMode, Refusal>,
)
    requires
        call_ensures(cull_mode, (ordinal,), cull),
        call_ensures(front_face, (ordinal,), face),
        call_ensures(depth_clamp, (ordinal, cell), clamp),
        call_ensures(polygon_mode, (ordinal, cell), fill),
    ensures
        cull is Ok <==> ordinal <= 2,
        cull matches Ok(mask) ==> mask == ordinal,
        cull matches Err(refused) ==> refused matches Refusal::UnknownOrdinal {
            state,
            ordinal: named,
        } && state@ == "cull_mode"@ && named == ordinal,
        face is Ok <==> ordinal <= 1,
        face matches Ok(face) ==> face.raw() == 1 - ordinal && (face is Clockwise <==> ordinal
            == MTL_WINDING_CLOCKWISE),
        face matches Err(refused) ==> refused matches Refusal::UnknownOrdinal {
            state,
            ordinal: named,
        } && state@ == "winding"@ && named == ordinal,
        clamp is Ok <==> ordinal == 0 || (ordinal == 1 && cell.depth_clamp),
        clamp matches Ok(clamps) ==> (clamps <==> ordinal == 1),
        ordinal == 1 && !cell.depth_clamp ==> clamp == Err::<bool, Refusal>(Refusal::NoDepthClamp),
        ordinal > 1 ==> clamp is Err && (clamp->Err_0 matches Refusal::UnknownOrdinal {
            state,
            ordinal: named,
        } && state@ == "depth_clip_mode"@ && named == ordinal),
        fill is Ok <==> ordinal == 0 || (ordinal == 1 && cell.fill_mode_non_solid),
        fill matches Ok(mode) ==> mode.raw() == ordinal,
        ordinal == 1 && !cell.fill_mode_non_solid ==> fill == Err::<PolygonMode, Refusal>(
            Refusal::NoNonSolidFill,
        ),
        ordinal > 1 ==> fill is Err && (fill->Err_0 matches Refusal::UnknownOrdinal {
            state,
            ordinal: named,
        } && state@ == "triangle_fill_mode"@ && named == ordinal),
{
}

/// A planned state does what the guest's four ordinals say, whichever half each
/// member is in: it culls, winds, fills and clamps by its own ordinal and by no
/// other. It is refused exactly where one of the four is.
pub proof fn law_a_plan_does_what_the_guest_set(
    guest: GuestRasterState,
    cell: RasterCell,
    answer: Result<Plan, Refusal>,
)
    requires
        call_ensures(plan, (guest, cell), answer),
    ensures
        answer is Ok <==> guest.cull_mode <= 2 && guest.winding <= 1 && (guest.depth_clip_mode == 0
            || (guest.depth_clip_mode == 1 && cell.depth_clamp)) && (guest.fill_mode == 0 || (
        guest.fill_mode == 1 && cell.fill_mode_non_solid)),
        answer matches Ok(made) ==> {
            let cull = match made.dynamic.cull_mode {
                Some(mask) => mask,
                None => made.state.cull_mode,
            };
            let face = match made.dynamic.front_face {
                Some(face) => face,
                None => made.state.front_face,
            };
            let fill = match made.dynamic.polygon_mode {
                Some(mode) => mode,
                None => made.state.polygon_mode,
            };
            let clamps = match made.dynamic.depth_clamp_enable {
                Some(clamps) => clamps,
                None => made.state.depth_clamp_enable,
            };
            &&& cull == guest.cull_mode
            &&& face.raw() == 1 - guest.winding
            &&& fill.raw() == guest.fill_mode
            &&& clamps <==> guest.depth_clip_mode == 1
            &&& made.dynamic.cull_mode is Some <==> cell.dynamic_cull_and_winding
            &&& made.dynamic.front_face is Some <==> cell.dynamic_cull_and_winding
            &&& made.dynamic.polygon_mode is Some <==> cell.dynamic_polygon_mode
            &&& made.dynamic.depth_clamp_enable is Some <==> cell.dynamic_depth_clamp
            &&& made.state.dynamic.cull_and_winding == cell.dynamic_cull_and_winding
            &&& made.state.dynamic.polygon_mode == cell.dynamic_polygon_mode
            &&& made.state.dynamic.depth_clamp_enable == cell.dynamic_depth_clamp
            &&& made.state.depth_bias_enable
        },
        answer matches Err(refused) ==> {
            ||| refused is NoDepthClamp && guest.depth_clip_mode == 1 && !cell.depth_clamp
            ||| refused is NoNonSolidFill && guest.fill_mode == 1 && !cell.fill_mode_non_solid
            ||| refused matches Refusal::UnknownOrdinal { state, ordinal } && {
                ||| state@ == "cull_mode"@ && ordinal == guest.cull_mode && ordinal > 2
                ||| state@ == "winding"@ && ordinal == guest.winding && ordinal > 1
                ||| state@ == "depth_clip_mode"@ && ordinal == guest.depth_clip_mode && ordinal > 1
                ||| state@ == "triangle_fill_mode"@ && ordinal == guest.fill_mode && ordinal > 1
            }
        },
{
}

/// A plan's polygon mode is the one in force, and the members a pipeline is
/// created with are the plan's own: rasterization is never discarded, the bias
/// starts at zero and lines at a width of one.
pub proof fn law_a_rasterizer_is_created_with_the_plans_members(
    made: Plan,
    mode: PolygonMode,
    native: NativeRasterization,
)
    requires
        call_ensures(Plan::polygon_mode, (made,), mode),
        call_ensures(RasterizationState::native, (made.state,), native),
    ensures
        made.dynamic.polygon_mode matches Some(supplied) ==> mode == supplied,
        made.dynamic.polygon_mode is None ==> mode == made.state.polygon_mode,
        native.depth_clamp_enable == 1 <==> made.state.depth_clamp_enable,
        native.depth_clamp_enable <= 1,
        native.rasterizer_discard_enable == 0,
        native.polygon_mode == made.state.polygon_mode,
        native.cull_mode == made.state.cull_mode,
        native.front_face == made.state.front_face,
        native.depth_bias_enable == 1 <==> made.state.depth_bias_enable,
        native.depth_bias_constant_factor == 0,
        native.depth_bias_clamp == 0,
        native.depth_bias_slope_factor == 0,
        native.line_width == SINGLE_ONE,
{
}

/// What a pipeline leaves to the encoder is what the host lets it: the bias and
/// the line width always, and each other state exactly where its own feature is
/// there.
pub proof fn law_declared_states_are_the_hosts(
    cell: RasterCell,
    dynamic: RasterDynamic,
    states: Vec<DynamicState>,
)
    requires
        call_ensures(RasterDynamic::of, (cell,), dynamic),
        call_ensures(RasterDynamic::states, (dynamic,), states),
    ensures
        dynamic.cull_and_winding == cell.dynamic_cull_and_winding,
        dynamic.polygon_mode == cell.dynamic_polygon_mode,
        dynamic.depth_clamp_enable == cell.dynamic_depth_clamp,
        states@.no_duplicates(),
        states@.contains(DynamicState::DepthBias),
        states@.contains(DynamicState::LineWidth),
        states@.contains(DynamicState::CullMode) <==> cell.dynamic_cull_and_winding,
        states@.contains(DynamicState::FrontFace) <==> cell.dynamic_cull_and_winding,
        states@.contains(DynamicState::PolygonMode) <==> cell.dynamic_polygon_mode,
        states@.contains(DynamicState::DepthClampEnable) <==> cell.dynamic_depth_clamp,
        states@.len() <= 6,
{
    law_declared_states_do_not_repeat(dynamic);
    let declared = dynamic.declared();
    let culling: int = if dynamic.cull_and_winding {
        2
    } else {
        0
    };
    let filling: int = if dynamic.polygon_mode {
        1
    } else {
        0
    };
    if dynamic.cull_and_winding {
        assert(declared[2] is CullMode && declared[3] is FrontFace);
    }
    if dynamic.polygon_mode {
        assert(declared[2 + culling] is PolygonMode);
    }
    if dynamic.depth_clamp_enable {
        assert(declared[2 + culling + filling] is DepthClampEnable);
    }
}

/// A draw rasterizes lines where it draws lines, or triangles in wireframe.
pub proof fn law_lines_come_from_lines_or_wireframes(
    mode: PolygonMode,
    class: TopologyClass,
    lines: bool,
)
    requires
        call_ensures(rasterizes_lines, (mode, class), lines),
    ensures
        class is Line ==> lines,
        class is Triangle ==> (lines <==> mode is Line),
        !(class is Line) && !(class is Triangle) ==> !lines,
{
}

/// A line is as wide as the guest set it, or one wide where it set nothing or
/// the draw has no lines. A width other than one is refused exactly where the
/// draw has lines and the host cannot draw that width, by the width and the
/// range.
pub proof fn law_a_line_is_as_wide_as_the_guest_set(
    guest: Option<u32>,
    draws_lines: bool,
    cell: LineWidthCell,
    answer: Result<u32, Refusal>,
)
    requires
        call_ensures(line_width, (guest, draws_lines, cell), answer),
    ensures
        ({
            let plain = !draws_lines || guest is None || guest == Some(SINGLE_ONE);
            let drawable = cell.wide_lines && (guest matches Some(width) && single_at_most(
                cell.range[0],
                width,
            ) && single_at_most(width, cell.range[1]));
            &&& plain ==> answer == Ok::<u32, Refusal>(SINGLE_ONE)
            &&& !plain && drawable ==> answer == Ok::<u32, Refusal>(guest->0)
            &&& !plain && !drawable ==> answer is Err
            &&& answer matches Err(refused) ==> {
                ||| !cell.wide_lines && refused == (Refusal::NoWideLines { width_bits: guest->0 })
                ||| cell.wide_lines && refused == (Refusal::LineWidthOutOfRange {
                    width_bits: guest->0,
                    min_bits: cell.range[0],
                    max_bits: cell.range[1],
                })
            }
        }),
{
}

/// A pipeline may declare as many viewports as it asks for where the host has
/// that many, and one wherever the host has any; it is refused by what it asked
/// for and the most the host would give.
pub proof fn law_viewports_are_given_up_to_the_limit(
    requested: u32,
    cell: ViewportCell,
    answer: Result<ViewportSlots, Refusal>,
    count: u32,
)
    requires
        call_ensures(viewport_slots, (requested, cell), answer),
        answer matches Ok(slots) ==> call_ensures(ViewportSlots::count, (slots,), count),
    ensures
        answer is Ok <==> 0 < requested <= cell.max_viewports && (requested == 1
            || cell.multi_viewport),
        answer is Ok ==> count == requested,
        requested == 0 ==> answer == Err::<ViewportSlots, Refusal>(Refusal::NoViewport),
        requested > 0 && answer is Err ==> answer->Err_0 == (Refusal::ViewportSlots {
            requested,
            limit: if requested > 1 && !cell.multi_viewport {
                1
            } else {
                cell.max_viewports
            },
            multi_viewport: cell.multi_viewport,
        }),
{
}

/// A viewport is the guest's own, turned over: as far right, as wide and as
/// deep, starting from its bottom edge and as high the other way. Each member is
/// the narrowing of its own double, and near and far keep their places.
pub proof fn law_a_viewport_is_the_guests_turned_over(
    guest: Viewport,
    native: vulkan::Viewport,
    bottom_edge: u64,
)
    requires
        call_ensures(viewport, (guest,), Ok::<vulkan::Viewport, Refusal>(native)),
        call_ensures(plus, (guest.origin_y_bits, guest.height_bits), bottom_edge),
    ensures
        native.x == narrowed(guest.origin_x_bits) as u32,
        native.y == narrowed(bottom_edge) as u32,
        native.width == narrowed(guest.width_bits) as u32,
        native.min_depth == narrowed(guest.z_near_bits) as u32,
        native.max_depth == narrowed(guest.z_far_bits) as u32,
        native.height >= SINGLE_SIGN,
        native.height - SINGLE_SIGN == narrowed(guest.height_bits) as u32,
        single_is_finite(native.x) && single_is_finite(native.y),
        single_is_finite(native.width) && place(native.width) > 0,
        single_is_finite(native.height) && place(native.height) < 0,
        single_is_finite(native.min_depth) && single_is_finite(native.max_depth),
{
    law_a_set_viewport_is_finite_and_flipped(guest);
}

/// A viewport is refused exactly where a member does not narrow to a finite
/// single or it has no area, by the member's name and the guest's own double.
pub proof fn law_a_viewport_is_refused_for_its_own_member(
    guest: Viewport,
    answer: Result<vulkan::Viewport, Refusal>,
    bottom_edge: u64,
)
    requires
        call_ensures(viewport, (guest,), answer),
        call_ensures(plus, (guest.origin_y_bits, guest.height_bits), bottom_edge),
    ensures
        ({
            let fits = |bits: u64| single_is_finite(narrowed(bits) as u32);
            let positive = |bits: u64| place(narrowed(bits) as u32) > 0;
            &&& answer is Ok <==> fits(guest.origin_x_bits) && fits(bottom_edge) && fits(
                guest.width_bits,
            ) && fits(guest.height_bits) && fits(guest.z_near_bits) && fits(guest.z_far_bits)
                && positive(guest.width_bits) && positive(guest.height_bits)
            &&& answer matches Err(Refusal::OutOfRange { field: name, value }) ==> !fits(value) && {
                ||| name@ == "origin_x"@ && value == guest.origin_x_bits
                ||| name@ == "origin_y"@ && value == bottom_edge
                ||| name@ == "width"@ && value == guest.width_bits
                ||| name@ == "height"@ && value == guest.height_bits
                ||| name@ == "z_near"@ && value == guest.z_near_bits
                ||| name@ == "z_far"@ && value == guest.z_far_bits
            }
            &&& answer matches Err(Refusal::NonPositiveViewport { width_bits, height_bits })
                ==> width_bits == guest.width_bits && height_bits == guest.height_bits && !(positive(
                width_bits,
            ) && positive(height_bits))
            &&& answer matches Err(refused) ==> refused is OutOfRange
                || refused is NonPositiveViewport
        }),
{
}

/// A scissor rectangle is the guest's own wherever it fits, and is refused by
/// the member that does not.
pub proof fn law_a_scissor_is_the_guests(guest: ScissorRect, answer: Result<Rect2D, Refusal>)
    requires
        call_ensures(scissor, (guest,), answer),
    ensures
        answer is Ok <==> guest.x <= i32::MAX && guest.y <= i32::MAX && guest.width <= u32::MAX
            && guest.height <= u32::MAX,
        answer matches Ok(rect) ==> rect.offset.x == guest.x && rect.offset.y == guest.y
            && rect.extent.width == guest.width && rect.extent.height == guest.height,
        answer matches Err(refused) ==> refused matches Refusal::OutOfRange { field: name, value }
            && {
            ||| name@ == "x"@ && value == guest.x && value > i32::MAX
            ||| name@ == "y"@ && value == guest.y && value > i32::MAX
            ||| name@ == "width"@ && value == guest.width && value > u32::MAX
            ||| name@ == "height"@ && value == guest.height && value > u32::MAX
        },
{
}

/// Of several ordinals at fault the first in order is named: culling, then
/// winding, then clipping, then filling.
pub proof fn law_the_first_ordinal_at_fault_is_named(
    guest: GuestRasterState,
    cell: RasterCell,
    answer: Result<Plan, Refusal>,
    cull: Result<CullModeFlags, Refusal>,
    face: Result<FrontFace, Refusal>,
    clamp: Result<bool, Refusal>,
    fill: Result<PolygonMode, Refusal>,
)
    requires
        call_ensures(plan, (guest, cell), answer),
        call_ensures(cull_mode, (guest.cull_mode,), cull),
        call_ensures(front_face, (guest.winding,), face),
        call_ensures(depth_clamp, (guest.depth_clip_mode, cell), clamp),
        call_ensures(polygon_mode, (guest.fill_mode, cell), fill),
    ensures
        cull is Err ==> answer == Err::<Plan, Refusal>(cull->Err_0),
        cull is Ok && face is Err ==> answer == Err::<Plan, Refusal>(face->Err_0),
        cull is Ok && face is Ok && clamp is Err ==> answer == Err::<Plan, Refusal>(clamp->Err_0),
        cull is Ok && face is Ok && clamp is Ok && fill is Err ==> answer == Err::<Plan, Refusal>(
            fill->Err_0,
        ),
{
}

/// Of several members of a viewport or a scissor at fault the first in order is
/// named, and a viewport with no area is named only where every member fits.
pub proof fn law_the_first_member_at_fault_is_named(
    guest: Viewport,
    answer: Result<vulkan::Viewport, Refusal>,
    bottom_edge: u64,
    rect: ScissorRect,
    clipped: Result<Rect2D, Refusal>,
)
    requires
        call_ensures(viewport, (guest,), answer),
        call_ensures(plus, (guest.origin_y_bits, guest.height_bits), bottom_edge),
        call_ensures(scissor, (rect,), clipped),
    ensures
        ({
            let fits = |bits: u64| single_is_finite(narrowed(bits) as u32);
            let x = fits(guest.origin_x_bits);
            let y = x && fits(bottom_edge);
            let width = y && fits(guest.width_bits);
            let height = width && fits(guest.height_bits);
            let near = height && fits(guest.z_near_bits);
            let far = near && fits(guest.z_far_bits);
            &&& !x ==> answer == Err::<vulkan::Viewport, Refusal>(
                Refusal::OutOfRange { field: "origin_x", value: guest.origin_x_bits },
            )
            &&& x && !y ==> answer == Err::<vulkan::Viewport, Refusal>(
                Refusal::OutOfRange { field: "origin_y", value: bottom_edge },
            )
            &&& y && !width ==> answer == Err::<vulkan::Viewport, Refusal>(
                Refusal::OutOfRange { field: "width", value: guest.width_bits },
            )
            &&& width && !height ==> answer == Err::<vulkan::Viewport, Refusal>(
                Refusal::OutOfRange { field: "height", value: guest.height_bits },
            )
            &&& height && !near ==> answer == Err::<vulkan::Viewport, Refusal>(
                Refusal::OutOfRange { field: "z_near", value: guest.z_near_bits },
            )
            &&& near && !far ==> answer == Err::<vulkan::Viewport, Refusal>(
                Refusal::OutOfRange { field: "z_far", value: guest.z_far_bits },
            )
            &&& far && answer is Err ==> answer == Err::<vulkan::Viewport, Refusal>(
                Refusal::NonPositiveViewport {
                    width_bits: guest.width_bits,
                    height_bits: guest.height_bits,
                },
            )
        }),
        rect.x > i32::MAX ==> clipped == Err::<Rect2D, Refusal>(
            Refusal::OutOfRange { field: "x", value: rect.x },
        ),
        rect.x <= i32::MAX && rect.y > i32::MAX ==> clipped == Err::<Rect2D, Refusal>(
            Refusal::OutOfRange { field: "y", value: rect.y },
        ),
        rect.x <= i32::MAX && rect.y <= i32::MAX && rect.width > u32::MAX ==> clipped == Err::<
            Rect2D,
            Refusal,
        >(Refusal::OutOfRange { field: "width", value: rect.width }),
{
}

} // verus!
