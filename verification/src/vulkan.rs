//! The part of Vulkan's vocabulary that planning speaks.
//!
//! Enumerations are enums of their own and flag sets are words; every value is
//! the one Vulkan gives it.

use vstd::prelude::*;

pub mod access;
pub mod access2;
pub mod buffer_usage;
pub mod color_component;
pub mod cull_mode;
pub mod image_create;
pub mod image_usage;
pub mod stage;
pub mod stage2;
pub mod queue;
pub mod sample_count;

verus! {

/// Accesses of a legacy barrier. The bits are in [`access`].
pub type AccessFlags = u32;

/// Accesses of a barrier. The bits are in [`access2`].
pub type AccessFlags2 = u64;

/// What a buffer may be used for. The bits are in [`buffer_usage`].
pub type BufferUsageFlags = u32;

/// The components a draw writes. The bits are in [`color_component`].
pub type ColorComponentFlags = u32;

/// The faces a rasterizer drops. The bits are in [`cull_mode`].
pub type CullModeFlags = u32;

/// What an image may be viewed as. The bits are in [`image_create`].
pub type ImageCreateFlags = u32;

/// What an image may be used for. The bits are in [`image_usage`].
pub type ImageUsageFlags = u32;

/// Stages of a legacy barrier. The bits are in [`stage`].
pub type PipelineStageFlags = u32;

/// Stages of a barrier. The bits are in [`stage2`].
pub type PipelineStageFlags2 = u64;

/// What a queue family can do. The bits are in [`queue`].
pub type QueueFlags = u32;

/// Samples per texel. The bits are in [`sample_count`].
pub type SampleCountFlags = u32;

/// A `VkFormat`, by its value.
#[derive(Clone, Copy, Debug, PartialEq, Eq, Hash, Structural)]
pub struct Format(pub i32);

/// Two dimensions.
#[derive(Clone, Copy, Debug, PartialEq, Eq, Hash, Structural)]
pub struct Extent2D {
    pub width: u32,
    pub height: u32,
}

/// Three dimensions.
#[derive(Clone, Copy, Debug, PartialEq, Eq, Hash, Structural)]
pub struct Extent3D {
    pub width: u32,
    pub height: u32,
    pub depth: u32,
}

/// A corner.
#[derive(Clone, Copy, Debug, PartialEq, Eq, Hash, Structural)]
pub struct Offset2D {
    pub x: i32,
    pub y: i32,
}

/// A rectangle.
#[derive(Clone, Copy, Debug, PartialEq, Eq, Hash, Structural)]
pub struct Rect2D {
    pub offset: Offset2D,
    pub extent: Extent2D,
}

/// A `VkBool32` that is set.
pub const TRUE: u32 = 1;

/// A `VkBool32` that is clear.
pub const FALSE: u32 = 0;

/// A boolean as a `VkBool32`.
pub open spec fn bool32(value: bool) -> u32 {
    if value {
        TRUE
    } else {
        FALSE
    }
}

/// A boolean as a `VkBool32`.
#[must_use]
pub fn as_bool32(value: bool) -> (word: u32)
    ensures
        word == bool32(value),
{
    if value {
        TRUE
    } else {
        FALSE
    }
}

/// A viewport, each field as the bit pattern of its single.
#[derive(Clone, Copy, Debug, PartialEq, Eq, Hash, Structural)]
pub struct Viewport {
    pub x: u32,
    pub y: u32,
    pub width: u32,
    pub height: u32,
    pub min_depth: u32,
    pub max_depth: u32,
}

/// What a pass does to an attachment before it draws.
#[derive(Clone, Copy, Debug, PartialEq, Eq, Hash, Structural)]
pub enum AttachmentLoadOp {
    Load,
    Clear,
    DontCare,
}

impl AttachmentLoadOp {
    /// The value Vulkan gives it.
    pub open spec fn raw(self) -> i32 {
        match self {
            AttachmentLoadOp::Load => 0,
            AttachmentLoadOp::Clear => 1,
            AttachmentLoadOp::DontCare => 2,
        }
    }

    /// The value Vulkan gives it.
    #[must_use]
    pub fn as_raw(self) -> (raw: i32)
        ensures
            raw == self.raw(),
    {
        match self {
            AttachmentLoadOp::Load => 0,
            AttachmentLoadOp::Clear => 1,
            AttachmentLoadOp::DontCare => 2,
        }
    }
}

/// What a pass does to an attachment after it draws.
#[derive(Clone, Copy, Debug, PartialEq, Eq, Hash, Structural)]
pub enum AttachmentStoreOp {
    Store,
    DontCare,
}

impl AttachmentStoreOp {
    /// The value Vulkan gives it.
    pub open spec fn raw(self) -> i32 {
        match self {
            AttachmentStoreOp::Store => 0,
            AttachmentStoreOp::DontCare => 1,
        }
    }

    /// The value Vulkan gives it.
    #[must_use]
    pub fn as_raw(self) -> (raw: i32)
        ensures
            raw == self.raw(),
    {
        match self {
            AttachmentStoreOp::Store => 0,
            AttachmentStoreOp::DontCare => 1,
        }
    }
}

/// A `VkBlendFactor`.
#[derive(Clone, Copy, Debug, PartialEq, Eq, Hash, Structural)]
pub enum BlendFactor {
    Zero,
    One,
    SrcColor,
    OneMinusSrcColor,
    DstColor,
    OneMinusDstColor,
    SrcAlpha,
    OneMinusSrcAlpha,
    DstAlpha,
    OneMinusDstAlpha,
    ConstantColor,
    OneMinusConstantColor,
    ConstantAlpha,
    OneMinusConstantAlpha,
    SrcAlphaSaturate,
    Src1Color,
    OneMinusSrc1Color,
    Src1Alpha,
    OneMinusSrc1Alpha,
}

impl BlendFactor {
    /// The value Vulkan gives it.
    pub open spec fn raw(self) -> i32 {
        match self {
            BlendFactor::Zero => 0,
            BlendFactor::One => 1,
            BlendFactor::SrcColor => 2,
            BlendFactor::OneMinusSrcColor => 3,
            BlendFactor::DstColor => 4,
            BlendFactor::OneMinusDstColor => 5,
            BlendFactor::SrcAlpha => 6,
            BlendFactor::OneMinusSrcAlpha => 7,
            BlendFactor::DstAlpha => 8,
            BlendFactor::OneMinusDstAlpha => 9,
            BlendFactor::ConstantColor => 10,
            BlendFactor::OneMinusConstantColor => 11,
            BlendFactor::ConstantAlpha => 12,
            BlendFactor::OneMinusConstantAlpha => 13,
            BlendFactor::SrcAlphaSaturate => 14,
            BlendFactor::Src1Color => 15,
            BlendFactor::OneMinusSrc1Color => 16,
            BlendFactor::Src1Alpha => 17,
            BlendFactor::OneMinusSrc1Alpha => 18,
        }
    }

    /// The value Vulkan gives it.
    #[must_use]
    pub fn as_raw(self) -> (raw: i32)
        ensures
            raw == self.raw(),
    {
        match self {
            BlendFactor::Zero => 0,
            BlendFactor::One => 1,
            BlendFactor::SrcColor => 2,
            BlendFactor::OneMinusSrcColor => 3,
            BlendFactor::DstColor => 4,
            BlendFactor::OneMinusDstColor => 5,
            BlendFactor::SrcAlpha => 6,
            BlendFactor::OneMinusSrcAlpha => 7,
            BlendFactor::DstAlpha => 8,
            BlendFactor::OneMinusDstAlpha => 9,
            BlendFactor::ConstantColor => 10,
            BlendFactor::OneMinusConstantColor => 11,
            BlendFactor::ConstantAlpha => 12,
            BlendFactor::OneMinusConstantAlpha => 13,
            BlendFactor::SrcAlphaSaturate => 14,
            BlendFactor::Src1Color => 15,
            BlendFactor::OneMinusSrc1Color => 16,
            BlendFactor::Src1Alpha => 17,
            BlendFactor::OneMinusSrc1Alpha => 18,
        }
    }
}

/// A `VkBlendOp`.
#[derive(Clone, Copy, Debug, PartialEq, Eq, Hash, Structural)]
pub enum BlendOp {
    Add,
    Subtract,
    ReverseSubtract,
    Min,
    Max,
}

impl BlendOp {
    /// The value Vulkan gives it.
    pub open spec fn raw(self) -> i32 {
        match self {
            BlendOp::Add => 0,
            BlendOp::Subtract => 1,
            BlendOp::ReverseSubtract => 2,
            BlendOp::Min => 3,
            BlendOp::Max => 4,
        }
    }

    /// The value Vulkan gives it.
    #[must_use]
    pub fn as_raw(self) -> (raw: i32)
        ensures
            raw == self.raw(),
    {
        match self {
            BlendOp::Add => 0,
            BlendOp::Subtract => 1,
            BlendOp::ReverseSubtract => 2,
            BlendOp::Min => 3,
            BlendOp::Max => 4,
        }
    }
}

/// A `VkCompareOp`.
#[derive(Clone, Copy, Debug, PartialEq, Eq, Hash, Structural)]
pub enum CompareOp {
    Never,
    Less,
    Equal,
    LessOrEqual,
    Greater,
    NotEqual,
    GreaterOrEqual,
    Always,
}

impl CompareOp {
    /// The value Vulkan gives it.
    pub open spec fn raw(self) -> i32 {
        match self {
            CompareOp::Never => 0,
            CompareOp::Less => 1,
            CompareOp::Equal => 2,
            CompareOp::LessOrEqual => 3,
            CompareOp::Greater => 4,
            CompareOp::NotEqual => 5,
            CompareOp::GreaterOrEqual => 6,
            CompareOp::Always => 7,
        }
    }

    /// The value Vulkan gives it.
    #[must_use]
    pub fn as_raw(self) -> (raw: i32)
        ensures
            raw == self.raw(),
    {
        match self {
            CompareOp::Never => 0,
            CompareOp::Less => 1,
            CompareOp::Equal => 2,
            CompareOp::LessOrEqual => 3,
            CompareOp::Greater => 4,
            CompareOp::NotEqual => 5,
            CompareOp::GreaterOrEqual => 6,
            CompareOp::Always => 7,
        }
    }
}

/// A `VkDynamicState`.
#[derive(Clone, Copy, Debug, PartialEq, Eq, Hash, Structural)]
pub enum DynamicState {
    LineWidth,
    DepthBias,
    StencilCompareMask,
    StencilWriteMask,
    StencilReference,
    CullMode,
    FrontFace,
    DepthTestEnable,
    DepthWriteEnable,
    DepthCompareOp,
    DepthBoundsTestEnable,
    StencilTestEnable,
    StencilOp,
    DepthClampEnable,
    PolygonMode,
}

impl DynamicState {
    /// The value Vulkan gives it.
    pub open spec fn raw(self) -> i32 {
        match self {
            DynamicState::LineWidth => 2,
            DynamicState::DepthBias => 3,
            DynamicState::StencilCompareMask => 6,
            DynamicState::StencilWriteMask => 7,
            DynamicState::StencilReference => 8,
            DynamicState::CullMode => 1000267000,
            DynamicState::FrontFace => 1000267001,
            DynamicState::DepthTestEnable => 1000267006,
            DynamicState::DepthWriteEnable => 1000267007,
            DynamicState::DepthCompareOp => 1000267008,
            DynamicState::DepthBoundsTestEnable => 1000267009,
            DynamicState::StencilTestEnable => 1000267010,
            DynamicState::StencilOp => 1000267011,
            DynamicState::DepthClampEnable => 1000455003,
            DynamicState::PolygonMode => 1000455004,
        }
    }

    /// The value Vulkan gives it.
    #[must_use]
    pub fn as_raw(self) -> (raw: i32)
        ensures
            raw == self.raw(),
    {
        match self {
            DynamicState::LineWidth => 2,
            DynamicState::DepthBias => 3,
            DynamicState::StencilCompareMask => 6,
            DynamicState::StencilWriteMask => 7,
            DynamicState::StencilReference => 8,
            DynamicState::CullMode => 1000267000,
            DynamicState::FrontFace => 1000267001,
            DynamicState::DepthTestEnable => 1000267006,
            DynamicState::DepthWriteEnable => 1000267007,
            DynamicState::DepthCompareOp => 1000267008,
            DynamicState::DepthBoundsTestEnable => 1000267009,
            DynamicState::StencilTestEnable => 1000267010,
            DynamicState::StencilOp => 1000267011,
            DynamicState::DepthClampEnable => 1000455003,
            DynamicState::PolygonMode => 1000455004,
        }
    }
}

/// Which winding faces the viewer.
#[derive(Clone, Copy, Debug, PartialEq, Eq, Hash, Structural)]
pub enum FrontFace {
    CounterClockwise,
    Clockwise,
}

impl FrontFace {
    /// The value Vulkan gives it.
    pub open spec fn raw(self) -> i32 {
        match self {
            FrontFace::CounterClockwise => 0,
            FrontFace::Clockwise => 1,
        }
    }

    /// The value Vulkan gives it.
    #[must_use]
    pub fn as_raw(self) -> (raw: i32)
        ensures
            raw == self.raw(),
    {
        match self {
            FrontFace::CounterClockwise => 0,
            FrontFace::Clockwise => 1,
        }
    }
}

/// A `VkImageLayout`.
#[derive(Clone, Copy, Debug, PartialEq, Eq, Hash, Structural)]
pub enum ImageLayout {
    Undefined,
    General,
    ColorAttachmentOptimal,
    DepthStencilAttachmentOptimal,
    DepthStencilReadOnlyOptimal,
    ShaderReadOnlyOptimal,
    TransferSrcOptimal,
    TransferDstOptimal,
    PresentSrc,
}

impl ImageLayout {
    /// The value Vulkan gives it.
    pub open spec fn raw(self) -> i32 {
        match self {
            ImageLayout::Undefined => 0,
            ImageLayout::General => 1,
            ImageLayout::ColorAttachmentOptimal => 2,
            ImageLayout::DepthStencilAttachmentOptimal => 3,
            ImageLayout::DepthStencilReadOnlyOptimal => 4,
            ImageLayout::ShaderReadOnlyOptimal => 5,
            ImageLayout::TransferSrcOptimal => 6,
            ImageLayout::TransferDstOptimal => 7,
            ImageLayout::PresentSrc => 1000001002,
        }
    }

    /// The value Vulkan gives it.
    #[must_use]
    pub fn as_raw(self) -> (raw: i32)
        ensures
            raw == self.raw(),
    {
        match self {
            ImageLayout::Undefined => 0,
            ImageLayout::General => 1,
            ImageLayout::ColorAttachmentOptimal => 2,
            ImageLayout::DepthStencilAttachmentOptimal => 3,
            ImageLayout::DepthStencilReadOnlyOptimal => 4,
            ImageLayout::ShaderReadOnlyOptimal => 5,
            ImageLayout::TransferSrcOptimal => 6,
            ImageLayout::TransferDstOptimal => 7,
            ImageLayout::PresentSrc => 1000001002,
        }
    }
}

/// How an image's texels are laid out.
#[derive(Clone, Copy, Debug, PartialEq, Eq, Hash, Structural)]
pub enum ImageTiling {
    Optimal,
    Linear,
}

impl ImageTiling {
    /// The value Vulkan gives it.
    pub open spec fn raw(self) -> i32 {
        match self {
            ImageTiling::Optimal => 0,
            ImageTiling::Linear => 1,
        }
    }

    /// The value Vulkan gives it.
    #[must_use]
    pub fn as_raw(self) -> (raw: i32)
        ensures
            raw == self.raw(),
    {
        match self {
            ImageTiling::Optimal => 0,
            ImageTiling::Linear => 1,
        }
    }
}

/// How many dimensions an image has.
#[derive(Clone, Copy, Debug, PartialEq, Eq, Hash, Structural)]
pub enum ImageType {
    OneDimensional,
    TwoDimensional,
    ThreeDimensional,
}

impl ImageType {
    /// The value Vulkan gives it.
    pub open spec fn raw(self) -> i32 {
        match self {
            ImageType::OneDimensional => 0,
            ImageType::TwoDimensional => 1,
            ImageType::ThreeDimensional => 2,
        }
    }

    /// The value Vulkan gives it.
    #[must_use]
    pub fn as_raw(self) -> (raw: i32)
        ensures
            raw == self.raw(),
    {
        match self {
            ImageType::OneDimensional => 0,
            ImageType::TwoDimensional => 1,
            ImageType::ThreeDimensional => 2,
        }
    }
}

/// A `VkPhysicalDeviceType`.
#[derive(Clone, Copy, Debug, PartialEq, Eq, Hash, Structural)]
pub enum PhysicalDeviceType {
    Other,
    IntegratedGpu,
    DiscreteGpu,
    VirtualGpu,
    Cpu,
}

impl PhysicalDeviceType {
    /// The value Vulkan gives it.
    pub open spec fn raw(self) -> i32 {
        match self {
            PhysicalDeviceType::Other => 0,
            PhysicalDeviceType::IntegratedGpu => 1,
            PhysicalDeviceType::DiscreteGpu => 2,
            PhysicalDeviceType::VirtualGpu => 3,
            PhysicalDeviceType::Cpu => 4,
        }
    }

    /// The value Vulkan gives it.
    #[must_use]
    pub fn as_raw(self) -> (raw: i32)
        ensures
            raw == self.raw(),
    {
        match self {
            PhysicalDeviceType::Other => 0,
            PhysicalDeviceType::IntegratedGpu => 1,
            PhysicalDeviceType::DiscreteGpu => 2,
            PhysicalDeviceType::VirtualGpu => 3,
            PhysicalDeviceType::Cpu => 4,
        }
    }
}

/// How a polygon is rasterized.
#[derive(Clone, Copy, Debug, PartialEq, Eq, Hash, Structural)]
pub enum PolygonMode {
    Fill,
    Line,
}

impl PolygonMode {
    /// The value Vulkan gives it.
    pub open spec fn raw(self) -> i32 {
        match self {
            PolygonMode::Fill => 0,
            PolygonMode::Line => 1,
        }
    }

    /// The value Vulkan gives it.
    #[must_use]
    pub fn as_raw(self) -> (raw: i32)
        ensures
            raw == self.raw(),
    {
        match self {
            PolygonMode::Fill => 0,
            PolygonMode::Line => 1,
        }
    }
}

/// Whether one queue family owns a resource at a time.
#[derive(Clone, Copy, Debug, PartialEq, Eq, Hash, Structural)]
pub enum SharingMode {
    Exclusive,
    Concurrent,
}

impl SharingMode {
    /// The value Vulkan gives it.
    pub open spec fn raw(self) -> i32 {
        match self {
            SharingMode::Exclusive => 0,
            SharingMode::Concurrent => 1,
        }
    }

    /// The value Vulkan gives it.
    #[must_use]
    pub fn as_raw(self) -> (raw: i32)
        ensures
            raw == self.raw(),
    {
        match self {
            SharingMode::Exclusive => 0,
            SharingMode::Concurrent => 1,
        }
    }
}

/// A `VkStencilOp`.
#[derive(Clone, Copy, Debug, PartialEq, Eq, Hash, Structural)]
pub enum StencilOp {
    Keep,
    Zero,
    Replace,
    IncrementAndClamp,
    DecrementAndClamp,
    Invert,
    IncrementAndWrap,
    DecrementAndWrap,
}

impl StencilOp {
    /// The value Vulkan gives it.
    pub open spec fn raw(self) -> i32 {
        match self {
            StencilOp::Keep => 0,
            StencilOp::Zero => 1,
            StencilOp::Replace => 2,
            StencilOp::IncrementAndClamp => 3,
            StencilOp::DecrementAndClamp => 4,
            StencilOp::Invert => 5,
            StencilOp::IncrementAndWrap => 6,
            StencilOp::DecrementAndWrap => 7,
        }
    }

    /// The value Vulkan gives it.
    #[must_use]
    pub fn as_raw(self) -> (raw: i32)
        ensures
            raw == self.raw(),
    {
        match self {
            StencilOp::Keep => 0,
            StencilOp::Zero => 1,
            StencilOp::Replace => 2,
            StencilOp::IncrementAndClamp => 3,
            StencilOp::DecrementAndClamp => 4,
            StencilOp::Invert => 5,
            StencilOp::IncrementAndWrap => 6,
            StencilOp::DecrementAndWrap => 7,
        }
    }
}

} // verus!
