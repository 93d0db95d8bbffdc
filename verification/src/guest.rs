//! What the guest says: identities, bindings and the encoder's own records.

use vstd::prelude::*;

verus! {

/// A slot of the guest's object list.
#[derive(Clone, Copy, Debug, PartialEq, Eq, Hash, Structural)]
pub struct ObjectListRef(pub u32);

/// How many times an object-list slot has been reused.
#[derive(Clone, Copy, Debug, PartialEq, Eq, Hash, Structural)]
pub struct SlotGeneration(pub u64);

/// One resource, told apart from every other that ever occupied its slot.
#[derive(Clone, Copy, Debug, PartialEq, Eq, Hash, Structural)]
pub struct ResourceId {
    pub slot: ObjectListRef,
    pub generation: SlotGeneration,
}

/// A point on a queue's timeline.
#[derive(Clone, Copy, Debug, PartialEq, Eq, PartialOrd, Ord, Hash, Structural)]
pub struct TimelinePoint(pub u64);

impl TimelinePoint {
    /// Whether a timeline that stands at this point has passed `at`.
    #[must_use]
    pub fn reached(self, at: TimelinePoint) -> (passed: bool)
        ensures
            passed == (self.0 >= at.0),
    {
        self.0 >= at.0
    }
}

/// One of the executor's fixed population of workers.
#[derive(Clone, Copy, Debug, PartialEq, Eq, Hash, Structural)]
pub struct WorkerId(pub u16);

/// An operator's setting of one switch.
#[derive(Clone, Copy, Debug, PartialEq, Eq, Structural)]
pub enum Switch {
    /// The operator said nothing.
    Unset,
    On,
    Off,
}

/// A buffer bound to an argument slot.
#[derive(Clone, Copy, Debug, PartialEq, Eq, Hash, Structural)]
pub struct BufferBinding {
    pub buffer: Option<ResourceId>,
    pub offset: u64,
    pub stride: Option<u64>,
}

/// The level-of-detail clamps of a sampler binding, as the bit patterns of the
/// two single-precision values.
#[derive(Clone, Copy, Debug, PartialEq, Eq, Hash, Structural)]
pub struct LodClamps {
    pub min: u32,
    pub max: u32,
}

/// A texture or a sampler bound to an argument slot.
#[derive(Clone, Copy, Debug, PartialEq, Eq, Hash, Structural)]
pub struct ObjectBinding {
    pub object: Option<ResourceId>,
    pub lod_clamps: Option<LodClamps>,
}

/// `MTLRenderStages`, as the record carried it.
///
/// Undeclared bits stay representable so that a request can be refused by name
/// rather than masked into one the device is sure it understood.
#[derive(Clone, Copy, Debug, PartialEq, Eq, Structural)]
pub struct RenderStages(pub u32);

impl RenderStages {
    pub const VERTEX: u32 = 1;

    pub const FRAGMENT: u32 = 2;

    pub const TILE: u32 = 4;

    pub const OBJECT: u32 = 8;

    pub const MESH: u32 = 16;

    /// Every declared stage.
    pub const DECLARED: u32 = 31;

    /// The bits the API does not declare.
    #[must_use]
    pub fn undeclared_bits(self) -> (bits: u32)
        ensures
            bits == self.0 & !RenderStages::DECLARED,
    {
        self.0 & !RenderStages::DECLARED
    }
}

/// `MTLBarrierScope`, as the record carried it.
#[derive(Clone, Copy, Debug, PartialEq, Eq, Structural)]
pub struct BarrierScope(pub u32);

impl BarrierScope {
    pub const BUFFERS: u32 = 1;

    pub const TEXTURES: u32 = 2;

    pub const RENDER_TARGETS: u32 = 4;

    /// Every declared scope.
    pub const DECLARED: u32 = 7;

    /// The bits the API does not declare.
    #[must_use]
    pub fn undeclared_bits(self) -> (bits: u32)
        ensures
            bits == self.0 & !BarrierScope::DECLARED,
    {
        self.0 & !BarrierScope::DECLARED
    }
}

/// A window into a transaction's own resource list.
#[derive(Clone, Copy, Debug, PartialEq, Eq, Structural)]
pub struct ResourceSpan {
    pub start: u32,
    pub len: u32,
}

/// What a barrier orders.
#[derive(Clone, Copy, Debug, PartialEq, Eq, Structural)]
pub enum BarrierTarget {
    /// A scope of memory.
    Scope(BarrierScope),
    /// A listed set of resources.
    Resources(ResourceSpan),
    /// The pass's own attachments: `textureBarrier`.
    Texture,
}

/// One declared barrier.
#[derive(Clone, Copy, Debug, PartialEq, Eq, Structural)]
pub struct BarrierOp {
    pub target: BarrierTarget,
    /// What has to finish. `None` where the record carries no stages at all.
    pub after_stages: Option<RenderStages>,
    /// What may then proceed.
    pub before_stages: Option<RenderStages>,
}

impl BarrierOp {
    /// Whether the record names anything to order.
    pub open spec fn names_anything(self) -> bool {
        match self.target {
            BarrierTarget::Scope(scope) => scope.0 != 0,
            BarrierTarget::Resources(span) => span.len != 0,
            BarrierTarget::Texture => true,
        }
    }

    /// Whether the record names anything to order.
    #[must_use]
    pub fn orders_anything(&self) -> (ordered: bool)
        ensures
            ordered == self.names_anything(),
    {
        match self.target {
            BarrierTarget::Scope(scope) => scope.0 != 0,
            BarrierTarget::Resources(span) => span.len != 0,
            BarrierTarget::Texture => true,
        }
    }
}

/// `MTLLoadAction`.
#[derive(Clone, Copy, Debug, PartialEq, Eq, Structural)]
pub enum LoadAction {
    DontCare,
    Load,
    Clear,
}

/// `MTLStoreAction`.
#[derive(Clone, Copy, Debug, PartialEq, Eq, Structural)]
pub enum StoreAction {
    DontCare,
    Store,
    MultisampleResolve,
    StoreAndMultisampleResolve,
}

impl StoreAction {
    /// The action writes a resolve target.
    pub open spec fn is_resolving(self) -> bool {
        self is MultisampleResolve || self is StoreAndMultisampleResolve
    }

    /// Whether the action writes a resolve target.
    #[must_use]
    pub fn resolves(self) -> (resolves: bool)
        ensures
            resolves == self.is_resolving(),
    {
        matches!(
            self,
            StoreAction::MultisampleResolve | StoreAction::StoreAndMultisampleResolve
        )
    }
}

/// Which slot of a render-pass descriptor an attachment stands in.
#[derive(Clone, Copy, Debug, PartialEq, Eq, Structural)]
pub enum AttachmentSlot {
    Color(u8),
    Depth,
    Stencil,
}

/// The level and the slice of one attached subresource.
#[derive(Clone, Copy, Debug, PartialEq, Eq, Structural)]
pub struct SubresourceRange {
    pub base_level: u32,
    pub base_slice: u32,
}

/// One slot of a render-pass descriptor.
#[derive(Clone, Copy, Debug, PartialEq, Eq)]
pub struct Attachment {
    pub slot: AttachmentSlot,
    /// `None` where the slot is empty.
    pub texture: Option<ResourceId>,
    pub level: u16,
    pub slice: u16,
    pub depth_plane: u16,
    pub resolve_texture: Option<ResourceId>,
    pub resolve_level: u16,
    pub resolve_slice: u16,
    pub resolve_depth_plane: u16,
    pub load: LoadAction,
    pub store: StoreAction,
    /// The clear value as the record carried it: four doubles for a colour
    /// slot, one double for depth, a word for stencil.
    pub clear_bits: [u64; 4],
}

impl Attachment {
    /// An empty slot that loads and stores nothing.
    #[must_use]
    pub fn empty(slot: AttachmentSlot) -> (attachment: Self)
        ensures
            attachment.slot == slot,
            attachment.texture is None,
            attachment.level == 0,
            attachment.slice == 0,
            attachment.depth_plane == 0,
            attachment.resolve_texture is None,
            attachment.resolve_level == 0,
            attachment.resolve_slice == 0,
            attachment.resolve_depth_plane == 0,
            attachment.load is DontCare,
            attachment.store is DontCare,
            attachment.clear_bits@ == seq![0u64, 0u64, 0u64, 0u64],
    {
        let attachment = Attachment {
            slot,
            texture: None,
            level: 0,
            slice: 0,
            depth_plane: 0,
            resolve_texture: None,
            resolve_level: 0,
            resolve_slice: 0,
            resolve_depth_plane: 0,
            load: LoadAction::DontCare,
            store: StoreAction::DontCare,
            clear_bits: [0, 0, 0, 0],
        };
        assert(attachment.clear_bits@ =~= seq![0u64, 0u64, 0u64, 0u64]);
        attachment
    }

    /// The subresource the attachment names. The array slice and the depth
    /// plane are the same axis, and only one of the two is non-zero for a given
    /// texture.
    pub open spec fn attached(self) -> SubresourceRange {
        SubresourceRange {
            base_level: self.level as u32,
            base_slice: (self.slice + self.depth_plane) as u32,
        }
    }

    /// The subresource the resolve target receives.
    pub open spec fn resolved(self) -> SubresourceRange {
        SubresourceRange {
            base_level: self.resolve_level as u32,
            base_slice: (self.resolve_slice + self.resolve_depth_plane) as u32,
        }
    }

    /// The subresource the attachment names.
    #[must_use]
    pub fn subresource(&self) -> (range: SubresourceRange)
        ensures
            range == self.attached(),
    {
        SubresourceRange {
            base_level: self.level as u32,
            base_slice: self.slice as u32 + self.depth_plane as u32,
        }
    }

    /// The subresource the resolve target receives.
    #[must_use]
    pub fn resolve_subresource(&self) -> (range: SubresourceRange)
        ensures
            range == self.resolved(),
    {
        SubresourceRange {
            base_level: self.resolve_level as u32,
            base_slice: self.resolve_slice as u32 + self.resolve_depth_plane as u32,
        }
    }

    /// The four doubles of a colour slot's clear value.
    #[must_use]
    pub fn clear_color(&self) -> (components: Option<[u64; 4]>)
        ensures
            components == if self.slot is Color {
                Some(self.clear_bits)
            } else {
                None
            },
    {
        match self.slot {
            AttachmentSlot::Color(_) => Some(self.clear_bits),
            _ => None,
        }
    }

    /// The double of a depth slot's clear value.
    #[must_use]
    pub fn clear_depth(&self) -> (value: Option<u64>)
        ensures
            value == if self.slot is Depth {
                Some(self.clear_bits[0])
            } else {
                None
            },
    {
        match self.slot {
            AttachmentSlot::Depth => Some(self.clear_bits[0]),
            _ => None,
        }
    }

    /// The low word of a stencil slot's clear value.
    #[must_use]
    pub fn clear_stencil(&self) -> (value: Option<u32>)
        ensures
            value == if self.slot is Stencil {
                Some((self.clear_bits[0] % 0x1_0000_0000) as u32)
            } else {
                None
            },
    {
        match self.slot {
            AttachmentSlot::Stencil => Some((self.clear_bits[0] % 0x1_0000_0000) as u32),
            _ => None,
        }
    }
}

/// The extent a pass renders to.
#[derive(Clone, Copy, Debug, PartialEq, Eq, Structural)]
pub struct RenderTargetExtent {
    pub width: u64,
    pub height: u64,
    /// Zero where the descriptor never set one.
    pub array_length: u64,
}

/// A resolved render-pass descriptor.
#[derive(Clone, Copy, Debug, PartialEq, Eq)]
pub struct PassDescriptor {
    /// The eight colour slots, in order.
    pub color: [Attachment; 8],
    pub depth: Attachment,
    pub stencil: Attachment,
    pub extent: RenderTargetExtent,
}

impl PassDescriptor {
    /// A descriptor with nothing attached and no extent.
    #[must_use]
    pub fn empty() -> (descriptor: Self)
        ensures
            forall|i: int|
                0 <= i < 8 ==> #[trigger] descriptor.color[i].slot == AttachmentSlot::Color(
                    i as u8,
                ) && descriptor.color[i].texture is None,
            descriptor.depth.slot is Depth,
            descriptor.depth.texture is None,
            descriptor.stencil.slot is Stencil,
            descriptor.stencil.texture is None,
            descriptor.extent == (RenderTargetExtent { width: 0, height: 0, array_length: 0 }),
    {
        PassDescriptor {
            color: [
                Attachment::empty(AttachmentSlot::Color(0)),
                Attachment::empty(AttachmentSlot::Color(1)),
                Attachment::empty(AttachmentSlot::Color(2)),
                Attachment::empty(AttachmentSlot::Color(3)),
                Attachment::empty(AttachmentSlot::Color(4)),
                Attachment::empty(AttachmentSlot::Color(5)),
                Attachment::empty(AttachmentSlot::Color(6)),
                Attachment::empty(AttachmentSlot::Color(7)),
            ],
            depth: Attachment::empty(AttachmentSlot::Depth),
            stencil: Attachment::empty(AttachmentSlot::Stencil),
            extent: RenderTargetExtent { width: 0, height: 0, array_length: 0 },
        }
    }
}

/// What a topology's primitives are.
#[derive(Clone, Copy, Debug, PartialEq, Eq, Structural)]
pub enum TopologyClass {
    Point,
    Line,
    Triangle,
}

/// A viewport as the guest set it, each field the bit pattern of its double.
#[derive(Clone, Copy, Debug, PartialEq, Eq, Structural)]
pub struct Viewport {
    pub origin_x_bits: u64,
    pub origin_y_bits: u64,
    pub width_bits: u64,
    pub height_bits: u64,
    pub z_near_bits: u64,
    pub z_far_bits: u64,
}

/// A scissor rectangle as the guest set it.
#[derive(Clone, Copy, Debug, PartialEq, Eq, Structural)]
pub struct ScissorRect {
    pub x: u64,
    pub y: u64,
    pub width: u64,
    pub height: u64,
}

/// `MTLBlendFactor`.
#[derive(Clone, Copy, Debug, PartialEq, Eq, Hash, Structural)]
pub enum BlendFactor {
    Zero,
    One,
    SourceColor,
    OneMinusSourceColor,
    SourceAlpha,
    OneMinusSourceAlpha,
    DestinationColor,
    OneMinusDestinationColor,
    DestinationAlpha,
    OneMinusDestinationAlpha,
    SourceAlphaSaturated,
    BlendColor,
    OneMinusBlendColor,
    BlendAlpha,
    OneMinusBlendAlpha,
    Source1Color,
    OneMinusSource1Color,
    Source1Alpha,
    OneMinusSource1Alpha,
}

impl BlendFactor {
    /// The guest's number for it.
    pub open spec fn number(self) -> u32 {
        match self {
            BlendFactor::Zero => 0,
            BlendFactor::One => 1,
            BlendFactor::SourceColor => 2,
            BlendFactor::OneMinusSourceColor => 3,
            BlendFactor::SourceAlpha => 4,
            BlendFactor::OneMinusSourceAlpha => 5,
            BlendFactor::DestinationColor => 6,
            BlendFactor::OneMinusDestinationColor => 7,
            BlendFactor::DestinationAlpha => 8,
            BlendFactor::OneMinusDestinationAlpha => 9,
            BlendFactor::SourceAlphaSaturated => 10,
            BlendFactor::BlendColor => 11,
            BlendFactor::OneMinusBlendColor => 12,
            BlendFactor::BlendAlpha => 13,
            BlendFactor::OneMinusBlendAlpha => 14,
            BlendFactor::Source1Color => 15,
            BlendFactor::OneMinusSource1Color => 16,
            BlendFactor::Source1Alpha => 17,
            BlendFactor::OneMinusSource1Alpha => 18,
        }
    }

    /// The guest's number for it.
    #[must_use]
    pub fn ordinal(self) -> (ordinal: u32)
        ensures
            ordinal == self.number(),
    {
        match self {
            BlendFactor::Zero => 0,
            BlendFactor::One => 1,
            BlendFactor::SourceColor => 2,
            BlendFactor::OneMinusSourceColor => 3,
            BlendFactor::SourceAlpha => 4,
            BlendFactor::OneMinusSourceAlpha => 5,
            BlendFactor::DestinationColor => 6,
            BlendFactor::OneMinusDestinationColor => 7,
            BlendFactor::DestinationAlpha => 8,
            BlendFactor::OneMinusDestinationAlpha => 9,
            BlendFactor::SourceAlphaSaturated => 10,
            BlendFactor::BlendColor => 11,
            BlendFactor::OneMinusBlendColor => 12,
            BlendFactor::BlendAlpha => 13,
            BlendFactor::OneMinusBlendAlpha => 14,
            BlendFactor::Source1Color => 15,
            BlendFactor::OneMinusSource1Color => 16,
            BlendFactor::Source1Alpha => 17,
            BlendFactor::OneMinusSource1Alpha => 18,
        }
    }
}

impl BlendFactor {
    /// The factor reads the second fragment output.
    pub open spec fn reads_second_output(self) -> bool {
        self is Source1Color || self is OneMinusSource1Color || self is Source1Alpha
            || self is OneMinusSource1Alpha
    }

    /// The factor reads the encoder's blend colour.
    pub open spec fn reads_constant(self) -> bool {
        self is BlendColor || self is OneMinusBlendColor || self is BlendAlpha
            || self is OneMinusBlendAlpha
    }

    /// Whether the factor reads the second fragment output.
    #[must_use]
    pub fn is_dual_source(self) -> (dual: bool)
        ensures
            dual == self.reads_second_output(),
    {
        matches!(
            self,
            BlendFactor::Source1Color | BlendFactor::OneMinusSource1Color
                | BlendFactor::Source1Alpha | BlendFactor::OneMinusSource1Alpha
        )
    }

    /// Whether the factor reads the encoder's blend colour.
    #[must_use]
    pub fn is_blend_color(self) -> (constant: bool)
        ensures
            constant == self.reads_constant(),
    {
        matches!(
            self,
            BlendFactor::BlendColor | BlendFactor::OneMinusBlendColor | BlendFactor::BlendAlpha
                | BlendFactor::OneMinusBlendAlpha
        )
    }
}

/// `MTLBlendOperation`.
#[derive(Clone, Copy, Debug, PartialEq, Eq, Hash, Structural)]
pub enum BlendOperation {
    Add,
    Subtract,
    ReverseSubtract,
    Min,
    Max,
}

impl BlendOperation {
    /// The guest's number for it.
    pub open spec fn number(self) -> u32 {
        match self {
            BlendOperation::Add => 0,
            BlendOperation::Subtract => 1,
            BlendOperation::ReverseSubtract => 2,
            BlendOperation::Min => 3,
            BlendOperation::Max => 4,
        }
    }

    /// The guest's number for it.
    #[must_use]
    pub fn ordinal(self) -> (ordinal: u32)
        ensures
            ordinal == self.number(),
    {
        match self {
            BlendOperation::Add => 0,
            BlendOperation::Subtract => 1,
            BlendOperation::ReverseSubtract => 2,
            BlendOperation::Min => 3,
            BlendOperation::Max => 4,
        }
    }
}

/// `MTLColorWriteMask`: four bits, alpha lowest.
#[derive(Clone, Copy, Debug, PartialEq, Eq, Hash, Structural)]
pub struct ColorWriteMask(u32);

impl ColorWriteMask {
    pub const RED: u32 = 8;

    pub const GREEN: u32 = 4;

    pub const BLUE: u32 = 2;

    pub const ALPHA: u32 = 1;

    /// The bits of the mask.
    pub closed spec fn bits(self) -> u32 {
        self.0
    }

    /// A mask of exactly these bits, where the API declares all of them.
    #[must_use]
    pub fn new(bits: u32) -> (mask: Option<Self>)
        ensures
            mask is Some <==> bits <= 15,
            mask matches Some(mask) ==> mask.bits() == bits,
    {
        if bits <= 15 {
            Some(ColorWriteMask(bits))
        } else {
            None
        }
    }

    /// Every component.
    #[must_use]
    pub fn all() -> (mask: Self)
        ensures
            mask.bits() == 15,
    {
        ColorWriteMask(15)
    }

    /// No component.
    #[must_use]
    pub fn none() -> (mask: Self)
        ensures
            mask.bits() == 0,
    {
        ColorWriteMask(0)
    }

    /// Whether the mask holds any of `bits`.
    #[must_use]
    pub fn writes(self, bits: u32) -> (writes: bool)
        ensures
            writes == (self.bits() & bits != 0),
    {
        self.0 & bits != 0
    }
}

/// The two equations of an attachment that blends.
#[derive(Clone, Copy, Debug, PartialEq, Eq, Hash, Structural)]
pub struct Blend {
    pub src_color: BlendFactor,
    pub dst_color: BlendFactor,
    pub color_operation: BlendOperation,
    pub src_alpha: BlendFactor,
    pub dst_alpha: BlendFactor,
    pub alpha_operation: BlendOperation,
}

impl Blend {
    /// One of the factors reads the encoder's blend colour.
    pub open spec fn uses_constant(self) -> bool {
        self.src_color.reads_constant() || self.dst_color.reads_constant()
            || self.src_alpha.reads_constant() || self.dst_alpha.reads_constant()
    }

    /// Whether one of the factors reads the encoder's blend colour.
    #[must_use]
    pub fn reads_blend_color(self) -> (reads: bool)
        ensures
            reads == self.uses_constant(),
    {
        self.src_color.is_blend_color() || self.dst_color.is_blend_color()
            || self.src_alpha.is_blend_color() || self.dst_alpha.is_blend_color()
    }
}

/// A checked colour attachment.
#[derive(Clone, Copy, Debug, PartialEq, Eq, Hash, Structural)]
pub struct ColorAttachmentState {
    pub write_mask: ColorWriteMask,
    /// `None` where blending is off.
    pub blend: Option<Blend>,
}

/// `MTLCompareFunction`.
#[derive(Clone, Copy, Debug, PartialEq, Eq, Hash, Structural)]
pub enum CompareFunction {
    Never,
    Less,
    Equal,
    LessEqual,
    Greater,
    NotEqual,
    GreaterEqual,
    Always,
}

impl CompareFunction {
    /// The guest's number for it.
    pub open spec fn number(self) -> u32 {
        match self {
            CompareFunction::Never => 0,
            CompareFunction::Less => 1,
            CompareFunction::Equal => 2,
            CompareFunction::LessEqual => 3,
            CompareFunction::Greater => 4,
            CompareFunction::NotEqual => 5,
            CompareFunction::GreaterEqual => 6,
            CompareFunction::Always => 7,
        }
    }

    /// The guest's number for it.
    #[must_use]
    pub fn ordinal(self) -> (ordinal: u32)
        ensures
            ordinal == self.number(),
    {
        match self {
            CompareFunction::Never => 0,
            CompareFunction::Less => 1,
            CompareFunction::Equal => 2,
            CompareFunction::LessEqual => 3,
            CompareFunction::Greater => 4,
            CompareFunction::NotEqual => 5,
            CompareFunction::GreaterEqual => 6,
            CompareFunction::Always => 7,
        }
    }
}

/// `MTLStencilOperation`.
#[derive(Clone, Copy, Debug, PartialEq, Eq, Hash, Structural)]
pub enum StencilOperation {
    Keep,
    Zero,
    Replace,
    IncrementClamp,
    DecrementClamp,
    Invert,
    IncrementWrap,
    DecrementWrap,
}

impl StencilOperation {
    /// The guest's number for it.
    pub open spec fn number(self) -> u32 {
        match self {
            StencilOperation::Keep => 0,
            StencilOperation::Zero => 1,
            StencilOperation::Replace => 2,
            StencilOperation::IncrementClamp => 3,
            StencilOperation::DecrementClamp => 4,
            StencilOperation::Invert => 5,
            StencilOperation::IncrementWrap => 6,
            StencilOperation::DecrementWrap => 7,
        }
    }

    /// The guest's number for it.
    #[must_use]
    pub fn ordinal(self) -> (ordinal: u32)
        ensures
            ordinal == self.number(),
    {
        match self {
            StencilOperation::Keep => 0,
            StencilOperation::Zero => 1,
            StencilOperation::Replace => 2,
            StencilOperation::IncrementClamp => 3,
            StencilOperation::DecrementClamp => 4,
            StencilOperation::Invert => 5,
            StencilOperation::IncrementWrap => 6,
            StencilOperation::DecrementWrap => 7,
        }
    }
}

/// One face of a checked stencil state.
#[derive(Clone, Copy, Debug, PartialEq, Eq, Hash, Structural)]
pub struct StencilFace {
    pub compare: CompareFunction,
    pub stencil_failure: StencilOperation,
    pub depth_failure: StencilOperation,
    pub depth_stencil_pass: StencilOperation,
    pub read_mask: u32,
    pub write_mask: u32,
}

impl StencilFace {
    /// Metal's documented default: every comparison passes, nothing changes.
    pub open spec fn initial() -> StencilFace {
        StencilFace {
            compare: CompareFunction::Always,
            stencil_failure: StencilOperation::Keep,
            depth_failure: StencilOperation::Keep,
            depth_stencil_pass: StencilOperation::Keep,
            read_mask: u32::MAX,
            write_mask: u32::MAX,
        }
    }
}

impl Default for StencilFace {
    fn default() -> (face: Self)
        ensures
            face == StencilFace::initial(),
    {
        StencilFace {
            compare: CompareFunction::Always,
            stencil_failure: StencilOperation::Keep,
            depth_failure: StencilOperation::Keep,
            depth_stencil_pass: StencilOperation::Keep,
            read_mask: u32::MAX,
            write_mask: u32::MAX,
        }
    }
}

/// A checked depth-stencil state.
#[derive(Clone, Copy, Debug, PartialEq, Eq, Hash, Structural)]
pub struct DepthStencilState {
    pub depth_compare: CompareFunction,
    pub depth_write: bool,
    /// `None` where the face's enable bit was clear.
    pub front: Option<StencilFace>,
    pub back: Option<StencilFace>,
}

impl DepthStencilState {
    /// Either face tests.
    pub open spec fn engaged(self) -> bool {
        self.front is Some || self.back is Some
    }

    /// Whether either face tests.
    #[must_use]
    pub fn stencil_engaged(&self) -> (engaged: bool)
        ensures
            engaged == self.engaged(),
    {
        self.front.is_some() || self.back.is_some()
    }
}

/// No two factors, operations or comparisons share an ordinal, and each is below
/// the count of its kind.
pub proof fn law_ordinals_stay_distinct(
    a: BlendFactor,
    b: BlendFactor,
    c: BlendOperation,
    d: BlendOperation,
    e: CompareFunction,
    f: CompareFunction,
    g: StencilOperation,
    h: StencilOperation,
)
    ensures
        a.number() == b.number() ==> a == b,
        c.number() == d.number() ==> c == d,
        e.number() == f.number() ==> e == f,
        g.number() == h.number() ==> g == h,
        a.number() < 19,
        c.number() < 5,
        e.number() < 8,
        g.number() < 8,
{
}

} // verus!
