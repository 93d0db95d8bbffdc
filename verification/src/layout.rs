//! Image layouts and queue-family ownership, as explicitly planned transitions.
//!
//! A `VkImage` is in exactly one layout per subresource, and the only way to
//! know it is to have followed every transition. The transition planned here
//! names both ends.
//!
//! Discarding contents is a decision, never an inference: [`Contents`] is a
//! parameter because the caller knows whether the pass loads or clears.
//!
//! No transition is the steady state. It is not "no barrier is needed": a read
//! after a write in one layout needs a dependency and no layout change, and
//! that dependency is [`crate::barrier`]'s.
//!
//! Moving an image between queue families is a release and an acquire, and
//! [`LayoutTracker::plan_family`] returns both halves together.

use crate::text::{decimal, push_decimal, push_text};
use crate::vulkan::{access2, stage2, AccessFlags2, ImageLayout, PipelineStageFlags2};
use std::collections::HashMap;
use vstd::prelude::*;

verus! {

broadcast use vstd::std_specs::hash::group_hash_axioms;

/// A native image this rail owns.
#[derive(Clone, Copy, Debug, PartialEq, Eq, PartialOrd, Ord, Hash, Structural)]
pub struct ImageId(pub u64);

/// One subresource of one image.
#[derive(Clone, Copy, Debug, PartialEq, Eq, PartialOrd, Ord, Hash, Structural)]
pub struct Subresource {
    pub level: u32,
    pub layer: u32,
    /// Multi-planar formats lay each plane out separately, so a plane is a
    /// separate subresource and not a coordinate inside one.
    pub plane: u32,
}

impl Subresource {
    /// The first plane of a level and a layer.
    #[must_use]
    pub fn new(level: u32, layer: u32) -> (subresource: Self)
        ensures
            subresource == (Subresource { level, layer, plane: 0 }),
    {
        Subresource { level, layer, plane: 0 }
    }
}

/// What the image is about to be used for.
///
/// The set is closed on purpose: adding a variant is where the decision of its
/// layout gets made.
#[derive(Clone, Copy, Debug, PartialEq, Eq, Structural)]
pub enum Use {
    ColorAttachment,
    DepthStencilAttachment,
    /// Read-only depth or stencil, for a pass that tests without writing.
    DepthStencilRead,
    SampledRead,
    /// A storage image. `GENERAL` because a storage image is written through a
    /// descriptor that has no other optimal layout.
    Storage,
    TransferSrc,
    TransferDst,
    Present,
}

/// The layout each use needs.
pub open spec fn layout_of(use_: Use) -> ImageLayout {
    match use_ {
        Use::ColorAttachment => ImageLayout::ColorAttachmentOptimal,
        Use::DepthStencilAttachment => ImageLayout::DepthStencilAttachmentOptimal,
        Use::DepthStencilRead => ImageLayout::DepthStencilReadOnlyOptimal,
        Use::SampledRead => ImageLayout::ShaderReadOnlyOptimal,
        Use::Storage => ImageLayout::General,
        Use::TransferSrc => ImageLayout::TransferSrcOptimal,
        Use::TransferDst => ImageLayout::TransferDstOptimal,
        Use::Present => ImageLayout::PresentSrc,
    }
}

/// The stages that touch the image in each use.
pub open spec fn stages_of(use_: Use) -> PipelineStageFlags2 {
    match use_ {
        Use::ColorAttachment => stage2::COLOR_ATTACHMENT_OUTPUT,
        Use::DepthStencilAttachment => stage2::EARLY_FRAGMENT_TESTS | stage2::LATE_FRAGMENT_TESTS,
        Use::DepthStencilRead => stage2::EARLY_FRAGMENT_TESTS | stage2::LATE_FRAGMENT_TESTS,
        Use::SampledRead => stage2::ALL_GRAPHICS | stage2::COMPUTE_SHADER,
        Use::Storage => stage2::ALL_GRAPHICS | stage2::COMPUTE_SHADER,
        Use::TransferSrc => stage2::ALL_TRANSFER,
        Use::TransferDst => stage2::ALL_TRANSFER,
        Use::Present => stage2::NONE,
    }
}

/// The access each use performs.
pub open spec fn access_of(use_: Use) -> AccessFlags2 {
    match use_ {
        Use::ColorAttachment => access2::COLOR_ATTACHMENT_READ | access2::COLOR_ATTACHMENT_WRITE,
        Use::DepthStencilAttachment => access2::DEPTH_STENCIL_ATTACHMENT_READ
            | access2::DEPTH_STENCIL_ATTACHMENT_WRITE,
        Use::DepthStencilRead => access2::DEPTH_STENCIL_ATTACHMENT_READ,
        Use::SampledRead => access2::SHADER_SAMPLED_READ,
        Use::Storage => access2::SHADER_STORAGE_READ | access2::SHADER_STORAGE_WRITE,
        Use::TransferSrc => access2::TRANSFER_READ,
        Use::TransferDst => access2::TRANSFER_WRITE,
        Use::Present => access2::NONE,
    }
}

impl Use {
    /// The layout this use needs.
    #[must_use]
    pub fn layout(self) -> (layout: ImageLayout)
        ensures
            layout == layout_of(self),
    {
        match self {
            Use::ColorAttachment => ImageLayout::ColorAttachmentOptimal,
            Use::DepthStencilAttachment => ImageLayout::DepthStencilAttachmentOptimal,
            Use::DepthStencilRead => ImageLayout::DepthStencilReadOnlyOptimal,
            Use::SampledRead => ImageLayout::ShaderReadOnlyOptimal,
            Use::Storage => ImageLayout::General,
            Use::TransferSrc => ImageLayout::TransferSrcOptimal,
            Use::TransferDst => ImageLayout::TransferDstOptimal,
            Use::Present => ImageLayout::PresentSrc,
        }
    }

    /// The stages that touch the image in this use.
    ///
    /// A depth or stencil access happens in the early and the late fragment
    /// tests. Any shader stage may sample or store. Presentation is not a
    /// pipeline stage: that dependency is a semaphore.
    #[must_use]
    pub fn stages(self) -> (stages: PipelineStageFlags2)
        ensures
            stages == stages_of(self),
    {
        match self {
            Use::ColorAttachment => stage2::COLOR_ATTACHMENT_OUTPUT,
            Use::DepthStencilAttachment | Use::DepthStencilRead => stage2::EARLY_FRAGMENT_TESTS
                | stage2::LATE_FRAGMENT_TESTS,
            Use::SampledRead | Use::Storage => stage2::ALL_GRAPHICS | stage2::COMPUTE_SHADER,
            Use::TransferSrc | Use::TransferDst => stage2::ALL_TRANSFER,
            Use::Present => stage2::NONE,
        }
    }

    /// The access this use performs.
    #[must_use]
    pub fn access(self) -> (access: AccessFlags2)
        ensures
            access == access_of(self),
    {
        match self {
            Use::ColorAttachment => access2::COLOR_ATTACHMENT_READ
                | access2::COLOR_ATTACHMENT_WRITE,
            Use::DepthStencilAttachment => access2::DEPTH_STENCIL_ATTACHMENT_READ
                | access2::DEPTH_STENCIL_ATTACHMENT_WRITE,
            Use::DepthStencilRead => access2::DEPTH_STENCIL_ATTACHMENT_READ,
            Use::SampledRead => access2::SHADER_SAMPLED_READ,
            Use::Storage => access2::SHADER_STORAGE_READ | access2::SHADER_STORAGE_WRITE,
            Use::TransferSrc => access2::TRANSFER_READ,
            Use::TransferDst => access2::TRANSFER_WRITE,
            Use::Present => access2::NONE,
        }
    }
}

/// No two uses share a layout, and no use resolves to the layout that means the
/// contents are gone.
pub proof fn law_uses_have_their_own_layouts(a: Use, b: Use)
    ensures
        layout_of(a) == layout_of(b) ==> a == b,
        layout_of(a) != ImageLayout::Undefined,
{
}

/// The layout of a use is the one Vulkan names after it; only a storage image,
/// which has none of its own, is in the general layout.
pub proof fn law_a_layout_is_named_after_its_use(use_: Use, layout: ImageLayout)
    requires
        call_ensures(Use::layout, (use_,), layout),
    ensures
        layout is ColorAttachmentOptimal <==> use_ is ColorAttachment,
        layout is DepthStencilAttachmentOptimal <==> use_ is DepthStencilAttachment,
        layout is DepthStencilReadOnlyOptimal <==> use_ is DepthStencilRead,
        layout is ShaderReadOnlyOptimal <==> use_ is SampledRead,
        layout is General <==> use_ is Storage,
        layout is TransferSrcOptimal <==> use_ is TransferSrc,
        layout is TransferDstOptimal <==> use_ is TransferDst,
        layout is PresentSrc <==> use_ is Present,
{
}

/// Every use but presentation names a stage and an access, and presentation
/// names neither.
pub proof fn law_only_presentation_names_no_stage(use_: Use)
    ensures
        stages_of(use_) == stage2::NONE <==> use_ == Use::Present,
        access_of(use_) == access2::NONE <==> use_ == Use::Present,
{
    assert(0x100u64 | 0x200u64 != 0 && 0x8000u64 | 0x800u64 != 0 && 0x80u64 | 0x100u64 != 0
        && 0x200u64 | 0x400u64 != 0 && 0x200000000u64 | 0x400000000u64 != 0) by (bit_vector);
}

/// Whether the contents survive the transition.
#[derive(Clone, Copy, Debug, PartialEq, Eq, Structural)]
pub enum Contents {
    /// The transition names the current layout, and the driver preserves what
    /// is there.
    Keep,
    /// The transition comes out of `UNDEFINED`. Cheaper, and the previous
    /// contents are gone.
    Discard,
}

/// One planned layout transition.
#[derive(Clone, Copy, Debug, PartialEq, Eq, Structural)]
#[must_use]
pub struct Transition {
    pub image: ImageId,
    pub subresource: Subresource,
    pub from: ImageLayout,
    pub to: ImageLayout,
    pub src_stages: PipelineStageFlags2,
    pub dst_stages: PipelineStageFlags2,
    pub src_access: AccessFlags2,
    pub dst_access: AccessFlags2,
    /// True when `from` is `UNDEFINED` because the caller said the contents
    /// were not needed.
    pub discarded_contents: bool,
}

/// Both halves of a queue-family ownership move.
#[derive(Clone, Copy, Debug, PartialEq, Eq, Structural)]
#[must_use]
pub struct OwnershipTransfer {
    pub image: ImageId,
    pub subresource: Subresource,
    pub from_family: u32,
    pub to_family: u32,
    /// The layout on both sides. The two halves must agree, so it is one value
    /// rather than two.
    pub layout: ImageLayout,
    /// What the releasing queue has to make available: the stages and accesses
    /// of the last use recorded on the family giving the image up. A transfer
    /// is a memory dependency and not only a change of owner.
    pub src_stages: PipelineStageFlags2,
    pub src_access: AccessFlags2,
    /// What the acquiring queue needs visible: the use it is taking the image
    /// for.
    pub dst_stages: PipelineStageFlags2,
    pub dst_access: AccessFlags2,
}

/// Why a plan could not be made.
#[derive(Clone, Copy, Debug, PartialEq, Eq, Structural)]
pub enum Decline {
    /// The image was never declared, so its layout is not known and cannot be
    /// assumed.
    UnknownImage { image: ImageId },
    /// The subresource is outside what the image was declared with.
    UnknownSubresource { image: ImageId, subresource: Subresource },
    /// An ownership transfer was asked for on an image with no recorded family.
    NoRecordedFamily { image: ImageId },
}

impl Decline {
    /// The slug of each decline.
    pub open spec fn slug_text(self) -> Seq<char> {
        match self {
            Decline::UnknownImage { .. } => "vk_layout_unknown_image"@,
            Decline::UnknownSubresource { .. } => "vk_layout_unknown_subresource"@,
            Decline::NoRecordedFamily { .. } => "vk_layout_no_recorded_family"@,
        }
    }

    /// The decline's slug.
    #[must_use]
    pub fn slug(self) -> (slug: &'static str)
        ensures
            slug@ == self.slug_text(),
    {
        match self {
            Decline::UnknownImage { .. } => "vk_layout_unknown_image",
            Decline::UnknownSubresource { .. } => "vk_layout_unknown_subresource",
            Decline::NoRecordedFamily { .. } => "vk_layout_no_recorded_family",
        }
    }

    /// The decline with what it is about.
    pub open spec fn message_text(self) -> Seq<char> {
        match self {
            Decline::UnknownImage { image } => self.slug_text() + " image="@ + decimal(
                image.0 as nat,
            ),
            Decline::NoRecordedFamily { image } => self.slug_text() + " image="@ + decimal(
                image.0 as nat,
            ),
            Decline::UnknownSubresource { image, subresource } => self.slug_text() + " image="@
                + decimal(image.0 as nat) + " level="@ + decimal(subresource.level as nat)
                + " layer="@ + decimal(subresource.layer as nat) + " plane="@ + decimal(
                subresource.plane as nat,
            ),
        }
    }

    /// The decline with what it is about.
    pub fn message(self) -> (text: String)
        ensures
            text@ == self.message_text(),
    {
        let mut text = String::new();
        push_text(&mut text, self.slug());
        push_text(&mut text, " image=");
        match self {
            Decline::UnknownImage { image } => push_decimal(&mut text, image.0),
            Decline::NoRecordedFamily { image } => push_decimal(&mut text, image.0),
            Decline::UnknownSubresource { image, subresource } => {
                push_decimal(&mut text, image.0);
                push_text(&mut text, " level=");
                push_decimal(&mut text, subresource.level as u64);
                push_text(&mut text, " layer=");
                push_decimal(&mut text, subresource.layer as u64);
                push_text(&mut text, " plane=");
                push_decimal(&mut text, subresource.plane as u64);
            },
        }
        assert(text@ =~= self.message_text());
        text
    }
}

/// What one subresource is doing.
#[derive(Clone, Copy, Debug, PartialEq, Eq, Structural)]
pub struct State {
    pub layout: ImageLayout,
    /// The queue family that owns it, when the image is `EXCLUSIVE`.
    pub family: Option<u32>,
    /// The stages and access of the last use, which are the source half of the
    /// next transition's dependency.
    pub last_stages: PipelineStageFlags2,
    pub last_access: AccessFlags2,
}

impl State {
    /// What `vkCreateImage` leaves a subresource in.
    pub open spec fn fresh(family: Option<u32>) -> State {
        State {
            layout: ImageLayout::Undefined,
            family,
            last_stages: stage2::NONE,
            last_access: access2::NONE,
        }
    }

    /// The subresource after a use.
    pub open spec fn used(self, use_: Use) -> State {
        State {
            layout: layout_of(use_),
            family: self.family,
            last_stages: stages_of(use_),
            last_access: access_of(use_),
        }
    }
}

/// One image's subresources.
#[derive(Debug)]
struct Image {
    levels: u32,
    layers: u32,
    planes: u32,
    states: Vec<Vec<Vec<State>>>,
}

/// One image as declared, and what each of its subresources is doing.
#[verifier::ext_equal]
pub struct ImageView {
    pub levels: u32,
    pub layers: u32,
    pub planes: u32,
    pub states: Map<Subresource, State>,
}

impl ImageView {
    /// Whether the image has `subresource`.
    pub open spec fn has(self, subresource: Subresource) -> bool {
        &&& subresource.level < self.levels
        &&& subresource.layer < self.layers
        &&& subresource.plane < self.planes
    }

    /// Every subresource in range has a state, and there are no others.
    pub open spec fn wf(self) -> bool {
        forall|subresource: Subresource| #[trigger]
            self.states.contains_key(subresource) <==> self.has(subresource)
    }

    /// A freshly created image.
    pub open spec fn fresh(levels: u32, layers: u32, planes: u32, family: Option<u32>) -> ImageView {
        ImageView {
            levels,
            layers,
            planes,
            states: Map::new(
                |s: Subresource| s.level < levels && s.layer < layers && s.plane < planes,
                |s: Subresource| State::fresh(family),
            ),
        }
    }
}

impl Image {
    spec fn wf(&self) -> bool {
        &&& self.states@.len() == self.levels
        &&& forall|level: int|
            0 <= level < self.levels ==> #[trigger] self.states@[level]@.len() == self.layers
        &&& forall|level: int, layer: int|
            0 <= level < self.levels && 0 <= layer < self.layers
                ==> #[trigger] self.states@[level]@[layer]@.len() == self.planes
    }

    spec fn at(&self, s: Subresource) -> State {
        self.states@[s.level as int]@[s.layer as int]@[s.plane as int]
    }
}

impl View for Image {
    type V = ImageView;

    closed spec fn view(&self) -> ImageView {
        ImageView {
            levels: self.levels,
            layers: self.layers,
            planes: self.planes,
            states: Map::new(
                |s: Subresource|
                    s.level < self.levels && s.layer < self.layers && s.plane < self.planes,
                |s: Subresource| self.at(s),
            ),
        }
    }
}

/// What the tracker has been asked for.
#[derive(Clone, Copy, Debug, Default, PartialEq, Eq, Structural)]
pub struct Census {
    /// Uses that needed no layout change. The steady state, and the number that
    /// says what the tracker is saving over a barrier per use.
    pub already_in_layout: usize,
    pub transitions: usize,
    /// Transitions the caller declared discardable.
    pub discards: usize,
    pub ownership_transfers: usize,
}

/// Every known image.
#[verifier::ext_equal]
pub struct TrackerView {
    pub images: Map<u64, ImageView>,
    pub census: Census,
}

/// The transition a use owes a subresource in `state`, if it owes one.
pub open spec fn transition(
    image: ImageId,
    subresource: Subresource,
    state: State,
    use_: Use,
    contents: Contents,
) -> Option<Transition> {
    if state.layout == layout_of(use_) && contents == Contents::Keep {
        None
    } else {
        let kept = contents == Contents::Keep;
        Some(
            Transition {
                image,
                subresource,
                from: if kept {
                    state.layout
                } else {
                    ImageLayout::Undefined
                },
                to: layout_of(use_),
                src_stages: if kept {
                    state.last_stages
                } else {
                    stage2::NONE
                },
                dst_stages: stages_of(use_),
                src_access: if kept {
                    state.last_access
                } else {
                    access2::NONE
                },
                dst_access: access_of(use_),
                discarded_contents: !kept,
            },
        )
    }
}

/// The ownership move that takes a subresource in `state` to another family, if
/// one is owed.
pub open spec fn transfer(
    image: ImageId,
    subresource: Subresource,
    state: State,
    from_family: u32,
    to_family: u32,
    use_: Use,
) -> Option<OwnershipTransfer> {
    if from_family == to_family {
        None
    } else {
        Some(
            OwnershipTransfer {
                image,
                subresource,
                from_family,
                to_family,
                layout: state.layout,
                src_stages: state.last_stages,
                src_access: state.last_access,
                dst_stages: stages_of(use_),
                dst_access: access_of(use_),
            },
        )
    }
}

impl TrackerView {
    /// Nothing tracked and nothing counted.
    pub open spec fn empty() -> TrackerView {
        TrackerView {
            images: Map::empty(),
            census: Census {
                already_in_layout: 0,
                transitions: 0,
                discards: 0,
                ownership_transfers: 0,
            },
        }
    }

    /// Every image has a state for each of its subresources.
    pub open spec fn wf(self) -> bool {
        forall|image: u64| #[trigger]
            self.images.contains_key(image) ==> self.images[image].wf()
    }

    /// What a subresource is doing, or why that is not known.
    pub open spec fn lookup(self, image: ImageId, subresource: Subresource) -> Result<
        State,
        Decline,
    > {
        if !self.images.contains_key(image.0) {
            Err(Decline::UnknownImage { image })
        } else if !self.images[image.0].has(subresource) {
            Err(Decline::UnknownSubresource { image, subresource })
        } else {
            Ok(self.images[image.0].states[subresource])
        }
    }

    /// The tracker with one subresource's state replaced.
    pub open spec fn with(
        self,
        image: ImageId,
        subresource: Subresource,
        state: State,
    ) -> TrackerView {
        let entry = self.images[image.0];
        TrackerView {
            images: self.images.insert(
                image.0,
                ImageView { states: entry.states.insert(subresource, state), ..entry },
            ),
            ..self
        }
    }

    /// The tracker after an image was declared.
    pub open spec fn declared(
        self,
        image: ImageId,
        levels: u32,
        layers: u32,
        planes: u32,
        family: Option<u32>,
    ) -> TrackerView {
        TrackerView {
            images: self.images.insert(image.0, ImageView::fresh(levels, layers, planes, family)),
            ..self
        }
    }

    /// The tracker after an image was forgotten.
    pub open spec fn forgotten(self, image: ImageId) -> TrackerView {
        TrackerView { images: self.images.remove(image.0), ..self }
    }

    /// Planning this use can be counted.
    pub open spec fn has_room_to_plan(
        self,
        image: ImageId,
        subresource: Subresource,
        use_: Use,
        contents: Contents,
    ) -> bool {
        self.lookup(image, subresource) matches Ok(state) ==> match transition(
            image,
            subresource,
            state,
            use_,
            contents,
        ) {
            None => self.census.already_in_layout < usize::MAX,
            Some(_) => self.census.transitions < usize::MAX && (contents == Contents::Discard
                ==> self.census.discards < usize::MAX),
        }
    }

    /// Moving to this family can be counted.
    pub open spec fn has_room_to_move(
        self,
        image: ImageId,
        subresource: Subresource,
        to_family: u32,
    ) -> bool {
        self.lookup(image, subresource) matches Ok(state) ==> (state.family matches Some(family)
            ==> family == to_family || self.census.ownership_transfers < usize::MAX)
    }

    /// The tracker after a use was planned. A refused one changes nothing.
    pub open spec fn planned(
        self,
        image: ImageId,
        subresource: Subresource,
        use_: Use,
        contents: Contents,
    ) -> TrackerView {
        match self.lookup(image, subresource) {
            Err(_) => self,
            Ok(state) => TrackerView {
                census: if transition(image, subresource, state, use_, contents) is None {
                    Census {
                        already_in_layout: (self.census.already_in_layout + 1) as usize,
                        ..self.census
                    }
                } else if contents == Contents::Discard {
                    Census {
                        transitions: (self.census.transitions + 1) as usize,
                        discards: (self.census.discards + 1) as usize,
                        ..self.census
                    }
                } else {
                    Census {
                        transitions: (self.census.transitions + 1) as usize,
                        ..self.census
                    }
                },
                ..self.with(image, subresource, state.used(use_))
            },
        }
    }

    /// The tracker after an ownership move was planned. A refused one changes
    /// nothing, and neither does a move to the family that already owns it.
    pub open spec fn moved(
        self,
        image: ImageId,
        subresource: Subresource,
        to_family: u32,
    ) -> TrackerView {
        match self.lookup(image, subresource) {
            Err(_) => self,
            Ok(state) => if state.family is None || state.family == Some(to_family) {
                self
            } else {
                TrackerView {
                    census: Census {
                        ownership_transfers: (self.census.ownership_transfers + 1) as usize,
                        ..self.census
                    },
                    ..self.with(image, subresource, State { family: Some(to_family), ..state })
                }
            },
        }
    }
}

/// Every image's per-subresource layout and family.
#[derive(Debug)]
pub struct LayoutTracker {
    images: HashMap<u64, Image>,
    census: Census,
}

impl View for LayoutTracker {
    type V = TrackerView;

    closed spec fn view(&self) -> TrackerView {
        TrackerView {
            images: Map::new(
                |image: u64| self.images@.contains_key(image),
                |image: u64| self.images@[image]@,
            ),
            census: self.census,
        }
    }
}

impl LayoutTracker {
    /// The states behind every image are laid out as the image was declared.
    pub closed spec fn dense(&self) -> bool {
        forall|image: u64| #[trigger]
            self.images@.contains_key(image) ==> self.images@[image].wf()
    }

    /// The tracker's invariant.
    pub open spec fn wf(&self) -> bool {
        self@.wf() && self.dense()
    }

    /// A tracker with no images.
    #[must_use]
    pub fn new() -> (tracker: Self)
        ensures
            tracker.wf(),
            tracker@ == TrackerView::empty(),
    {
        let tracker = LayoutTracker {
            images: HashMap::new(),
            census: Census {
                already_in_layout: 0,
                transitions: 0,
                discards: 0,
                ownership_transfers: 0,
            },
        };
        assert(tracker@ =~= TrackerView::empty());
        tracker
    }

    /// What the tracker has been asked for.
    #[must_use]
    pub fn census(&self) -> (census: Census)
        ensures
            census == self@.census,
    {
        self.census
    }

    /// Declare a freshly created image.
    ///
    /// Every subresource starts `UNDEFINED`, which is what `vkCreateImage`
    /// leaves them in. `family` is the queue family an `EXCLUSIVE` image is
    /// first owned by, or `None` for a `CONCURRENT` one.
    ///
    /// An image with no levels, layers or planes is one nothing can name a
    /// subresource of, so every dimension has to be positive.
    pub fn declare(
        &mut self,
        image: ImageId,
        levels: u32,
        layers: u32,
        planes: u32,
        family: Option<u32>,
    )
        requires
            old(self).wf(),
            levels > 0,
            layers > 0,
            planes > 0,
        ensures
            final(self).wf(),
            final(self)@ == old(self)@.declared(image, levels, layers, planes, family),
    {
        let fresh = State {
            layout: ImageLayout::Undefined,
            family,
            last_stages: stage2::NONE,
            last_access: access2::NONE,
        };
        let mut states: Vec<Vec<Vec<State>>> = Vec::new();
        let mut level: u32 = 0;
        while level < levels
            invariant
                level <= levels,
                states@.len() == level,
                fresh == State::fresh(family),
                forall|a: int| 0 <= a < level ==> #[trigger] states@[a]@.len() == layers,
                forall|a: int, b: int|
                    0 <= a < level && 0 <= b < layers ==> #[trigger] states@[a]@[b]@.len()
                        == planes,
                forall|a: int, b: int, c: int|
                    0 <= a < level && 0 <= b < layers && 0 <= c < planes
                        ==> #[trigger] states@[a]@[b]@[c] == fresh,
            decreases levels - level,
        {
            let mut of_level: Vec<Vec<State>> = Vec::new();
            let mut layer: u32 = 0;
            while layer < layers
                invariant
                    layer <= layers,
                    of_level@.len() == layer,
                    forall|b: int| 0 <= b < layer ==> #[trigger] of_level@[b]@.len() == planes,
                    forall|b: int, c: int|
                        0 <= b < layer && 0 <= c < planes ==> #[trigger] of_level@[b]@[c] == fresh,
                decreases layers - layer,
            {
                let mut of_layer: Vec<State> = Vec::new();
                let mut plane: u32 = 0;
                while plane < planes
                    invariant
                        plane <= planes,
                        of_layer@.len() == plane,
                        forall|c: int| 0 <= c < plane ==> #[trigger] of_layer@[c] == fresh,
                    decreases planes - plane,
                {
                    of_layer.push(fresh);
                    plane += 1;
                }
                of_level.push(of_layer);
                layer += 1;
            }
            states.push(of_level);
            level += 1;
        }
        let declared = Image { levels, layers, planes, states };
        assert(declared.wf());
        assert(declared@ =~= ImageView::fresh(levels, layers, planes, family)) by {
            assert(declared@.states =~= ImageView::fresh(levels, layers, planes, family).states);
        }
        self.images.insert(image.0, declared);
        assert(self@ =~= old(self)@.declared(image, levels, layers, planes, family)) by {
            assert(self@.images =~= old(self)@.declared(
                image,
                levels,
                layers,
                planes,
                family,
            ).images);
        }
    }

    /// Forget an image whose native object is gone.
    pub fn forget(&mut self, image: ImageId)
        requires
            old(self).wf(),
        ensures
            final(self).wf(),
            final(self)@ == old(self)@.forgotten(image),
    {
        self.images.remove(&image.0);
        assert(self@.images =~= old(self)@.forgotten(image).images);
    }

    /// The layout a subresource is in; a decline if the image or the
    /// subresource was never declared.
    pub fn layout(&self, image: ImageId, subresource: Subresource) -> (layout: Result<
        ImageLayout,
        Decline,
    >)
        requires
            self.wf(),
        ensures
            layout == match self@.lookup(image, subresource) {
                Ok(state) => Ok::<ImageLayout, Decline>(state.layout),
                Err(decline) => Err(decline),
            },
    {
        match self.state(image, subresource) {
            Ok(state) => Ok(state.layout),
            Err(decline) => Err(decline),
        }
    }

    /// The queue family that owns a subresource, if the image is `EXCLUSIVE`; a
    /// decline if the image or the subresource was never declared.
    pub fn family(&self, image: ImageId, subresource: Subresource) -> (family: Result<
        Option<u32>,
        Decline,
    >)
        requires
            self.wf(),
        ensures
            family == match self@.lookup(image, subresource) {
                Ok(state) => Ok::<Option<u32>, Decline>(state.family),
                Err(decline) => Err(decline),
            },
    {
        match self.state(image, subresource) {
            Ok(state) => Ok(state.family),
            Err(decline) => Err(decline),
        }
    }

    /// Plan a use, and record it.
    ///
    /// `Ok(None)` means the subresource is already in the layout the use needs.
    /// It does not mean no barrier is owed. The use is recorded either way, so
    /// the next transition's source half is this use's stages and access rather
    /// than a guess.
    ///
    /// Declines if the image or the subresource was never declared.
    pub fn plan(
        &mut self,
        image: ImageId,
        subresource: Subresource,
        use_: Use,
        contents: Contents,
    ) -> (planned: Result<Option<Transition>, Decline>)
        requires
            old(self).wf(),
            old(self)@.has_room_to_plan(image, subresource, use_, contents),
        ensures
            final(self).wf(),
            planned == match old(self)@.lookup(image, subresource) {
                Ok(state) => Ok::<Option<Transition>, Decline>(
                    transition(image, subresource, state, use_, contents),
                ),
                Err(decline) => Err(decline),
            },
            final(self)@ == old(self)@.planned(image, subresource, use_, contents),
    {
        let current = match self.state(image, subresource) {
            Ok(state) => state,
            Err(decline) => {
                return Err(decline);
            },
        };
        let target = use_.layout();
        let discarding = contents == Contents::Discard;
        let planned = if current.layout == target && !discarding {
            self.census.already_in_layout = self.census.already_in_layout + 1;
            None
        } else {
            self.census.transitions = self.census.transitions + 1;
            if discarding {
                self.census.discards = self.census.discards + 1;
            }
            Some(
                Transition {
                    image,
                    subresource,
                    from: if discarding {
                        ImageLayout::Undefined
                    } else {
                        current.layout
                    },
                    to: target,
                    src_stages: if discarding {
                        stage2::NONE
                    } else {
                        current.last_stages
                    },
                    src_access: if discarding {
                        access2::NONE
                    } else {
                        current.last_access
                    },
                    dst_stages: use_.stages(),
                    dst_access: use_.access(),
                    discarded_contents: discarding,
                },
            )
        };
        let used = State {
            layout: target,
            family: current.family,
            last_stages: use_.stages(),
            last_access: use_.access(),
        };
        self.set_state(image, subresource, used);
        Ok(planned)
    }

    /// Plan the two halves of a queue-family ownership move, and record it.
    ///
    /// `Ok(None)` when the family already owns it. `use_` is what the acquiring
    /// family is taking the image for: the visibility half of the transfer's
    /// memory dependency.
    ///
    /// Declines if the image or subresource was never declared, or the image
    /// has no recorded family.
    pub fn plan_family(
        &mut self,
        image: ImageId,
        subresource: Subresource,
        to_family: u32,
        use_: Use,
    ) -> (planned: Result<Option<OwnershipTransfer>, Decline>)
        requires
            old(self).wf(),
            old(self)@.has_room_to_move(image, subresource, to_family),
        ensures
            final(self).wf(),
            planned == match old(self)@.lookup(image, subresource) {
                Ok(state) => match state.family {
                    Some(from_family) => Ok::<Option<OwnershipTransfer>, Decline>(
                        transfer(image, subresource, state, from_family, to_family, use_),
                    ),
                    None => Err(Decline::NoRecordedFamily { image }),
                },
                Err(decline) => Err(decline),
            },
            final(self)@ == old(self)@.moved(image, subresource, to_family),
    {
        let current = match self.state(image, subresource) {
            Ok(state) => state,
            Err(decline) => {
                return Err(decline);
            },
        };
        let from_family: u32 = match current.family {
            Some(family) => family,
            None => {
                return Err(Decline::NoRecordedFamily { image });
            },
        };
        if from_family == to_family {
            return Ok(None);
        }
        self.census.ownership_transfers = self.census.ownership_transfers + 1;
        let moved = State { family: Some(to_family), ..current };
        self.set_state(image, subresource, moved);
        Ok(
            Some(
                OwnershipTransfer {
                    image,
                    subresource,
                    from_family,
                    to_family,
                    layout: current.layout,
                    src_stages: current.last_stages,
                    src_access: current.last_access,
                    dst_stages: use_.stages(),
                    dst_access: use_.access(),
                },
            ),
        )
    }

    /// What a subresource is doing.
    fn state(&self, image: ImageId, subresource: Subresource) -> (state: Result<State, Decline>)
        requires
            self.wf(),
        ensures
            state == self@.lookup(image, subresource),
    {
        match self.images.get(&image.0) {
            None => Err(Decline::UnknownImage { image }),
            Some(entry) => {
                if subresource.level >= entry.levels || subresource.layer >= entry.layers
                    || subresource.plane >= entry.planes {
                    return Err(Decline::UnknownSubresource { image, subresource });
                }
                assert(entry.wf());
                let of_level = &entry.states[subresource.level as usize];
                let of_layer = &of_level[subresource.layer as usize];
                let state = of_layer[subresource.plane as usize];
                assert(state == entry.at(subresource));
                Ok(state)
            },
        }
    }

    /// Replace what a subresource is doing.
    fn set_state(&mut self, image: ImageId, subresource: Subresource, state: State)
        requires
            old(self).wf(),
            old(self)@.lookup(image, subresource) is Ok,
        ensures
            final(self).wf(),
            final(self)@ == old(self)@.with(image, subresource, state),
    {
        if let Some(entry) = self.images.remove(&image.0) {
            let ghost before = entry;
            let mut entry = entry;
            assert(before.wf());
            entry.states[subresource.level as usize][subresource.layer as usize][subresource.plane as usize] =
                state;
            assert(entry.wf());
            assert forall|s: Subresource|
                before@.has(s) implies #[trigger] entry.at(s) == if s == subresource {
                state
            } else {
                before.at(s)
            } by {}
            assert(entry@.states =~= before@.states.insert(subresource, state));
            self.images.insert(image.0, entry);
            assert(self@.images =~= old(self)@.with(image, subresource, state).images);
        }
    }
}

impl Default for LayoutTracker {
    fn default() -> (tracker: Self)
        ensures
            tracker.wf(),
            tracker@ == TrackerView::empty(),
    {
        LayoutTracker::new()
    }
}

/// Planning a use or an ownership move of one subresource leaves every other
/// one as it was.
pub proof fn law_siblings_are_not_moved(
    tracker: TrackerView,
    image: ImageId,
    subresource: Subresource,
    other_image: ImageId,
    other: Subresource,
    use_: Use,
    contents: Contents,
    to_family: u32,
)
    requires
        tracker.wf(),
        image != other_image || subresource != other,
    ensures
        tracker.planned(image, subresource, use_, contents).lookup(other_image, other)
            == tracker.lookup(other_image, other),
        tracker.moved(image, subresource, to_family).lookup(other_image, other) == tracker.lookup(
            other_image,
            other,
        ),
{
}

/// One thing done to a tracker.
pub enum Step {
    Declare { image: ImageId, levels: u32, layers: u32, planes: u32, family: Option<u32> },
    Forget { image: ImageId },
    Plan { image: ImageId, subresource: Subresource, use_: Use, contents: Contents },
    Move { image: ImageId, subresource: Subresource, to_family: u32 },
}

/// The tracker after a history of steps.
pub open spec fn run(steps: Seq<Step>) -> TrackerView
    decreases steps.len(),
{
    if steps.len() == 0 {
        TrackerView::empty()
    } else {
        let before = run(steps.drop_last());
        match steps.last() {
            Step::Declare { image, levels, layers, planes, family } => before.declared(
                image,
                levels,
                layers,
                planes,
                family,
            ),
            Step::Forget { image } => before.forgotten(image),
            Step::Plan { image, subresource, use_, contents } => before.planned(
                image,
                subresource,
                use_,
                contents,
            ),
            Step::Move { image, subresource, to_family } => before.moved(
                image,
                subresource,
                to_family,
            ),
        }
    }
}

/// The use a history last put a subresource to since its image was declared.
pub open spec fn last_use(steps: Seq<Step>, image: ImageId, subresource: Subresource) -> Option<Use>
    decreases steps.len(),
{
    if steps.len() == 0 {
        None
    } else {
        match steps.last() {
            Step::Declare { image: declared, .. } if declared == image => None,
            Step::Plan { image: named, subresource: sub, use_, .. } if named == image && sub
                == subresource => Some(use_),
            _ => last_use(steps.drop_last(), image, subresource),
        }
    }
}

/// The family a history last gave a subresource to since its image was
/// declared; an image declared with none never gets one.
pub open spec fn owner(steps: Seq<Step>, image: ImageId, subresource: Subresource) -> Option<u32>
    decreases steps.len(),
{
    if steps.len() == 0 {
        None
    } else {
        match steps.last() {
            Step::Declare { image: declared, family, .. } if declared == image => family,
            Step::Move { image: named, subresource: sub, to_family } if named == image && sub
                == subresource => match owner(steps.drop_last(), image, subresource) {
                Some(_) => Some(to_family),
                None => None,
            },
            _ => owner(steps.drop_last(), image, subresource),
        }
    }
}

/// What a subresource is doing when `last` was its last use and `family` owns
/// it.
pub open spec fn left_by(last: Option<Use>, family: Option<u32>) -> State {
    match last {
        Some(use_) => State::fresh(family).used(use_),
        None => State::fresh(family),
    }
}

/// After any history, a subresource is in the layout of the last use it was put
/// to, waits on that use's stages and access, and belongs to the family it was
/// last given to; one nothing has used is as `vkCreateImage` left it.
pub proof fn law_a_subresource_is_where_its_last_use_left_it(
    steps: Seq<Step>,
    image: ImageId,
    subresource: Subresource,
)
    ensures
        run(steps).wf(),
        run(steps).lookup(image, subresource) matches Ok(state) ==> state == left_by(
            last_use(steps, image, subresource),
            owner(steps, image, subresource),
        ),
    decreases steps.len(),
{
    if steps.len() > 0 {
        let earlier = steps.drop_last();
        law_a_subresource_is_where_its_last_use_left_it(earlier, image, subresource);
        let before = run(earlier);
        match steps.last() {
            Step::Declare { .. } => {},
            Step::Forget { .. } => {},
            Step::Plan { image: named, subresource: sub, use_, contents } => {
                if named != image || sub != subresource {
                    law_siblings_are_not_moved(
                        before,
                        named,
                        sub,
                        image,
                        subresource,
                        use_,
                        contents,
                        0,
                    );
                }
            },
            Step::Move { image: named, subresource: sub, to_family } => {
                if named != image || sub != subresource {
                    law_siblings_are_not_moved(
                        before,
                        named,
                        sub,
                        image,
                        subresource,
                        Use::Present,
                        Contents::Keep,
                        to_family,
                    );
                }
            },
        }
    }
}

/// After any history, the transition a use is handed starts where the last use
/// of that subresource ended and waits for it; only a discard starts from
/// `UNDEFINED` and waits for nothing.
pub proof fn law_the_transition_chain_never_breaks(
    steps: Seq<Step>,
    image: ImageId,
    subresource: Subresource,
    use_: Use,
    contents: Contents,
)
    requires
        run(steps).lookup(image, subresource) is Ok,
    ensures
        ({
            let state = run(steps).lookup(image, subresource)->Ok_0;
            let last = last_use(steps, image, subresource);
            match transition(image, subresource, state, use_, contents) {
                None => contents == Contents::Keep && last == Some(use_),
                Some(t) => {
                    &&& contents == Contents::Discard || last != Some(use_)
                    &&& t.image == image && t.subresource == subresource
                    &&& t.to == layout_of(use_)
                    &&& t.dst_stages == stages_of(use_) && t.dst_access == access_of(use_)
                    &&& contents == Contents::Discard ==> t.from == ImageLayout::Undefined
                        && t.src_stages == stage2::NONE && t.src_access == access2::NONE
                    &&& contents == Contents::Keep && last is None ==> t.from
                        == ImageLayout::Undefined && t.src_stages == stage2::NONE && t.src_access
                        == access2::NONE
                    &&& contents == Contents::Keep && last is Some ==> t.from == layout_of(last->0)
                        && t.src_stages == stages_of(last->0) && t.src_access == access_of(last->0)
                },
            }
        }),
{
    law_a_subresource_is_where_its_last_use_left_it(steps, image, subresource);
}

/// How many plans of a history were accepted.
pub open spec fn accepted(steps: Seq<Step>) -> nat
    decreases steps.len(),
{
    if steps.len() == 0 {
        0
    } else {
        accepted(steps.drop_last()) + match steps.last() {
            Step::Plan { image, subresource, .. } => if run(steps.drop_last()).lookup(
                image,
                subresource,
            ) is Ok {
                1nat
            } else {
                0nat
            },
            _ => 0nat,
        }
    }
}

/// Every accepted plan is counted once, as a transition or as the steady state,
/// and every discard is a transition.
pub proof fn law_the_census_counts_every_accepted_plan(steps: Seq<Step>)
    requires
        accepted(steps) <= usize::MAX,
    ensures
        run(steps).census.already_in_layout + run(steps).census.transitions == accepted(steps),
        run(steps).census.discards <= run(steps).census.transitions,
    decreases steps.len(),
{
    if steps.len() > 0 {
        law_the_census_counts_every_accepted_plan(steps.drop_last());
    }
}

/// No two declines share a slug, and what a decline says starts with its slug.
pub proof fn law_every_decline_names_itself(a: Decline, b: Decline)
    ensures
        a.slug_text() == b.slug_text() ==> {
            &&& a is UnknownImage <==> b is UnknownImage
            &&& a is UnknownSubresource <==> b is UnknownSubresource
            &&& a is NoRecordedFamily <==> b is NoRecordedFamily
        },
        a.slug_text().is_prefix_of(a.message_text()),
{
    reveal_strlit("vk_layout_unknown_image");
    reveal_strlit("vk_layout_unknown_subresource");
    reveal_strlit("vk_layout_no_recorded_family");
    assert(a.slug_text() =~= a.message_text().take(a.slug_text().len() as int));
}

/// The extents a history last declared an image with, unless it forgot it
/// since.
pub open spec fn known(steps: Seq<Step>, image: ImageId) -> Option<(u32, u32, u32)>
    decreases steps.len(),
{
    if steps.len() == 0 {
        None
    } else {
        match steps.last() {
            Step::Declare { image: declared, levels, layers, planes, .. } if declared == image =>
                Some((levels, layers, planes)),
            Step::Forget { image: forgotten } if forgotten == image => None,
            _ => known(steps.drop_last(), image),
        }
    }
}

/// Whether a history knows a subresource: its image was declared and not
/// forgotten, and it is within what the image was declared with.
pub open spec fn knows(steps: Seq<Step>, image: ImageId, subresource: Subresource) -> bool {
    known(steps, image) matches Some(extents) && subresource.level < extents.0 && subresource.layer
        < extents.1 && subresource.plane < extents.2
}

/// After any history, exactly the subresources it declared and did not forget
/// are known. An image never declared is unknown as an image, and anything
/// outside one that was is unknown as a subresource.
pub proof fn law_what_was_declared_is_known(
    steps: Seq<Step>,
    image: ImageId,
    subresource: Subresource,
)
    ensures
        run(steps).wf(),
        run(steps).images.contains_key(image.0) <==> known(steps, image) is Some,
        run(steps).lookup(image, subresource) is Ok <==> knows(steps, image, subresource),
        known(steps, image) is None ==> run(steps).lookup(image, subresource) == Err::<
            State,
            Decline,
        >(Decline::UnknownImage { image }),
        known(steps, image) is Some && !knows(steps, image, subresource) ==> run(steps).lookup(
            image,
            subresource,
        ) == Err::<State, Decline>(Decline::UnknownSubresource { image, subresource }),
        run(steps).images.contains_key(image.0) ==> {
            let entry = run(steps).images[image.0];
            known(steps, image) == Some((entry.levels, entry.layers, entry.planes))
        },
    decreases steps.len(),
{
    law_a_subresource_is_where_its_last_use_left_it(steps, image, subresource);
    if steps.len() > 0 {
        law_what_was_declared_is_known(steps.drop_last(), image, subresource);
    }
}

/// Planning a use after any history answers for that use and for the last one
/// of the same subresource: nothing where they are the same and the contents
/// are kept, and otherwise a transition into the layout asked for, whose second
/// half is the use asked for and whose first is the last use, or nothing where
/// the contents are discarded or there was none. The subresource is then where
/// the use asked for leaves it.
pub proof fn law_a_transition_joins_the_last_use_to_the_next(
    steps: Seq<Step>,
    tracker: &mut LayoutTracker,
    image: ImageId,
    subresource: Subresource,
    use_: Use,
    contents: Contents,
    answer: Result<Option<Transition>, Decline>,
)
    requires
        old(tracker)@ == run(steps),
        call_ensures(LayoutTracker::plan, (tracker, image, subresource, use_, contents), answer),
    ensures
        answer is Ok <==> knows(steps, image, subresource),
        answer is Err ==> final(tracker)@ == old(tracker)@,
        answer matches Ok(None) ==> contents is Keep && last_use(steps, image, subresource) == Some(
            use_,
        ),
        answer matches Ok(Some(t)) ==> {
            let last = last_use(steps, image, subresource);
            &&& contents is Discard || last != Some(use_)
            &&& t.image == image
            &&& t.subresource == subresource
            &&& t.to == layout_of(use_)
            &&& t.dst_stages == stages_of(use_)
            &&& t.dst_access == access_of(use_)
            &&& t.discarded_contents <==> contents is Discard
            &&& contents is Keep && last is Some ==> t.from == layout_of(last->0) && t.src_stages
                == stages_of(last->0) && t.src_access == access_of(last->0)
            &&& contents is Discard || last is None ==> t.from is Undefined && t.src_stages
                == stage2::NONE && t.src_access == access2::NONE
        },
        answer is Ok ==> {
            let after = final(tracker)@.lookup(image, subresource);
            &&& after is Ok
            &&& after->Ok_0.layout == layout_of(use_)
            &&& after->Ok_0.last_stages == stages_of(use_)
            &&& after->Ok_0.last_access == access_of(use_)
            &&& after->Ok_0.family == owner(steps, image, subresource)
        },
{
    law_a_subresource_is_where_its_last_use_left_it(steps, image, subresource);
    law_what_was_declared_is_known(steps, image, subresource);
}

/// Planning an ownership move after any history answers for the use it was
/// asked for and for the last one of the same subresource: the acquiring half
/// names the first, the releasing half and the layout the second. It leaves the
/// family that owned the subresource for the one asked for, and changes neither
/// layout nor last use. An image with no owner has none to move from, and one
/// already there does not move.
pub proof fn law_a_move_is_ordered_between_its_uses(
    steps: Seq<Step>,
    tracker: &mut LayoutTracker,
    image: ImageId,
    subresource: Subresource,
    to_family: u32,
    use_: Use,
    answer: Result<Option<OwnershipTransfer>, Decline>,
)
    requires
        old(tracker)@ == run(steps),
        call_ensures(
            LayoutTracker::plan_family,
            (tracker, image, subresource, to_family, use_),
            answer,
        ),
    ensures
        answer is Ok <==> knows(steps, image, subresource) && owner(
            steps,
            image,
            subresource,
        ) is Some,
        knows(steps, image, subresource) && answer is Err ==> answer == Err::<
            Option<OwnershipTransfer>,
            Decline,
        >(Decline::NoRecordedFamily { image }),
        answer matches Ok(None) ==> owner(steps, image, subresource) == Some(to_family),
        !(answer matches Ok(Some(_))) ==> final(tracker)@ == old(tracker)@,
        answer matches Ok(Some(t)) ==> {
            let last = last_use(steps, image, subresource);
            &&& t.image == image
            &&& t.subresource == subresource
            &&& Some(t.from_family) == owner(steps, image, subresource)
            &&& t.to_family == to_family
            &&& t.from_family != t.to_family
            &&& t.dst_stages == stages_of(use_)
            &&& t.dst_access == access_of(use_)
            &&& last is Some ==> t.layout == layout_of(last->0) && t.src_stages == stages_of(
                last->0,
            ) && t.src_access == access_of(last->0)
            &&& last is None ==> t.layout is Undefined && t.src_stages == stage2::NONE
                && t.src_access == access2::NONE
        },
        answer matches Ok(Some(t)) ==> {
            let before = old(tracker)@.lookup(image, subresource);
            let after = final(tracker)@.lookup(image, subresource);
            &&& after is Ok
            &&& after->Ok_0.family == Some(to_family)
            &&& after->Ok_0.layout == before->Ok_0.layout
            &&& after->Ok_0.last_stages == before->Ok_0.last_stages
            &&& after->Ok_0.last_access == before->Ok_0.last_access
        },
{
    law_a_subresource_is_where_its_last_use_left_it(steps, image, subresource);
    law_what_was_declared_is_known(steps, image, subresource);
}

/// What a tracker answers for a subresource after any history is the layout of
/// its last use, or `UNDEFINED` before one, and the family it was last given to.
pub proof fn law_a_tracker_answers_for_the_last_use(
    steps: Seq<Step>,
    tracker: LayoutTracker,
    image: ImageId,
    subresource: Subresource,
    layout: Result<ImageLayout, Decline>,
    family: Result<Option<u32>, Decline>,
)
    requires
        tracker@ == run(steps),
        call_ensures(LayoutTracker::layout, (&tracker, image, subresource), layout),
        call_ensures(LayoutTracker::family, (&tracker, image, subresource), family),
    ensures
        layout is Ok <==> knows(steps, image, subresource),
        family is Ok <==> knows(steps, image, subresource),
        layout matches Ok(layout) ==> match last_use(steps, image, subresource) {
            Some(use_) => layout == layout_of(use_),
            None => layout is Undefined,
        },
        family matches Ok(family) ==> family == owner(steps, image, subresource),
{
    law_a_subresource_is_where_its_last_use_left_it(steps, image, subresource);
    law_what_was_declared_is_known(steps, image, subresource);
}

/// A plan moves one counter, and a discard one more: the steady state where
/// nothing is owed, a transition where one is. A move that leaves its family
/// moves its own counter and no other.
pub proof fn law_a_plan_is_counted_for_what_it_did(
    tracker: TrackerView,
    image: ImageId,
    subresource: Subresource,
    use_: Use,
    contents: Contents,
    to_family: u32,
)
    requires
        tracker.lookup(image, subresource) is Ok,
        tracker.census.already_in_layout < usize::MAX,
        tracker.census.transitions < usize::MAX,
        tracker.census.discards < usize::MAX,
        tracker.census.ownership_transfers < usize::MAX,
    ensures
        ({
            let state = tracker.lookup(image, subresource)->Ok_0;
            let before = tracker.census;
            let planned = tracker.planned(image, subresource, use_, contents).census;
            let moved = tracker.moved(image, subresource, to_family).census;
            let steady = contents is Keep && state.layout == layout_of(use_);
            &&& planned.already_in_layout - before.already_in_layout == if steady {
                1int
            } else {
                0int
            }
            &&& planned.transitions - before.transitions == if steady {
                0int
            } else {
                1int
            }
            &&& planned.discards - before.discards == if contents is Discard {
                1int
            } else {
                0int
            }
            &&& planned.ownership_transfers == before.ownership_transfers
            &&& moved.ownership_transfers - before.ownership_transfers == if state.family is Some
                && state.family != Some(to_family) {
                1int
            } else {
                0int
            }
            &&& moved.already_in_layout == before.already_in_layout
            &&& moved.transitions == before.transitions
            &&& moved.discards == before.discards
        }),
{
}

/// Every call is the step it is named for: declaring, forgetting, planning and
/// moving take a tracker from one history to the same history and that step.
pub proof fn law_every_call_is_its_own_step(
    steps: Seq<Step>,
    tracker: &mut LayoutTracker,
    image: ImageId,
    subresource: Subresource,
    levels: u32,
    layers: u32,
    planes: u32,
    family: Option<u32>,
    use_: Use,
    contents: Contents,
    to_family: u32,
    transitioned: Result<Option<Transition>, Decline>,
    moved: Result<Option<OwnershipTransfer>, Decline>,
)
    requires
        old(tracker)@ == run(steps),
    ensures
        call_ensures(LayoutTracker::declare, (tracker, image, levels, layers, planes, family), ())
            ==> final(tracker)@ == run(
            steps.push(Step::Declare { image, levels, layers, planes, family }),
        ),
        call_ensures(LayoutTracker::forget, (tracker, image), ()) ==> final(tracker)@ == run(
            steps.push(Step::Forget { image }),
        ),
        call_ensures(LayoutTracker::plan, (tracker, image, subresource, use_, contents), transitioned)
            ==> final(tracker)@ == run(
            steps.push(Step::Plan { image, subresource, use_, contents }),
        ),
        call_ensures(
            LayoutTracker::plan_family,
            (tracker, image, subresource, to_family, use_),
            moved,
        ) ==> final(tracker)@ == run(steps.push(Step::Move { image, subresource, to_family })),
{
    assert(steps.push(Step::Forget { image }).drop_last() =~= steps);
    assert(steps.push(Step::Declare { image, levels, layers, planes, family }).drop_last()
        =~= steps);
    assert(steps.push(Step::Plan { image, subresource, use_, contents }).drop_last() =~= steps);
    assert(steps.push(Step::Move { image, subresource, to_family }).drop_last() =~= steps);
}

/// A tracker begins with no image and nothing counted.
pub proof fn law_a_tracker_begins_empty(tracker: LayoutTracker, image: ImageId)
    requires
        call_ensures(LayoutTracker::new, (), tracker),
    ensures
        tracker@ == run(Seq::empty()),
        !tracker@.images.contains_key(image.0),
        tracker@.census.already_in_layout == 0,
        tracker@.census.transitions == 0,
        tracker@.census.discards == 0,
        tracker@.census.ownership_transfers == 0,
{
}

} // verus!
