//! Which mechanism carries a draw's descriptors on this host, and what one
//! emission is therefore allowed to write.
//!
//! Three tiers form a capability ladder: descriptor buffers where the driver
//! reports the extension and a qualification probe on this host passed, push
//! descriptors where the extension is present and the layout fits the reported
//! limit, and per-worker pools of reusable sets otherwise. The bottom rung is
//! Vulkan 1.0, so [`select`] is total and never refuses.
//!
//! An operator's [`Narrowing`] can take a rung away and never add one.
//!
//! **An allocated set a recorded draw will read must not be updated.** A set is
//! read when the draw that bound it executes, so the whole span from the bind
//! to the end of that submission is closed to writes. [`SetRing`] is where that
//! span lives: [`SetRing::emit`] answers with the set and with whether the
//! write is partial or whole, and it closes the set it hands out. A draw that
//! emits nothing still closes the set it binds, through [`SetRing::bind`].
//!
//! Exhaustion is a refusal and never a wait.

use crate::bindings::{
    law_a_clean_table_already_agrees, law_an_emission_makes_the_set_what_the_guest_bound,
    law_every_step_keeps_the_set_agreeing, unwritten, BindingTable, Dirty, DirtyView, Drawn, Step,
    TableView,
};
use crate::guest::{BufferBinding, ObjectBinding, Switch, TimelinePoint};
use crate::tally::{lemma_tally_none, lemma_tally_take, tally};
use crate::text::{decimal, push_decimal, push_text};
use vstd::prelude::*;

verus! {

/// What this device offers for carrying descriptors, as capabilities rather
/// than names.
#[derive(Clone, Copy, Debug, Default, PartialEq, Eq, Structural)]
pub struct DescriptorCell {
    /// `VK_KHR_push_descriptor` (or the Vulkan 1.4 promotion) is present.
    pub push_descriptor: bool,
    /// `maxPushDescriptors`. A layout with more descriptors than this cannot be
    /// pushed at all, so it is part of the capability and not a tuning number.
    pub max_push_descriptors: u32,
    /// `VK_EXT_descriptor_buffer` is present.
    pub descriptor_buffer: bool,
    /// A qualification probe for descriptor buffers ran on this host and
    /// passed. A caller with no probe result supplies `false`.
    pub descriptor_buffer_qualified: bool,
}

/// An operator's veto over a rung. Every field removes a rung and none adds
/// one.
#[derive(Clone, Copy, Debug, Default, PartialEq, Eq, Structural)]
pub struct Narrowing {
    /// Keep descriptor state off the push path even where the device offers it
    /// and the layout fits.
    pub no_push_descriptors: bool,
    /// Keep descriptor state off the descriptor-buffer path even where the
    /// device offers it and it qualified.
    pub no_descriptor_buffers: bool,
}

impl Narrowing {
    /// The vetoes an operator set, given the environment's push-descriptor
    /// switch.
    ///
    /// Only [`Switch::Off`] does anything: `On` would have to widen to mean
    /// anything, and no switch enables descriptor buffers because what stands
    /// above them is a measurement.
    #[must_use]
    pub fn from_env(push_descriptors: Switch) -> (narrowing: Self)
        ensures
            narrowing.no_push_descriptors <==> push_descriptors == Switch::Off,
            !narrowing.no_descriptor_buffers,
    {
        Narrowing {
            no_push_descriptors: push_descriptors == Switch::Off,
            no_descriptor_buffers: false,
        }
    }
}

/// Which mechanism carries descriptors.
#[derive(Clone, Copy, Debug, PartialEq, Eq, Structural)]
pub enum Tier {
    /// Descriptors are written into rail-owned memory and the shader reads them
    /// from there.
    DescriptorBuffer,
    /// Descriptors are pushed into command-buffer state. `max` is the device's
    /// reported limit.
    PushDescriptor { max: u32 },
    /// Descriptors live in sets allocated from a per-worker pool.
    PooledSets,
}

impl Tier {
    /// The tier's name.
    #[must_use]
    pub fn name(self) -> (name: &'static str)
        ensures
            name@ == match self {
                Tier::DescriptorBuffer => "descriptor_buffer"@,
                Tier::PushDescriptor { .. } => "push_descriptor"@,
                Tier::PooledSets => "pooled_sets"@,
            },
    {
        match self {
            Tier::DescriptorBuffer => "descriptor_buffer",
            Tier::PushDescriptor { .. } => "push_descriptor",
            Tier::PooledSets => "pooled_sets",
        }
    }

    /// Whether an emission on this tier can be a partial write without first
    /// finding a region the GPU is not reading.
    ///
    /// True for pushing, where the write goes into command-buffer state that no
    /// submission is reading yet. For both memory-backed tiers the answer is
    /// [`SetRing::emit`]'s to give.
    #[must_use]
    pub fn partial_is_always_legal(self) -> (legal: bool)
        ensures
            legal == (self is PushDescriptor),
    {
        matches!(self, Tier::PushDescriptor { .. })
    }

    /// How high the tier stands on the ladder.
    pub open spec fn rung(self) -> int {
        match self {
            Tier::DescriptorBuffer => 2,
            Tier::PushDescriptor { .. } => 1,
            Tier::PooledSets => 0,
        }
    }
}

/// Why a rung was not taken.
#[derive(Clone, Copy, Debug, PartialEq, Eq, Structural)]
pub enum Declined {
    /// The device does not offer it.
    Unsupported,
    /// The device offers it, but no qualification probe has passed here.
    Unqualified,
    /// An operator narrowed it away.
    NarrowedByOperator,
    /// The device reports a push limit of zero, so nothing can be pushed. The
    /// extension is there and the limit is what refuses.
    LimitIsZero,
}

impl Declined {
    /// The reason's name.
    #[must_use]
    pub fn name(self) -> (name: &'static str)
        ensures
            name@ == match self {
                Declined::Unsupported => "unsupported"@,
                Declined::Unqualified => "unqualified"@,
                Declined::NarrowedByOperator => "narrowed_by_operator"@,
                Declined::LimitIsZero => "limit_is_zero"@,
            },
    {
        match self {
            Declined::Unsupported => "unsupported",
            Declined::Unqualified => "unqualified",
            Declined::NarrowedByOperator => "narrowed_by_operator",
            Declined::LimitIsZero => "limit_is_zero",
        }
    }
}

/// The chosen rung and what the ones above it were declined for.
#[derive(Clone, Copy, Debug, PartialEq, Eq, Structural)]
pub struct Selection {
    pub tier: Tier,
    /// `None` when descriptor buffers were chosen.
    pub descriptor_buffer: Option<Declined>,
    /// `None` when the ladder never reached the push rung, or took it.
    pub push_descriptor: Option<Declined>,
}

/// Why the descriptor-buffer rung is not taken, where it is not.
pub open spec fn buffer_declined(cell: DescriptorCell, narrowing: Narrowing) -> Option<Declined> {
    if !cell.descriptor_buffer {
        Some(Declined::Unsupported)
    } else if narrowing.no_descriptor_buffers {
        Some(Declined::NarrowedByOperator)
    } else if !cell.descriptor_buffer_qualified {
        Some(Declined::Unqualified)
    } else {
        None
    }
}

/// Why the push rung is not taken, where it is not.
pub open spec fn push_declined(cell: DescriptorCell, narrowing: Narrowing) -> Option<Declined> {
    if !cell.push_descriptor {
        Some(Declined::Unsupported)
    } else if narrowing.no_push_descriptors {
        Some(Declined::NarrowedByOperator)
    } else if cell.max_push_descriptors == 0 {
        Some(Declined::LimitIsZero)
    } else {
        None
    }
}

/// The highest rung that nothing declines.
pub open spec fn selected(cell: DescriptorCell, narrowing: Narrowing) -> Selection {
    let buffer = buffer_declined(cell, narrowing);
    let push = push_declined(cell, narrowing);
    if buffer is None {
        Selection { tier: Tier::DescriptorBuffer, descriptor_buffer: None, push_descriptor: None }
    } else if push is None {
        Selection {
            tier: Tier::PushDescriptor { max: cell.max_push_descriptors },
            descriptor_buffer: buffer,
            push_descriptor: None,
        }
    } else {
        Selection { tier: Tier::PooledSets, descriptor_buffer: buffer, push_descriptor: push }
    }
}

/// Walk the ladder once.
///
/// Total: the pooled rung requires nothing beyond Vulkan 1.0, so there is no
/// failure to return.
#[must_use]
pub fn select(cell: DescriptorCell, narrowing: Narrowing) -> (selection: Selection)
    ensures
        selection == selected(cell, narrowing),
{
    let descriptor_buffer = if !cell.descriptor_buffer {
        Declined::Unsupported
    } else if narrowing.no_descriptor_buffers {
        Declined::NarrowedByOperator
    } else if !cell.descriptor_buffer_qualified {
        Declined::Unqualified
    } else {
        return Selection {
            tier: Tier::DescriptorBuffer,
            descriptor_buffer: None,
            push_descriptor: None,
        };
    };

    let push_descriptor = if !cell.push_descriptor {
        Declined::Unsupported
    } else if narrowing.no_push_descriptors {
        Declined::NarrowedByOperator
    } else if cell.max_push_descriptors == 0 {
        Declined::LimitIsZero
    } else {
        return Selection {
            tier: Tier::PushDescriptor { max: cell.max_push_descriptors },
            descriptor_buffer: Some(descriptor_buffer),
            push_descriptor: None,
        };
    };

    Selection {
        tier: Tier::PooledSets,
        descriptor_buffer: Some(descriptor_buffer),
        push_descriptor: Some(push_descriptor),
    }
}

/// A narrowing moves the choice down the ladder or leaves it, whatever the
/// device offers, and vetoing more never moves it up.
pub proof fn law_no_narrowing_widens(cell: DescriptorCell, open: Narrowing, narrowed: Narrowing)
    requires
        open.no_push_descriptors ==> narrowed.no_push_descriptors,
        open.no_descriptor_buffers ==> narrowed.no_descriptor_buffers,
    ensures
        selected(cell, narrowed).tier.rung() <= selected(cell, open).tier.rung(),
{
}

/// How one shader-visible layout is carried, once its descriptor count is
/// known.
///
/// The push rung is chosen per device but applies per layout: a layout with
/// more descriptors than `maxPushDescriptors` cannot be pushed at all.
#[derive(Clone, Copy, Debug, PartialEq, Eq, Structural)]
pub enum LayoutCarrier {
    DescriptorBuffer,
    Push,
    /// The layout is carried by an allocated set. `over_push_limit` says
    /// whether that is because the layout was too wide for the push rung this
    /// device is otherwise on.
    PooledSet { over_push_limit: bool },
}

impl Selection {
    /// How a layout with `descriptors` bindings is carried.
    #[must_use]
    pub fn carrier(self, descriptors: u32) -> (carrier: LayoutCarrier)
        ensures
            carrier == match self.tier {
                Tier::DescriptorBuffer => LayoutCarrier::DescriptorBuffer,
                Tier::PushDescriptor { max } => if descriptors <= max {
                    LayoutCarrier::Push
                } else {
                    LayoutCarrier::PooledSet { over_push_limit: true }
                },
                Tier::PooledSets => LayoutCarrier::PooledSet { over_push_limit: false },
            },
    {
        match self.tier {
            Tier::DescriptorBuffer => LayoutCarrier::DescriptorBuffer,
            Tier::PushDescriptor { max } => {
                if descriptors <= max {
                    LayoutCarrier::Push
                } else {
                    LayoutCarrier::PooledSet { over_push_limit: true }
                }
            },
            Tier::PooledSets => LayoutCarrier::PooledSet { over_push_limit: false },
        }
    }
}

/// What one allocated descriptor set is doing.
///
/// Orthogonal to which set describes the current bindings: that is the ring's
/// [`SetRing::holder`].
#[derive(Clone, Copy, Debug, PartialEq, Eq, Structural)]
pub enum SetState {
    /// Nothing worth keeping is in it, and nothing names it.
    Free,
    /// Written, and no draw has bound it since, so it may be updated in place.
    Live,
    /// A recorded draw binds it and no submission carries that draw yet. Not
    /// writable: the draw reads it when it executes.
    Bound,
    /// Named by a submission and readable by the GPU until this point.
    Submitted(TimelinePoint),
    /// Both at once: a submission may read it until this point, and a recorded
    /// draw that has not been submitted binds it. The timeline passing the
    /// point returns this to [`SetState::Bound`] and not to
    /// [`SetState::Live`]: the GPU is finished with it and the recording is
    /// not.
    SubmittedAndBound(TimelinePoint),
}

impl SetState {
    /// A submission may still read the set.
    pub open spec fn in_flight(self) -> bool {
        self is Submitted || self is SubmittedAndBound
    }

    /// A recorded draw that no submission carries binds the set.
    pub open spec fn held_by_a_draw(self) -> bool {
        self is Bound || self is SubmittedAndBound
    }
}

/// Where an emission writes, and how much of the binding table it has to write.
///
/// A receipt, not a description: handing one to [`SetRing::abandoned`] frees
/// the set it names. So it is neither `Copy` nor `Clone`, and its fields are
/// private.
#[derive(Debug, PartialEq, Eq, Structural)]
#[must_use]
pub struct SetEmission {
    set: usize,
    partial: bool,
}

impl SetEmission {
    /// The set the receipt names.
    pub closed spec fn set_index(&self) -> int {
        self.set as int
    }

    /// The set already holds the previous contents.
    pub closed spec fn is_partial(&self) -> bool {
        self.partial
    }

    /// Index into the caller's own `VkDescriptorSet` array.
    #[must_use]
    pub fn set(&self) -> (set: usize)
        ensures
            set == self.set_index(),
    {
        self.set
    }

    /// Whether the set already held the previous contents, so only the dirty
    /// slots need writing.
    #[must_use]
    pub fn partial(&self) -> (partial: bool)
        ensures
            partial == self.is_partial(),
    {
        self.partial
    }

    /// Whether the caller must write every bound slot rather than only the
    /// dirty ones.
    #[must_use]
    pub fn whole(&self) -> (whole: bool)
        ensures
            whole == !self.is_partial(),
    {
        !self.partial
    }

    /// A receipt for a set the ring never handed out, for driving the paths
    /// that only a wrong caller could reach.
    pub fn forged(set: usize, partial: bool) -> (emission: Self)
        ensures
            emission.set_index() == set,
            emission.is_partial() == partial,
    {
        SetEmission { set, partial }
    }
}

/// Every set is either live to somebody else or in flight.
#[derive(Clone, Copy, Debug, PartialEq, Eq, Structural)]
pub struct Exhausted {
    pub depth: usize,
    pub in_flight: usize,
}

impl Exhausted {
    /// The refusal's slug.
    #[must_use]
    pub fn slug(self) -> (slug: &'static str)
        ensures
            slug@ == "vk_descriptor_no_free_set"@,
    {
        "vk_descriptor_no_free_set"
    }

    /// The refusal with its numbers.
    pub fn message(self) -> (text: String)
        ensures
            text@ == "vk_descriptor_no_free_set"@ + " depth="@ + decimal(self.depth as nat)
                + " in_flight="@ + decimal(self.in_flight as nat),
    {
        let mut text = String::new();
        push_text(&mut text, self.slug());
        push_text(&mut text, " depth=");
        push_decimal(&mut text, self.depth as u64);
        push_text(&mut text, " in_flight=");
        push_decimal(&mut text, self.in_flight as u64);
        assert(text@ =~= "vk_descriptor_no_free_set"@ + " depth="@ + decimal(self.depth as nat)
            + " in_flight="@ + decimal(self.in_flight as nat));
        text
    }
}

/// What the ring has been asked for.
#[derive(Clone, Copy, Debug, Default, PartialEq, Eq, Structural)]
pub struct Census {
    /// Emissions that updated a set in place, writing only what changed.
    pub partial: usize,
    /// Emissions that had to take a fresh set and write the whole table.
    pub whole: usize,
    /// Sets returned by the timeline.
    pub recycled: usize,
    /// Emissions refused for want of a set.
    pub refused: usize,
    /// Emissions planned and then given up.
    pub abandoned: usize,
}

/// What an emission would answer: the set to write and whether its contents
/// survive.
pub struct Choice {
    pub set: int,
    pub partial: bool,
}

/// A ring's contents.
pub struct RingView {
    pub sets: Seq<SetState>,
    pub holder: Option<int>,
    pub census: Census,
}

impl RingView {
    /// A ring has sets; the holder is one of them and is not free; and the only
    /// set that may be updated in place is the holder.
    pub open spec fn wf(self) -> bool {
        &&& self.sets.len() > 0
        &&& self.holder matches Some(h) ==> 0 <= h < self.sets.len() && self.sets[h] !is Free
        &&& forall|i: int|
            0 <= i < self.sets.len() && #[trigger] self.sets[i] is Live ==> self.holder == Some(i)
    }

    /// The lowest free set.
    pub open spec fn lowest_free(self) -> Option<int> {
        if exists|i: int| self.is_lowest_free(i) {
            Some(choose|i: int| self.is_lowest_free(i))
        } else {
            None
        }
    }

    /// Whether `set` is free and no set before it is.
    pub open spec fn is_lowest_free(self, set: int) -> bool {
        &&& 0 <= set < self.sets.len()
        &&& self.sets[set] is Free
        &&& forall|i: int| 0 <= i < set ==> !(#[trigger] self.sets[i] is Free)
    }

    /// The set an emission may write now: the holder while no draw has bound it
    /// since it was written, otherwise the lowest free set, otherwise none.
    pub open spec fn writable(self) -> Option<Choice> {
        if self.holder is Some && self.sets[self.holder->0] is Live {
            Some(Choice { set: self.holder->0, partial: true })
        } else {
            match self.lowest_free() {
                Some(set) => Some(Choice { set, partial: false }),
                None => None,
            }
        }
    }

    /// One more emission can be counted.
    pub open spec fn has_room_to_emit(self) -> bool {
        match self.writable() {
            Some(choice) if choice.partial => self.census.partial < usize::MAX,
            Some(_) => self.census.whole < usize::MAX,
            None => self.census.refused < usize::MAX,
        }
    }

    /// The ring after an emission.
    pub open spec fn emitted(self) -> RingView {
        match self.writable() {
            Some(choice) => RingView {
                sets: self.sets.update(choice.set, SetState::Bound),
                holder: Some(choice.set),
                census: if choice.partial {
                    Census { partial: (self.census.partial + 1) as usize, ..self.census }
                } else {
                    Census { whole: (self.census.whole + 1) as usize, ..self.census }
                },
            },
            None => RingView {
                census: Census { refused: (self.census.refused + 1) as usize, ..self.census },
                ..self
            },
        }
    }

    /// The ring after a draw bound the holder without writing it.
    pub open spec fn bound(self) -> RingView {
        match self.holder {
            Some(h) => RingView {
                sets: self.sets.update(
                    h,
                    match self.sets[h] {
                        SetState::Live => SetState::Bound,
                        SetState::Submitted(at) => SetState::SubmittedAndBound(at),
                        unchanged => unchanged,
                    },
                ),
                ..self
            },
            None => self,
        }
    }

    /// What a submission at `at` makes of set `i`.
    pub open spec fn stamped(self, i: int, at: TimelinePoint) -> SetState {
        match self.sets[i] {
            SetState::Bound => SetState::Submitted(at),
            SetState::Live if self.holder == Some(i) => SetState::Submitted(at),
            SetState::Submitted(previous) if self.holder == Some(i) && at.0 > previous.0 =>
                SetState::Submitted(at),
            SetState::SubmittedAndBound(previous) => SetState::Submitted(
                if at.0 > previous.0 {
                    at
                } else {
                    previous
                },
            ),
            unchanged => unchanged,
        }
    }

    /// The ring after a submission the GPU may read until `at`.
    pub open spec fn submitted(self, at: TimelinePoint) -> RingView {
        RingView { sets: Seq::new(self.sets.len(), |i: int| self.stamped(i, at)), ..self }
    }

    /// Whether the timeline at `reached` releases a set in `state`.
    pub open spec fn releases(reached: TimelinePoint, state: SetState) -> bool {
        match state {
            SetState::Submitted(at) => reached.0 >= at.0,
            SetState::SubmittedAndBound(at) => reached.0 >= at.0,
            _ => false,
        }
    }

    /// What the timeline reaching `reached` makes of set `i`.
    pub open spec fn released(self, i: int, reached: TimelinePoint) -> SetState {
        match self.sets[i] {
            SetState::Submitted(at) if reached.0 >= at.0 => if self.holder == Some(i) {
                SetState::Live
            } else {
                SetState::Free
            },
            SetState::SubmittedAndBound(at) if reached.0 >= at.0 => SetState::Bound,
            unchanged => unchanged,
        }
    }

    /// How many sets the timeline at `reached` releases.
    pub open spec fn releasable(self, reached: TimelinePoint) -> nat {
        tally(self.sets, |state: SetState| RingView::releases(reached, state))
    }

    /// The ring after the timeline reached `reached`.
    pub open spec fn recycled(self, reached: TimelinePoint) -> RingView {
        RingView {
            sets: Seq::new(self.sets.len(), |i: int| self.released(i, reached)),
            census: Census {
                recycled: (self.census.recycled + self.releasable(reached)) as usize,
                ..self.census
            },
            ..self
        }
    }

    /// How many sets a submission may still read.
    pub open spec fn in_flight(self) -> nat {
        tally(self.sets, |state: SetState| state.in_flight())
    }

    /// How many sets are free.
    pub open spec fn free(self) -> nat {
        tally(self.sets, |state: SetState| state is Free)
    }

    /// How many sets are live.
    pub open spec fn live(self) -> nat {
        tally(self.sets, |state: SetState| state is Live)
    }

    /// How many sets a recorded draw binds and no submission carries.
    pub open spec fn unsubmitted(self) -> nat {
        tally(self.sets, |state: SetState| state is Bound)
    }

    /// The ring after the recording that planned a write into `set` gave it up.
    pub open spec fn abandoned(self, set: int) -> RingView {
        if 0 <= set < self.sets.len() {
            RingView {
                sets: self.sets.update(
                    set,
                    match self.sets[set] {
                        SetState::Submitted(at) => SetState::Submitted(at),
                        SetState::SubmittedAndBound(at) => SetState::Submitted(at),
                        _ => SetState::Free,
                    },
                ),
                holder: if self.holder == Some(set) {
                    None
                } else {
                    self.holder
                },
                census: Census { abandoned: (self.census.abandoned + 1) as usize, ..self.census },
            }
        } else {
            self
        }
    }

    /// A ring whose pool was reset.
    pub open spec fn reset(self) -> RingView {
        RingView {
            sets: Seq::new(self.sets.len(), |i: int| SetState::Free),
            holder: None,
            ..self
        }
    }
}

/// One worker's descriptor sets for one layout: which of them describes the
/// current bindings, and which of them may be written.
///
/// No Vulkan object: the caller holds the `VkDescriptorPool` and the
/// `VkDescriptorSet` array and indexes them by [`SetEmission::set`] and
/// [`SetRing::holder`].
///
/// Submitting a set does not invalidate its contents. The ring tracks two facts
/// rather than one: `holder` is the set that matches the binding table, and
/// [`SetState`] is whether writing into it is legal yet. A draw with nothing
/// dirty calls no emission at all and binds the holder.
#[derive(Clone, Debug, PartialEq, Eq)]
pub struct SetRing {
    sets: Vec<SetState>,
    holder: Option<usize>,
    census: Census,
}

impl View for SetRing {
    type V = RingView;

    closed spec fn view(&self) -> RingView {
        RingView {
            sets: self.sets@,
            holder: match self.holder {
                Some(h) => Some(h as int),
                None => None,
            },
            census: self.census,
        }
    }
}

impl SetRing {
    /// The ring's invariant.
    pub open spec fn wf(&self) -> bool {
        self@.wf()
    }

    /// A ring of `depth` sets, all free.
    ///
    /// A ring with no sets would refuse every emission, which is a worker that
    /// can never draw rather than a shallow one.
    #[must_use]
    pub fn new(depth: usize) -> (ring: Self)
        requires
            depth > 0,
        ensures
            ring.wf(),
            ring@.sets == Seq::new(depth as nat, |i: int| SetState::Free),
            ring@.holder is None,
            ring@.census == (Census {
                partial: 0,
                whole: 0,
                recycled: 0,
                refused: 0,
                abandoned: 0,
            }),
    {
        let ring = SetRing {
            sets: vec![SetState::Free; depth],
            holder: None,
            census: Census { partial: 0, whole: 0, recycled: 0, refused: 0, abandoned: 0 },
        };
        assert(ring@.sets =~= Seq::new(depth as nat, |i: int| SetState::Free));
        ring
    }

    /// How many sets the ring has.
    #[must_use]
    pub fn depth(&self) -> (depth: usize)
        ensures
            depth == self@.sets.len(),
    {
        self.sets.len()
    }

    /// What `set` is doing; `None` past the ring.
    #[must_use]
    pub fn state(&self, set: usize) -> (state: Option<SetState>)
        ensures
            state == if set < self@.sets.len() {
                Some(self@.sets[set as int])
            } else {
                None
            },
    {
        if set < self.sets.len() {
            Some(self.sets[set])
        } else {
            None
        }
    }

    /// The set whose contents match the binding table, as an observation.
    ///
    /// `None` before anything has ever been emitted. Valid whether or not that
    /// set is in flight. A draw calls [`Self::bind`] instead.
    #[must_use]
    pub fn holder(&self) -> (holder: Option<usize>)
        ensures
            holder is Some == self@.holder is Some,
            holder matches Some(h) ==> self@.holder == Some(h as int),
    {
        self.holder
    }

    /// What the ring has been asked for.
    #[must_use]
    pub fn census(&self) -> (census: Census)
        ensures
            census == self@.census,
    {
        self.census
    }

    /// Plan the write for an emission. Called only when something is dirty; a
    /// clean draw calls [`Self::bind`] and writes nothing.
    ///
    /// Answers with a set that is legal to write now, and closes it. Refuses
    /// with [`Exhausted`] when nothing is writable and no set is free: the
    /// caller polls the timeline, calls [`Self::recycle`], and retries or
    /// parks.
    pub fn emit(&mut self) -> (emission: Result<SetEmission, Exhausted>)
        requires
            old(self).wf(),
            old(self)@.has_room_to_emit(),
        ensures
            final(self).wf(),
            final(self)@ == old(self)@.emitted(),
            emission is Ok <==> old(self)@.writable() is Some,
            emission matches Ok(taken) ==> {
                &&& taken.set_index() == old(self)@.writable()->0.set
                &&& taken.is_partial() == old(self)@.writable()->0.partial
                &&& 0 <= taken.set_index() < old(self)@.sets.len()
                &&& old(self)@.sets[taken.set_index()] is Live || old(
                    self,
                )@.sets[taken.set_index()] is Free
            },
            emission matches Err(refused) ==> refused.depth == old(self)@.sets.len()
                && refused.in_flight == old(self)@.in_flight(),
    {
        if let Some(set) = self.holder {
            if self.sets[set] == SetState::Live {
                self.sets[set] = SetState::Bound;
                self.census.partial = self.census.partial + 1;
                return Ok(SetEmission { set, partial: true });
            }
        }
        let mut set: usize = 0;
        while set < self.sets.len()
            invariant
                *self == *old(self),
                self.wf(),
                self@.holder is Some ==> self@.sets[self@.holder->0] !is Live,
                set <= self.sets.len(),
                forall|i: int| 0 <= i < set ==> !(#[trigger] self@.sets[i] is Free),
                self@.has_room_to_emit(),
            decreases self.sets.len() - set,
        {
            if self.sets[set] == SetState::Free {
                proof {
                    assert(old(self)@.is_lowest_free(set as int));
                    assert forall|i: int| old(self)@.is_lowest_free(i) implies i == set by {}
                }
                self.sets[set] = SetState::Bound;
                self.holder = Some(set);
                self.census.whole = self.census.whole + 1;
                return Ok(SetEmission { set, partial: false });
            }
            set += 1;
        }
        assert(self@.lowest_free() is None);
        let in_flight: usize = self.in_flight();
        self.census.refused = self.census.refused + 1;
        Err(Exhausted { depth: self.sets.len(), in_flight })
    }

    /// A draw binds the holder without writing anything, and the set is closed
    /// to writes from here on.
    ///
    /// Returns `None` before anything has ever been emitted, in which case the
    /// draw binds no set. Idempotent, and it does not leave a submitted set
    /// alone: see [`SetState::SubmittedAndBound`].
    #[must_use]
    pub fn bind(&mut self) -> (set: Option<usize>)
        requires
            old(self).wf(),
        ensures
            final(self).wf(),
            final(self)@ == old(self)@.bound(),
            set is Some == old(self)@.holder is Some,
            set matches Some(h) ==> old(self)@.holder == Some(h as int),
    {
        match self.holder {
            None => None,
            Some(set) => {
                self.sets[set] = match self.sets[set] {
                    SetState::Live => SetState::Bound,
                    SetState::Submitted(at) => SetState::SubmittedAndBound(at),
                    unchanged => unchanged,
                };
                Some(set)
            },
        }
    }

    /// The command buffer was submitted, and the GPU may read what it bound
    /// until `at`.
    ///
    /// Every bound set is stamped, and not only the holder: two dirty draws in
    /// one command buffer leave two sets bound. A holder still
    /// [`SetState::Live`] is stamped too. A holder already submitted has its
    /// point moved forward and never back. Any other submitted set keeps its
    /// point.
    pub fn submitted(&mut self, at: TimelinePoint)
        requires
            old(self).wf(),
        ensures
            final(self).wf(),
            final(self)@ == old(self)@.submitted(at),
    {
        let holder = self.holder;
        let mut index: usize = 0;
        while index < self.sets.len()
            invariant
                old(self).wf(),
                index <= self.sets.len(),
                self.holder == old(self).holder,
                holder == self.holder,
                self.census == old(self).census,
                self.sets@.len() == old(self).sets@.len(),
                forall|i: int|
                    0 <= i < index ==> #[trigger] self.sets@[i] == old(self)@.stamped(i, at),
                forall|i: int|
                    index <= i < self.sets@.len() ==> #[trigger] self.sets@[i] == old(
                        self,
                    ).sets@[i],
            decreases self.sets.len() - index,
        {
            let held: bool = match holder {
                Some(h) => h == index,
                None => false,
            };
            self.sets[index] = match self.sets[index] {
                SetState::Bound => SetState::Submitted(at),
                SetState::Live => if held {
                    SetState::Submitted(at)
                } else {
                    SetState::Live
                },
                SetState::Submitted(previous) => if held && at.0 > previous.0 {
                    SetState::Submitted(at)
                } else {
                    SetState::Submitted(previous)
                },
                SetState::SubmittedAndBound(previous) => SetState::Submitted(
                    if at.0 > previous.0 {
                        at
                    } else {
                        previous
                    },
                ),
                SetState::Free => SetState::Free,
            };
            index += 1;
        }
        assert(self@.sets =~= old(self)@.submitted(at).sets);
    }

    /// Release every set the timeline has passed. Returns how many.
    ///
    /// The one place a set becomes writable again. The holder returns to
    /// [`SetState::Live`] rather than to [`SetState::Free`]: nothing erased its
    /// contents.
    pub fn recycle(&mut self, reached: TimelinePoint) -> (freed: usize)
        requires
            old(self).wf(),
            old(self)@.census.recycled + old(self)@.releasable(reached) <= usize::MAX,
        ensures
            final(self).wf(),
            final(self)@ == old(self)@.recycled(reached),
            freed == old(self)@.releasable(reached),
    {
        let holder = self.holder;
        let mut freed: usize = 0;
        let mut index: usize = 0;
        let ghost releases = |state: SetState| RingView::releases(reached, state);
        while index < self.sets.len()
            invariant
                old(self).wf(),
                index <= self.sets.len(),
                self.holder == old(self).holder,
                holder == self.holder,
                self.census == old(self).census,
                self.sets@.len() == old(self).sets@.len(),
                releases == (|state: SetState| RingView::releases(reached, state)),
                freed == tally(old(self)@.sets.take(index as int), releases),
                freed <= index,
                forall|i: int|
                    0 <= i < index ==> #[trigger] self.sets@[i] == old(self)@.released(i, reached),
                forall|i: int|
                    index <= i < self.sets@.len() ==> #[trigger] self.sets@[i] == old(
                        self,
                    ).sets@[i],
            decreases self.sets.len() - index,
        {
            proof {
                lemma_tally_take(old(self)@.sets, index as int, releases);
            }
            let held: bool = match holder {
                Some(h) => h == index,
                None => false,
            };
            match self.sets[index] {
                SetState::Submitted(at) => {
                    if reached.reached(at) {
                        self.sets[index] = if held {
                            SetState::Live
                        } else {
                            SetState::Free
                        };
                        freed += 1;
                    }
                },
                SetState::SubmittedAndBound(at) => {
                    if reached.reached(at) {
                        self.sets[index] = SetState::Bound;
                        freed += 1;
                    }
                },
                _ => {},
            }
            index += 1;
        }
        assert(old(self)@.sets.take(index as int) =~= old(self)@.sets);
        self.census.recycled = self.census.recycled + freed;
        assert(self@.sets =~= old(self)@.recycled(reached).sets);
        freed
    }

    /// How many sets a submission may still read.
    #[must_use]
    pub fn in_flight(&self) -> (count: usize)
        ensures
            count == self@.in_flight(),
    {
        let ghost p = |state: SetState| state.in_flight();
        let mut count: usize = 0;
        let mut index: usize = 0;
        while index < self.sets.len()
            invariant
                index <= self.sets.len(),
                p == (|state: SetState| state.in_flight()),
                count == tally(self@.sets.take(index as int), p),
                count <= index,
            decreases self.sets.len() - index,
        {
            proof {
                lemma_tally_take(self@.sets, index as int, p);
            }
            if matches!(self.sets[index], SetState::Submitted(_) | SetState::SubmittedAndBound(_)) {
                count += 1;
            }
            index += 1;
        }
        assert(self@.sets.take(index as int) =~= self@.sets);
        count
    }

    /// How many sets are free.
    #[must_use]
    pub fn free(&self) -> (count: usize)
        ensures
            count == self@.free(),
    {
        let ghost p = |state: SetState| state is Free;
        let mut count: usize = 0;
        let mut index: usize = 0;
        while index < self.sets.len()
            invariant
                index <= self.sets.len(),
                p == (|state: SetState| state is Free),
                count == tally(self@.sets.take(index as int), p),
                count <= index,
            decreases self.sets.len() - index,
        {
            proof {
                lemma_tally_take(self@.sets, index as int, p);
            }
            if self.sets[index] == SetState::Free {
                count += 1;
            }
            index += 1;
        }
        assert(self@.sets.take(index as int) =~= self@.sets);
        count
    }

    /// How many sets a recorded draw binds and no submission carries yet.
    ///
    /// [`SetState::SubmittedAndBound`] is not one of them: a submission does
    /// carry it, so [`Self::in_flight`] counts it.
    #[must_use]
    pub fn bound(&self) -> (count: usize)
        ensures
            count == self@.unsubmitted(),
    {
        let ghost p = |state: SetState| state is Bound;
        let mut count: usize = 0;
        let mut index: usize = 0;
        while index < self.sets.len()
            invariant
                index <= self.sets.len(),
                p == (|state: SetState| state is Bound),
                count == tally(self@.sets.take(index as int), p),
                count <= index,
            decreases self.sets.len() - index,
        {
            proof {
                lemma_tally_take(self@.sets, index as int, p);
            }
            if self.sets[index] == SetState::Bound {
                count += 1;
            }
            index += 1;
        }
        assert(self@.sets.take(index as int) =~= self@.sets);
        count
    }

    /// Whether `vkResetDescriptorPool` is legal: nothing in flight and nothing
    /// bound.
    #[must_use]
    pub fn resettable(&self) -> (legal: bool)
        ensures
            legal <==> self@.in_flight() == 0 && self@.unsubmitted() == 0,
    {
        self.in_flight() == 0 && self.bound() == 0
    }

    /// The recording that planned this emission gave it up, so whatever the
    /// emission was going to write was never written.
    ///
    /// Clears [`Self::holder`] when it names this set: after a half-finished
    /// write the set does not describe the binding table. The set itself
    /// returns to [`SetState::Free`] unless a submission already named it; the
    /// timeline stays the only thing that frees a submitted set.
    pub fn abandoned(&mut self, emission: SetEmission)
        requires
            old(self).wf(),
            0 <= emission.set_index() < old(self)@.sets.len() ==> old(self)@.census.abandoned
                < usize::MAX,
        ensures
            final(self).wf(),
            final(self)@ == old(self)@.abandoned(emission.set_index()),
    {
        let set: usize = emission.set;
        if set >= self.sets.len() {
            return ;
        }
        self.sets[set] = match self.sets[set] {
            SetState::Submitted(at) => SetState::Submitted(at),
            SetState::SubmittedAndBound(at) => SetState::Submitted(at),
            _ => SetState::Free,
        };
        if let Some(h) = self.holder {
            if h == set {
                self.holder = None;
            }
        }
        self.census.abandoned = self.census.abandoned + 1;
    }

    /// The pool was reset, so every set is gone and nothing describes the
    /// bindings any more.
    ///
    /// `vkResetDescriptorPool` on a pool whose sets a submission or a recorded
    /// draw may read is undefined behaviour, so the ring has to be resettable.
    pub fn reset(&mut self)
        requires
            old(self).wf(),
            old(self)@.in_flight() == 0,
            old(self)@.unsubmitted() == 0,
        ensures
            final(self).wf(),
            final(self)@ == old(self)@.reset(),
    {
        let mut index: usize = 0;
        while index < self.sets.len()
            invariant
                index <= self.sets.len(),
                self.census == old(self).census,
                self.sets@.len() == old(self).sets@.len(),
                forall|i: int| 0 <= i < index ==> #[trigger] self.sets@[i] is Free,
            decreases self.sets.len() - index,
        {
            self.sets[index] = SetState::Free;
            index += 1;
        }
        self.holder = None;
        assert(self@.sets =~= old(self)@.reset().sets);
    }
}

/// What one emission writes, on whichever tier this device is on.
///
/// Produced by [`plan`], which is the one place that knows a push needs no set,
/// a clean table needs no emission, and a fresh set needs the whole table.
///
/// Not `Clone`: two of the three variants carry a [`SetEmission`].
#[derive(Debug, PartialEq, Eq)]
#[must_use]
pub enum Emission {
    /// Push the slots into command-buffer state. No allocation, and always
    /// partial.
    Push { slots: Dirty },
    /// Write the slots into an allocated set, then bind it.
    PooledSet { emission: SetEmission, slots: Dirty },
    /// Write the slots into a descriptor-buffer region. A region a submission
    /// may be reading is no more writable than a set is.
    Buffer { emission: SetEmission, slots: Dirty },
}

impl Emission {
    /// The slots the emission writes.
    pub open spec fn written(&self) -> Dirty {
        match *self {
            Emission::Push { slots } => slots,
            Emission::PooledSet { slots, .. } => slots,
            Emission::Buffer { slots, .. } => slots,
        }
    }

    /// The receipt for the set or region the write lands in, when it lands in
    /// one.
    pub open spec fn receipt(&self) -> Option<SetEmission> {
        match *self {
            Emission::Push { .. } => None,
            Emission::PooledSet { emission, .. } => Some(emission),
            Emission::Buffer { emission, .. } => Some(emission),
        }
    }

    /// The slots this emission writes.
    pub fn slots(&self) -> (slots: &Dirty)
        ensures
            *slots == self.written(),
    {
        match self {
            Emission::Push { slots } => slots,
            Emission::PooledSet { slots, .. } => slots,
            Emission::Buffer { slots, .. } => slots,
        }
    }

    /// Whether the caller had to write the whole bound table rather than only
    /// what changed.
    #[must_use]
    pub fn whole(&self) -> (whole: bool)
        ensures
            whole <==> (self.receipt() is Some && !self.receipt()->0.is_partial()),
    {
        match self {
            Emission::Push { .. } => false,
            Emission::PooledSet { emission, .. } => emission.whole(),
            Emission::Buffer { emission, .. } => emission.whole(),
        }
    }

    /// Which set or region the write lands in, when it lands in one.
    #[must_use]
    pub fn set(&self) -> (set: Option<usize>)
        ensures
            set is Some == self.receipt() is Some,
            set matches Some(s) ==> s == self.receipt()->0.set_index(),
    {
        match self {
            Emission::Push { .. } => None,
            Emission::PooledSet { emission, .. } => Some(emission.set()),
            Emission::Buffer { emission, .. } => Some(emission.set()),
        }
    }
}

/// The table a planned write takes its slots from: the table as it is when the
/// set keeps its contents, and a disturbed one when the set is fresh.
pub open spec fn owed(table: TableView, partial: bool) -> TableView {
    if partial {
        table
    } else {
        table.disturbed()
    }
}

/// Planning a write by this carrier can be counted.
pub open spec fn has_room_to_plan(
    carrier: LayoutCarrier,
    ring: RingView,
    table: TableView,
) -> bool {
    if carrier is Push {
        table.census.emitted + table.dirty().count() <= usize::MAX
    } else {
        &&& ring.has_room_to_emit()
        &&& ring.writable() matches Some(choice) ==> {
            &&& choice.partial || table.census.disturbances < usize::MAX
            &&& table.census.emitted + owed(table, choice.partial).dirty().count() <= usize::MAX
        }
    }
}

/// Plan what a draw has to write before it is recorded.
///
/// `Ok(None)` is the steady state and the common answer: the table is clean, so
/// there is nothing to write and the draw binds [`SetRing::holder`] unchanged.
///
/// - Pushing goes into command-buffer state, so the dirty slots are exactly
///   what is written and the ring is never consulted.
/// - A set or region write needs somewhere the GPU is not reading, which is the
///   ring's answer.
/// - When that answer is a fresh set, the set is empty, so the table is
///   disturbed first and the emission carries every bound slot.
///
/// Refuses with [`Exhausted`] when a set is needed and none can be written.
/// Nothing has been taken from the table in that case.
pub fn plan(carrier: LayoutCarrier, ring: &mut SetRing, table: &mut BindingTable) -> (planned:
    Result<Option<Emission>, Exhausted>)
    requires
        old(ring).wf(),
        old(table).wf(),
        old(table)@.dirty() != DirtyView::empty() ==> has_room_to_plan(
            carrier,
            old(ring)@,
            old(table)@,
        ),
    ensures
        final(ring).wf(),
        final(table).wf(),
        old(table)@.dirty() == DirtyView::empty() ==> {
            &&& planned == Ok::<Option<Emission>, Exhausted>(None)
            &&& final(ring)@ == old(ring)@
            &&& final(table)@ == old(table)@
        },
        old(table)@.dirty() != DirtyView::empty() && carrier is Push ==> {
            &&& planned matches Ok(Some(Emission::Push { slots })) && slots.wf() && slots@ == old(
                table,
            )@.dirty() && slots.is_as_wide_as(old(table)@)
            &&& final(ring)@ == old(ring)@
            &&& final(table)@ == old(table)@.emitted()
        },
        old(table)@.dirty() != DirtyView::empty() && carrier !is Push ==> {
            &&& final(ring)@ == old(ring)@.emitted()
            &&& match old(ring)@.writable() {
                None => {
                    &&& planned matches Err(refused) && refused.depth == old(ring)@.sets.len()
                        && refused.in_flight == old(ring)@.in_flight()
                    &&& final(table)@ == old(table)@
                },
                Some(choice) => {
                    &&& planned matches Ok(Some(emission)) && {
                        &&& emission is Buffer <==> carrier is DescriptorBuffer
                        &&& emission is PooledSet <==> carrier is PooledSet
                        &&& emission.receipt()->0.set_index() == choice.set
                        &&& emission.receipt()->0.is_partial() == choice.partial
                        &&& emission.written().wf()
                        &&& emission.written()@ == owed(old(table)@, choice.partial).dirty()
                        &&& emission.written().is_as_wide_as(old(table)@)
                    }
                    &&& final(table)@ == owed(old(table)@, choice.partial).emitted()
                },
            }
        },
{
    if table.is_clean() {
        return Ok(None);
    }
    match carrier {
        LayoutCarrier::Push => Ok(Some(Emission::Push { slots: table.take_dirty() })),
        LayoutCarrier::PooledSet { .. } | LayoutCarrier::DescriptorBuffer => {
            let emission = match ring.emit() {
                Ok(emission) => emission,
                Err(refused) => {
                    return Err(refused);
                },
            };
            if emission.whole() {
                table.disturb_all();
            }
            let slots = table.take_dirty();
            Ok(
                Some(
                    if matches!(carrier, LayoutCarrier::DescriptorBuffer) {
                        Emission::Buffer { emission, slots }
                    } else {
                        Emission::PooledSet { emission, slots }
                    },
                ),
            )
        },
    }
}

/// Every set is free, live, bound or in flight, and none is two of them.
pub proof fn law_the_four_states_partition_the_ring(ring: RingView)
    ensures
        ring.free() + ring.live() + ring.unsubmitted() + ring.in_flight() == ring.sets.len(),
    decreases ring.sets.len(),
{
    if ring.sets.len() > 0 {
        law_the_four_states_partition_the_ring(RingView { sets: ring.sets.drop_last(), ..ring });
    }
}

/// At most one set may be updated in place, and it is the holder.
pub proof fn law_at_most_one_set_is_live(ring: RingView, i: int, j: int)
    requires
        ring.wf(),
        0 <= i < ring.sets.len(),
        0 <= j < ring.sets.len(),
        ring.sets[i] is Live,
        ring.sets[j] is Live,
    ensures
        i == j,
        ring.holder == Some(i),
{
}

/// After a submission no set is left that only a returned receipt could free.
pub proof fn law_a_submission_leaves_nothing_bound(ring: RingView, at: TimelinePoint)
    requires
        ring.wf(),
    ensures
        ring.submitted(at).unsubmitted() == 0,
        forall|i: int|
            0 <= i < ring.sets.len() ==> !(#[trigger] ring.submitted(
                at,
            ).sets[i]).held_by_a_draw(),
{
    lemma_tally_none(ring.submitted(at).sets, |state: SetState| state is Bound);
}

/// A submission never moves the point until which a set may be read back.
pub proof fn law_a_submission_never_shortens_a_read(ring: RingView, at: TimelinePoint, i: int)
    requires
        0 <= i < ring.sets.len(),
        ring.sets[i].in_flight(),
    ensures
        ({
            let before = match ring.sets[i] {
                SetState::Submitted(p) => p,
                SetState::SubmittedAndBound(p) => p,
                _ => at,
            };
            ring.submitted(at).sets[i] matches SetState::Submitted(after) && after.0 >= before.0
        }),
{
}

/// A refused emission takes nothing: no set, no holder.
pub proof fn law_a_refused_emission_takes_nothing(ring: RingView)
    requires
        ring.writable() is None,
    ensures
        ring.emitted().sets == ring.sets,
        ring.emitted().holder == ring.holder,
{
}

/// A pool can be reset exactly when no set has a reader.
pub proof fn law_a_pool_resets_when_nothing_reads_it(ring: RingView)
    ensures
        ring.in_flight() == 0 && ring.unsubmitted() == 0 <==> forall|i: int|
            0 <= i < ring.sets.len() ==> (#[trigger] ring.sets[i] is Free || ring.sets[i] is Live),
{
    lemma_tally_none(ring.sets, |state: SetState| state.in_flight());
    lemma_tally_none(ring.sets, |state: SetState| state is Bound);
    if forall|i: int|
        0 <= i < ring.sets.len() ==> (#[trigger] ring.sets[i] is Free || ring.sets[i] is Live) {
    } else {
        let i = choose|i: int|
            0 <= i < ring.sets.len() && !(#[trigger] ring.sets[i] is Free || ring.sets[i] is Live);
        assert(ring.sets[i].in_flight() || ring.sets[i] is Bound);
    }
}

/// What a history says may still read one set.
pub struct Reads {
    /// A recorded draw bound it, and that command buffer has been neither
    /// submitted nor given up.
    pub bound: bool,
    /// The latest submission point that may still be reading it.
    pub until: Option<u64>,
}

/// One thing done to a ring.
pub enum RingStep {
    Emit,
    Bind,
    Submitted(TimelinePoint),
    Recycle(TimelinePoint),
    /// The recording holding the receipt for this set gave it up.
    Abandoned(int),
    /// The pool was reset, where that is legal.
    Reset,
}

/// A ring beside what its history says may still read each of its sets.
pub struct Observed {
    pub ring: RingView,
    pub reads: Seq<Reads>,
}

impl Observed {
    /// A fresh ring that nothing reads.
    pub open spec fn fresh(depth: nat) -> Observed {
        Observed {
            ring: RingView {
                sets: Seq::new(depth, |i: int| SetState::Free),
                holder: None,
                census: Census { partial: 0, whole: 0, recycled: 0, refused: 0, abandoned: 0 },
            },
            reads: Seq::new(depth, |i: int| Reads { bound: false, until: None }),
        }
    }

    /// What the history says of set `i` after one step: a draw that writes or
    /// binds a set reads it, a submission reads what its draws bound and the
    /// holder until the later of its point and any earlier one, and only the
    /// timeline ends a submission's read.
    pub open spec fn reads_after(self, step: RingStep, i: int) -> Reads {
        let now = self.reads[i];
        match step {
            RingStep::Emit => if self.ring.writable() matches Some(choice) && choice.set == i {
                Reads { bound: true, ..now }
            } else {
                now
            },
            RingStep::Bind => if self.ring.holder == Some(i) {
                Reads { bound: true, ..now }
            } else {
                now
            },
            RingStep::Submitted(at) => if now.bound || self.ring.holder == Some(i) {
                Reads {
                    bound: false,
                    until: match now.until {
                        Some(p) if p > at.0 => Some(p),
                        _ => Some(at.0),
                    },
                }
            } else {
                now
            },
            RingStep::Recycle(reached) => if now.until is Some && reached.0 >= now.until->0 {
                Reads { until: None, ..now }
            } else {
                now
            },
            RingStep::Abandoned(set) => if set == i {
                Reads { bound: false, ..now }
            } else {
                now
            },
            RingStep::Reset => if self.ring.in_flight() == 0 && self.ring.unsubmitted() == 0 {
                Reads { bound: false, until: None }
            } else {
                now
            },
        }
    }

    /// The ring and its readers after one step.
    pub open spec fn step(self, step: RingStep) -> Observed {
        Observed {
            ring: match step {
                RingStep::Emit => self.ring.emitted(),
                RingStep::Bind => self.ring.bound(),
                RingStep::Submitted(at) => self.ring.submitted(at),
                RingStep::Recycle(reached) => self.ring.recycled(reached),
                RingStep::Abandoned(set) => self.ring.abandoned(set),
                RingStep::Reset => if self.ring.in_flight() == 0 && self.ring.unsubmitted() == 0 {
                    self.ring.reset()
                } else {
                    self.ring
                },
            },
            reads: Seq::new(self.reads.len(), |i: int| self.reads_after(step, i)),
        }
    }

    /// The ring and its readers after a history of steps.
    pub open spec fn run(self, steps: Seq<RingStep>) -> Observed
        decreases steps.len(),
    {
        if steps.len() == 0 {
            self
        } else {
            self.run(steps.drop_last()).step(steps.last())
        }
    }

    /// The ring's states say exactly who reads each set.
    pub open spec fn faithful(self) -> bool {
        &&& self.ring.wf()
        &&& self.reads.len() == self.ring.sets.len()
        &&& forall|i: int|
            0 <= i < self.reads.len() ==> #[trigger] self.reads[i] == match self.ring.sets[i] {
                SetState::Free => Reads { bound: false, until: None },
                SetState::Live => Reads { bound: false, until: None },
                SetState::Bound => Reads { bound: true, until: None },
                SetState::Submitted(at) => Reads { bound: false, until: Some(at.0) },
                SetState::SubmittedAndBound(at) => Reads { bound: true, until: Some(at.0) },
            }
    }
}

/// The lowest free set is what it says.
proof fn lemma_writable(ring: RingView)
    requires
        ring.wf(),
    ensures
        ring.writable() matches Some(choice) ==> {
            &&& 0 <= choice.set < ring.sets.len()
            &&& choice.partial ==> ring.sets[choice.set] is Live && ring.holder == Some(choice.set)
            &&& !choice.partial ==> ring.sets[choice.set] is Free
            &&& !choice.partial && ring.holder is Some ==> ring.sets[ring.holder->0] !is Live
        },
{
}

/// Every step keeps the ring's states saying exactly who reads each set.
pub proof fn law_every_step_keeps_the_ring_faithful(seen: Observed, step: RingStep)
    requires
        seen.faithful(),
    ensures
        seen.step(step).faithful(),
{
    let after = seen.step(step);
    lemma_writable(seen.ring);
    law_a_pool_resets_when_nothing_reads_it(seen.ring);
    assert(after.ring.wf());
    assert forall|i: int| 0 <= i < after.reads.len() implies #[trigger] after.reads[i]
        == match after.ring.sets[i] {
        SetState::Free => Reads { bound: false, until: None },
        SetState::Live => Reads { bound: false, until: None },
        SetState::Bound => Reads { bound: true, until: None },
        SetState::Submitted(at) => Reads { bound: false, until: Some(at.0) },
        SetState::SubmittedAndBound(at) => Reads { bound: true, until: Some(at.0) },
    } by {
        assert(seen.reads[i] == seen.reads[i]);
        assert(0 <= i < seen.ring.sets.len());
    }
}

/// No history makes the ring lose track of who reads a set.
pub proof fn law_every_history_is_faithful(depth: nat, steps: Seq<RingStep>)
    requires
        depth > 0,
    ensures
        Observed::fresh(depth).run(steps).faithful(),
    decreases steps.len(),
{
    if steps.len() > 0 {
        law_every_history_is_faithful(depth, steps.drop_last());
        law_every_step_keeps_the_ring_faithful(
            Observed::fresh(depth).run(steps.drop_last()),
            steps.last(),
        );
    }
}

/// After any history, a set handed to an emission is never one anything may
/// still read: no recorded draw binds it and no submission's point is
/// outstanding.
pub proof fn law_no_history_emits_a_set_anything_may_read(depth: nat, steps: Seq<RingStep>)
    requires
        depth > 0,
    ensures
        ({
            let seen = Observed::fresh(depth).run(steps);
            seen.ring.writable() matches Some(choice) ==> {
                &&& 0 <= choice.set < depth
                &&& !seen.reads[choice.set].bound
                &&& seen.reads[choice.set].until is None
            }
        }),
{
    law_every_history_is_faithful(depth, steps);
    lemma_depth(depth, steps);
    lemma_writable(Observed::fresh(depth).run(steps).ring);
    let seen = Observed::fresh(depth).run(steps);
    if let Some(choice) = seen.ring.writable() {
        assert(seen.reads[choice.set] == seen.reads[choice.set]);
    }
}

proof fn lemma_depth(depth: nat, steps: Seq<RingStep>)
    ensures
        Observed::fresh(depth).run(steps).reads.len() == depth,
    decreases steps.len(),
{
    if steps.len() > 0 {
        lemma_depth(depth, steps.drop_last());
    }
}

/// A fresh set that receives a disturbed table's emission holds exactly what
/// the guest bound, though it held nothing before.
pub proof fn law_a_fresh_set_is_written_whole(table: TableView)
    requires
        table.wf(),
    ensures
        (Drawn {
            table,
            buffers: unwritten(table.buffers.held.len()),
            textures: unwritten(table.textures.held.len()),
            samplers: unwritten(table.samplers.held.len()),
        }).step(Step::Disturb).step(Step::Emit).set_is_what_the_guest_bound(),
{
    let after = (Drawn {
        table,
        buffers: unwritten(table.buffers.held.len()),
        textures: unwritten(table.textures.held.len()),
        samplers: unwritten(table.samplers.held.len()),
    }).step(Step::Disturb).step(Step::Emit);
    assert(after.buffers =~= after.table.buffers.held);
    assert(after.textures =~= after.table.textures.held);
    assert(after.samplers =~= after.table.samplers.held);
}

/// What one descriptor set holds.
pub struct Contents {
    pub buffers: Seq<Option<BufferBinding>>,
    pub textures: Seq<Option<ObjectBinding>>,
    pub samplers: Seq<Option<ObjectBinding>>,
}

/// One thing a worker does on a memory-backed tier.
pub enum WorkerStep {
    BindBuffer(int, Option<BufferBinding>),
    BindTexture(int, Option<ObjectBinding>),
    BindSampler(int, Option<ObjectBinding>),
    Disturb,
    /// Plan the draw's write, write it, and bind the holder.
    Draw,
    Submitted(TimelinePoint),
    Recycle(TimelinePoint),
    Abandoned(int),
    /// The objects are gone: the table is reset and so is the pool.
    Reset,
}

/// A worker's ring, its binding table and what each of its sets holds.
pub struct Worker {
    pub ring: RingView,
    pub table: TableView,
    pub contents: Seq<Contents>,
}

impl Worker {
    /// The table beside the descriptors of one set.
    pub open spec fn beside(self, contents: Contents) -> Drawn {
        Drawn {
            table: self.table,
            buffers: contents.buffers,
            textures: contents.textures,
            samplers: contents.samplers,
        }
    }

    /// A set that has been given away and holds nothing.
    pub open spec fn blank(self) -> Contents {
        Contents {
            buffers: unwritten(self.table.buffers.held.len()),
            textures: unwritten(self.table.textures.held.len()),
            samplers: unwritten(self.table.samplers.held.len()),
        }
    }

    /// The holder holds what the guest bound in every slot that owes no write.
    pub open spec fn wf(self) -> bool {
        &&& self.ring.wf()
        &&& self.table.wf()
        &&& self.contents.len() == self.ring.sets.len()
        &&& self.ring.holder matches Some(h) ==> self.beside(self.contents[h]).agrees()
    }

    /// The worker after a draw.
    pub open spec fn drawn(self) -> Worker {
        if self.table.dirty() == DirtyView::empty() {
            Worker { ring: self.ring.bound(), ..self }
        } else {
            match self.ring.writable() {
                None => Worker { ring: self.ring.emitted(), ..self },
                Some(choice) => {
                    let after = if choice.partial {
                        self.beside(self.contents[choice.set]).step(Step::Emit)
                    } else {
                        self.beside(self.blank()).step(Step::Disturb).step(Step::Emit)
                    };
                    Worker {
                        ring: self.ring.emitted(),
                        table: after.table,
                        contents: self.contents.update(
                            choice.set,
                            Contents {
                                buffers: after.buffers,
                                textures: after.textures,
                                samplers: after.samplers,
                            },
                        ),
                    }
                },
            }
        }
    }

    /// The worker after one step.
    pub open spec fn step(self, step: WorkerStep) -> Worker {
        match step {
            WorkerStep::BindBuffer(slot, binding) => Worker {
                table: self.table.bind_buffer(slot, binding),
                ..self
            },
            WorkerStep::BindTexture(slot, binding) => Worker {
                table: self.table.bind_texture(slot, binding),
                ..self
            },
            WorkerStep::BindSampler(slot, binding) => Worker {
                table: self.table.bind_sampler(slot, binding),
                ..self
            },
            WorkerStep::Disturb => Worker { table: self.table.disturbed(), ..self },
            WorkerStep::Draw => self.drawn(),
            WorkerStep::Submitted(at) => Worker { ring: self.ring.submitted(at), ..self },
            WorkerStep::Recycle(reached) => Worker { ring: self.ring.recycled(reached), ..self },
            WorkerStep::Abandoned(set) => Worker { ring: self.ring.abandoned(set), ..self },
            WorkerStep::Reset => Worker {
                ring: self.ring.reset(),
                table: self.table.reset(),
                ..self
            },
        }
    }
}

/// Every step keeps the holder agreeing with the guest on the slots that owe no
/// write.
pub proof fn law_every_step_keeps_the_holder_agreeing(worker: Worker, step: WorkerStep)
    requires
        worker.wf(),
    ensures
        worker.step(step).wf(),
{
    lemma_writable(worker.ring);
    match step {
        WorkerStep::Draw => {
            if worker.table.dirty() != DirtyView::empty() && worker.ring.writable() is Some {
                let choice = worker.ring.writable()->0;
                let blank = worker.beside(worker.blank());
                if choice.partial {
                    law_every_step_keeps_the_set_agreeing(
                        worker.beside(worker.contents[choice.set]),
                        Step::Emit,
                    );
                } else {
                    law_a_fresh_set_is_written_whole(worker.table);
                    assert(blank.step(Step::Disturb).step(Step::Emit).agrees());
                }
            }
        },
        WorkerStep::BindBuffer(slot, binding) => {
            if let Some(h) = worker.ring.holder {
                law_every_step_keeps_the_set_agreeing(
                    worker.beside(worker.contents[h]),
                    Step::BindBuffer(slot, binding),
                );
            }
        },
        WorkerStep::BindTexture(slot, binding) => {
            if let Some(h) = worker.ring.holder {
                law_every_step_keeps_the_set_agreeing(
                    worker.beside(worker.contents[h]),
                    Step::BindTexture(slot, binding),
                );
            }
        },
        WorkerStep::BindSampler(slot, binding) => {
            if let Some(h) = worker.ring.holder {
                law_every_step_keeps_the_set_agreeing(
                    worker.beside(worker.contents[h]),
                    Step::BindSampler(slot, binding),
                );
            }
        },
        WorkerStep::Disturb => {
            if let Some(h) = worker.ring.holder {
                law_every_step_keeps_the_set_agreeing(
                    worker.beside(worker.contents[h]),
                    Step::Disturb,
                );
            }
        },
        _ => {},
    }
}

/// A draw that is not refused binds a set holding exactly what the guest bound,
/// and a draw with something to write always binds one.
pub proof fn law_a_draw_reads_what_the_guest_bound(worker: Worker)
    requires
        worker.wf(),
        worker.table.dirty() == DirtyView::empty() || worker.ring.writable() is Some,
    ensures
        worker.table.dirty() != DirtyView::empty() ==> worker.drawn().ring.holder is Some,
        worker.drawn().ring.holder matches Some(h) ==> worker.drawn().beside(
            worker.drawn().contents[h],
        ).set_is_what_the_guest_bound(),
{
    lemma_writable(worker.ring);
    if worker.table.dirty() == DirtyView::empty() {
        if let Some(h) = worker.ring.holder {
            law_a_clean_table_already_agrees(worker.beside(worker.contents[h]));
        }
    } else {
        let choice = worker.ring.writable()->0;
        if choice.partial {
            law_an_emission_makes_the_set_what_the_guest_bound(
                worker.beside(worker.contents[choice.set]),
            );
        } else {
            law_a_fresh_set_is_written_whole(worker.table);
        }
    }
}

/// A draw never changes what is in a set that a recorded draw or a submission
/// may read.
pub proof fn law_a_draw_writes_no_set_that_is_read(worker: Worker, set: int)
    requires
        worker.wf(),
        0 <= set < worker.ring.sets.len(),
        worker.ring.sets[set].in_flight() || worker.ring.sets[set].held_by_a_draw(),
    ensures
        worker.drawn().contents[set] == worker.contents[set],
{
    lemma_writable(worker.ring);
}

/// A mechanism is used exactly where the device has it, the operator did not
/// veto it and it is fit for use: a descriptor buffer qualified by measurement,
/// a push limit that is not zero. The first that is comes first, descriptor
/// buffers before pushes, and pooled sets are always there. One that is passed
/// over says why, and one that was not reached says nothing.
pub proof fn law_the_best_fit_mechanism_is_used(
    cell: DescriptorCell,
    narrowing: Narrowing,
    selection: Selection,
)
    requires
        call_ensures(select, (cell, narrowing), selection),
    ensures
        ({
            let buffers = cell.descriptor_buffer && !narrowing.no_descriptor_buffers
                && cell.descriptor_buffer_qualified;
            let pushes = cell.push_descriptor && !narrowing.no_push_descriptors
                && cell.max_push_descriptors > 0;
            &&& selection.tier is DescriptorBuffer <==> buffers
            &&& selection.tier is PushDescriptor <==> !buffers && pushes
            &&& selection.tier is PooledSets <==> !buffers && !pushes
            &&& selection.tier matches Tier::PushDescriptor { max } ==> max
                == cell.max_push_descriptors
            &&& selection.descriptor_buffer is None <==> buffers
            &&& selection.push_descriptor is None <==> buffers || pushes
            &&& selection.descriptor_buffer matches Some(why) ==> declines_for(
                why,
                cell.descriptor_buffer,
                narrowing.no_descriptor_buffers,
            ) && !(why is LimitIsZero) && (why is Unqualified ==> !cell.descriptor_buffer_qualified)
            &&& selection.push_descriptor matches Some(why) ==> declines_for(
                why,
                cell.push_descriptor,
                narrowing.no_push_descriptors,
            ) && !(why is Unqualified) && (why is LimitIsZero ==> cell.max_push_descriptors == 0)
        }),
{
}

/// Whether a mechanism was passed over for the first thing wrong with it: that
/// it is not there, that it was vetoed, or something of its own.
pub open spec fn declines_for(why: Declined, offered: bool, vetoed: bool) -> bool {
    &&& why is Unsupported <==> !offered
    &&& why is NarrowedByOperator <==> offered && vetoed
}

/// A layout is pushed exactly where pushes were chosen and it fits their limit;
/// one that does not fit goes to a pooled set and says so. Every layout goes to
/// the descriptor buffer or to a pooled set where that was chosen.
pub proof fn law_a_layout_is_carried_by_what_fits_it(
    selection: Selection,
    descriptors: u32,
    carrier: LayoutCarrier,
)
    requires
        call_ensures(Selection::carrier, (selection, descriptors), carrier),
    ensures
        carrier is DescriptorBuffer <==> selection.tier is DescriptorBuffer,
        carrier is Push <==> (selection.tier matches Tier::PushDescriptor { max } && descriptors
            <= max),
        carrier matches LayoutCarrier::PooledSet { over_push_limit } ==> (over_push_limit <==> (
        selection.tier matches Tier::PushDescriptor { max } && descriptors > max)),
{
}

/// A write goes to the holder where the holder is still open, keeping what it
/// holds, and otherwise to the first free set, from nothing; there is none
/// exactly where the holder is closed and no set is free. The set written is
/// then bound and held, and no other set changes.
pub proof fn law_a_write_goes_to_an_open_set(
    ring: &mut SetRing,
    answer: Result<SetEmission, Exhausted>,
    set: usize,
    partial: bool,
)
    requires
        old(ring).wf(),
        call_ensures(SetRing::emit, (ring,), answer),
        answer matches Ok(emission) ==> call_ensures(SetEmission::set, (&emission,), set)
            && call_ensures(SetEmission::partial, (&emission,), partial),
    ensures
        ({
            let before = old(ring)@;
            let after = final(ring)@;
            let open = before.holder is Some && before.sets[before.holder->0] is Live;
            &&& answer is Err <==> !open && forall|i: int|
                0 <= i < before.sets.len() ==> !(#[trigger] before.sets[i] is Free)
            &&& answer is Err ==> after.sets == before.sets && after.holder == before.holder
            &&& answer matches Err(refused) ==> refused.depth == before.sets.len()
            &&& answer is Ok ==> {
                &&& set < before.sets.len()
                &&& partial <==> open
                &&& open ==> before.holder == Some(set as int)
                &&& !open ==> before.sets[set as int] is Free && forall|i: int|
                    0 <= i < set ==> !(#[trigger] before.sets[i] is Free)
                &&& after.holder == Some(set as int)
                &&& after.sets.len() == before.sets.len()
                &&& after.sets[set as int] is Bound
                &&& forall|i: int|
                    0 <= i < before.sets.len() && i != set ==> #[trigger] after.sets[i]
                        == before.sets[i]
            }
        }),
{
    let before = old(ring)@;
    if !(before.holder is Some && before.sets[before.holder->0] is Live) {
        if before.writable() is None {
            assert forall|i: int| 0 <= i < before.sets.len() implies !(
            #[trigger] before.sets[i] is Free) by {
                if before.sets[i] is Free {
                    lemma_a_free_set_is_found(before, i);
                }
            }
        } else {
            let found = before.lowest_free()->0;
            assert(before.is_lowest_free(found));
        }
    }
}

proof fn lemma_a_free_set_is_found(ring: RingView, set: int)
    requires
        0 <= set < ring.sets.len(),
        ring.sets[set] is Free,
    ensures
        ring.lowest_free() is Some,
    decreases set,
{
    if exists|i: int| 0 <= i < set && #[trigger] ring.sets[i] is Free {
        let i = choose|i: int| 0 <= i < set && #[trigger] ring.sets[i] is Free;
        lemma_a_free_set_is_found(ring, i);
    } else {
        assert(ring.is_lowest_free(set));
    }
}

/// A draw that writes nothing closes the holder: an open one is bound, and one
/// the GPU still reads is bound besides. It is told the holder, and no other set
/// changes.
pub proof fn law_a_draw_closes_the_holder(
    ring: &mut SetRing,
    set: Option<usize>,
    other: int,
)
    requires
        old(ring).wf(),
        call_ensures(SetRing::bind, (ring,), set),
        0 <= other < old(ring)@.sets.len(),
    ensures
        set is Some <==> old(ring)@.holder is Some,
        set matches Some(held) ==> old(ring)@.holder == Some(held as int),
        final(ring)@.holder == old(ring)@.holder,
        final(ring)@.sets.len() == old(ring)@.sets.len(),
        old(ring)@.holder != Some(other) ==> final(ring)@.sets[other] == old(ring)@.sets[other],
        old(ring)@.holder matches Some(held) ==> match old(ring)@.sets[held] {
            SetState::Live | SetState::Bound => final(ring)@.sets[held] is Bound,
            SetState::Submitted(at) | SetState::SubmittedAndBound(at) => final(ring)@.sets[held]
                == SetState::SubmittedAndBound(at),
            SetState::Free => true,
        },
{
}

/// A submission stamps what it reads: every bound set, and the holder whether
/// or not it was bound. A set that was already waiting waits for the later of
/// the two points. Every other set is as it was, and the holder stays the
/// holder.
pub proof fn law_a_submission_stamps_what_it_reads(
    ring: &mut SetRing,
    at: TimelinePoint,
    set: int,
)
    requires
        old(ring).wf(),
        call_ensures(SetRing::submitted, (ring, at), ()),
        0 <= set < old(ring)@.sets.len(),
    ensures
        ({
            let before = old(ring)@.sets[set];
            let after = final(ring)@.sets[set];
            let read = before is Bound || before is SubmittedAndBound || old(ring)@.holder == Some(
                set,
            );
            let later = |previous: TimelinePoint|
                if at.0 > previous.0 {
                    at
                } else {
                    previous
                };
            &&& final(ring)@.holder == old(ring)@.holder
            &&& final(ring)@.sets.len() == old(ring)@.sets.len()
            &&& !read ==> after == before
            &&& read ==> match before {
                SetState::Submitted(previous) | SetState::SubmittedAndBound(previous) => after
                    == SetState::Submitted(later(previous)),
                _ => after == SetState::Submitted(at),
            }
        }),
{
}

/// A timeline gives back the sets whose point it reached: the holder open again
/// with its contents, any other free, and one a draw has bound since still
/// bound. Every other set is as it was. What it says it gave back is what is no
/// longer in flight.
pub proof fn law_the_timeline_gives_back_what_it_passed(
    ring: &mut SetRing,
    reached: TimelinePoint,
    freed: usize,
    set: int,
)
    requires
        old(ring).wf(),
        call_ensures(SetRing::recycle, (ring, reached), freed),
        0 <= set < old(ring)@.sets.len(),
    ensures
        ({
            let before = old(ring)@.sets[set];
            let after = final(ring)@.sets[set];
            let held = old(ring)@.holder == Some(set);
            &&& final(ring)@.holder == old(ring)@.holder
            &&& final(ring)@.sets.len() == old(ring)@.sets.len()
            &&& (before matches SetState::Submitted(at) && at.0 <= reached.0) ==> (after is Live
                <==> held) && (after is Free <==> !held)
            &&& (before matches SetState::SubmittedAndBound(at) && at.0 <= reached.0)
                ==> after is Bound
            &&& !(before matches SetState::Submitted(at) && at.0 <= reached.0) && !(
            before matches SetState::SubmittedAndBound(at) && at.0 <= reached.0) ==> after == before
        }),
        final(ring)@.in_flight() + freed == old(ring)@.in_flight(),
{
    lemma_given_back(old(ring)@.sets, final(ring)@.sets, reached);
}

proof fn lemma_given_back(before: Seq<SetState>, after: Seq<SetState>, reached: TimelinePoint)
    requires
        after.len() == before.len(),
        forall|i: int|
            0 <= i < before.len() ==> (#[trigger] after[i]).in_flight() == (before[i].in_flight()
                && !RingView::releases(reached, before[i])),
    ensures
        tally(after, |state: SetState| state.in_flight()) + tally(
            before,
            |state: SetState| RingView::releases(reached, state),
        ) == tally(before, |state: SetState| state.in_flight()),
    decreases before.len(),
{
    if before.len() > 0 {
        assert forall|i: int| 0 <= i < before.len() - 1 implies (#[trigger] after.drop_last()[i])
            .in_flight() == (before.drop_last()[i].in_flight() && !RingView::releases(
            reached,
            before.drop_last()[i],
        )) by {
            assert(after[i] == after.drop_last()[i]);
        }
        lemma_given_back(before.drop_last(), after.drop_last(), reached);
        assert(after[after.len() - 1] == after.last());
    }
}

/// An emission given back without being written frees its set unless the GPU
/// still reads it, and the set is no longer the holder; nothing else changes. A
/// reset frees every set and holds none.
pub proof fn law_what_was_not_written_is_given_back(
    ring: &mut SetRing,
    emission: SetEmission,
    other: int,
)
    requires
        old(ring).wf(),
        0 <= other < old(ring)@.sets.len(),
    ensures
        (call_ensures(SetRing::abandoned, (ring, emission), ()) && emission.set_index()
            < old(ring)@.sets.len()) ==> {
            let set = emission.set_index();
            &&& final(ring)@.sets.len() == old(ring)@.sets.len()
            &&& match old(ring)@.sets[set] {
                SetState::Submitted(at) | SetState::SubmittedAndBound(at) => final(ring)@.sets[set]
                    == SetState::Submitted(at),
                _ => final(ring)@.sets[set] is Free,
            }
            &&& final(ring)@.holder != Some(set)
            &&& old(ring)@.holder != Some(set) ==> final(ring)@.holder == old(ring)@.holder
            &&& other != set ==> final(ring)@.sets[other] == old(ring)@.sets[other]
        },
        call_ensures(SetRing::reset, (ring,), ()) ==> final(ring)@.holder is None && final(ring)@.sets.len() == old(ring)@.sets.len() && final(ring)@.sets[other] is Free,
{
}

/// Every outcome moves its own counter: a write in place, a write from nothing,
/// a refusal, what a timeline gave back, and what was not written.
pub proof fn law_each_outcome_is_counted_as_itself(
    ring: &mut SetRing,
    emission: SetEmission,
    refused: Exhausted,
    reached: TimelinePoint,
    freed: usize,
)
    requires
        old(ring)@.census.partial < usize::MAX,
        old(ring)@.census.whole < usize::MAX,
        old(ring)@.census.refused < usize::MAX,
        old(ring)@.census.abandoned < usize::MAX,
        old(ring)@.census.recycled + freed <= usize::MAX,
    ensures
        ({
            let before = old(ring)@.census;
            let after = final(ring)@.census;
            &&& call_ensures(SetRing::emit, (ring,), Ok::<SetEmission, Exhausted>(emission))
                ==> after == if emission.is_partial() {
                Census { partial: (before.partial + 1) as usize, ..before }
            } else {
                Census { whole: (before.whole + 1) as usize, ..before }
            }
            &&& call_ensures(SetRing::emit, (ring,), Err::<SetEmission, Exhausted>(refused))
                ==> after == (Census { refused: (before.refused + 1) as usize, ..before })
            &&& call_ensures(SetRing::recycle, (ring, reached), freed) ==> after == (Census {
                recycled: (before.recycled + freed) as usize,
                ..before
            })
            &&& (call_ensures(SetRing::abandoned, (ring, emission), ()) && emission.set_index()
                < old(ring)@.sets.len()) ==> after == (Census {
                abandoned: (before.abandoned + 1) as usize,
                ..before
            })
            &&& call_ensures(SetRing::submitted, (ring, reached), ()) ==> after == before
        }),
{
}

/// Each count is of its own kind of set: there are none of a kind exactly where
/// the count says so, and a pool may be reset exactly where nothing reads a set
/// or is about to.
pub proof fn law_each_count_is_of_its_own_kind(
    ring: SetRing,
    in_flight: usize,
    free: usize,
    bound: usize,
    resettable: bool,
)
    requires
        call_ensures(SetRing::in_flight, (&ring,), in_flight),
        call_ensures(SetRing::free, (&ring,), free),
        call_ensures(SetRing::bound, (&ring,), bound),
        call_ensures(SetRing::resettable, (&ring,), resettable),
    ensures
        in_flight == 0 <==> forall|i: int|
            0 <= i < ring@.sets.len() ==> !(#[trigger] ring@.sets[i] is Submitted) && !(
            ring@.sets[i] is SubmittedAndBound),
        free == 0 <==> forall|i: int|
            0 <= i < ring@.sets.len() ==> !(#[trigger] ring@.sets[i] is Free),
        bound == 0 <==> forall|i: int|
            0 <= i < ring@.sets.len() ==> !(#[trigger] ring@.sets[i] is Bound),
        resettable <==> in_flight == 0 && bound == 0,
{
    lemma_tally_none(ring@.sets, |state: SetState| state.in_flight());
    lemma_tally_none(ring@.sets, |state: SetState| state is Free);
    lemma_tally_none(ring@.sets, |state: SetState| state is Bound);
}

/// What a draw is told to write is what its carrier needs. A clean table needs
/// nothing. A push, and a write into a set that keeps its contents, need the
/// slots that owe a write; a write into an empty set needs every bound slot
/// besides. The set named is the one the ring gave, and a refusal takes nothing
/// from the table.
pub proof fn law_a_draw_writes_what_its_carrier_needs(
    carrier: LayoutCarrier,
    ring: &mut SetRing,
    table: &mut BindingTable,
    answer: Result<Option<Emission>, Exhausted>,
    slot: int,
)
    requires
        old(ring).wf(),
        old(table).wf(),
        0 <= slot,
        call_ensures(plan, (carrier, ring, table), answer),
    ensures
        ({
            let before = old(table)@;
            let clean = before.dirty() == DirtyView::empty();
            let owes = |dirty: Set<int>, bound: bool, whole: bool|
                dirty.contains(slot) || (whole && bound);
            let buffer_bound = slot < before.buffers.held.len() && before.buffers.held[slot] is Some;
            let texture_bound = slot < before.textures.held.len()
                && before.textures.held[slot] is Some;
            let sampler_bound = slot < before.samplers.held.len()
                && before.samplers.held[slot] is Some;
            &&& clean <==> answer == Ok::<Option<Emission>, Exhausted>(None)
            &&& clean || carrier is Push ==> final(ring)@ == old(ring)@
            &&& clean || answer is Err ==> final(table)@ == before
            &&& answer is Err ==> !(carrier is Push)
            &&& answer matches Ok(Some(emission)) ==> {
                let written = emission.written();
                let whole = emission.receipt() matches Some(receipt) && !receipt.is_partial();
                &&& emission is Push <==> carrier is Push
                &&& emission is Buffer <==> carrier is DescriptorBuffer
                &&& emission is PooledSet <==> carrier is PooledSet
                &&& emission.receipt() is Some <==> !(carrier is Push)
                &&& emission.receipt() matches Some(receipt) ==> final(ring)@.holder == Some(
                    receipt.set_index(),
                ) && (whole <==> !(old(ring)@.holder is Some && old(ring)@.sets[old(
                    ring,
                )@.holder->0] is Live))
                &&& written.buffers@.contains(slot) <==> owes(
                    before.buffers.dirty,
                    buffer_bound,
                    whole,
                )
                &&& written.textures@.contains(slot) <==> owes(
                    before.textures.dirty,
                    texture_bound,
                    whole,
                )
                &&& written.samplers@.contains(slot) <==> owes(
                    before.samplers.dirty,
                    sampler_bound,
                    whole,
                )
                &&& final(table)@.dirty() == DirtyView::empty()
                &&& final(table)@.buffers.held == before.buffers.held
                &&& final(table)@.textures.held == before.textures.held
                &&& final(table)@.samplers.held == before.samplers.held
            }
        }),
{
}

/// Only a switch set to off narrows, and no switch touches descriptor buffers.
pub proof fn law_only_off_narrows(switch: Switch, narrowing: Narrowing)
    requires
        call_ensures(Narrowing::from_env, (switch,), narrowing),
    ensures
        narrowing.no_push_descriptors <==> switch is Off,
        !narrowing.no_descriptor_buffers,
{
}

/// An emission says what it writes, whether it writes a set from nothing, and
/// which set: a push writes none.
pub proof fn law_an_emission_says_what_it_is(
    emission: Emission,
    slots: &Dirty,
    whole: bool,
    set: Option<usize>,
)
    requires
        call_ensures(Emission::slots, (&emission,), slots),
        call_ensures(Emission::whole, (&emission,), whole),
        call_ensures(Emission::set, (&emission,), set),
    ensures
        match emission {
            Emission::Push { slots: written } => *slots == written && !whole && set is None,
            Emission::PooledSet { emission: receipt, slots: written } => *slots == written && (whole
                <==> !receipt.is_partial()) && set is Some && set->0 == receipt.set_index(),
            Emission::Buffer { emission: receipt, slots: written } => *slots == written && (whole
                <==> !receipt.is_partial()) && set is Some && set->0 == receipt.set_index(),
        },
{
}

/// Every call is the step it is named for: it takes a ring from one history to
/// the same history and that step, and a ring begins with every set free.
pub proof fn law_every_call_is_its_own_step(
    seen: Observed,
    ring: &mut SetRing,
    answer: Result<SetEmission, Exhausted>,
    set: Option<usize>,
    at: TimelinePoint,
    freed: usize,
    emission: SetEmission,
    depth: usize,
    fresh: SetRing,
)
    requires
        old(ring)@ == seen.ring,
    ensures
        call_ensures(SetRing::emit, (ring,), answer) ==> final(ring)@ == seen.step(
            RingStep::Emit,
        ).ring,
        call_ensures(SetRing::bind, (ring,), set) ==> final(ring)@ == seen.step(
            RingStep::Bind,
        ).ring,
        call_ensures(SetRing::submitted, (ring, at), ()) ==> final(ring)@ == seen.step(
            RingStep::Submitted(at),
        ).ring,
        call_ensures(SetRing::recycle, (ring, at), freed) ==> final(ring)@ == seen.step(
            RingStep::Recycle(at),
        ).ring,
        call_ensures(SetRing::abandoned, (ring, emission), ()) ==> final(ring)@ == seen.step(
            RingStep::Abandoned(emission.set_index()),
        ).ring,
        call_ensures(SetRing::new, (depth,), fresh) ==> fresh@ == Observed::fresh(
            depth as nat,
        ).ring,
{
}

/// A mechanism is called by its name, and only a push may always write a part.
pub proof fn law_a_mechanism_is_called_by_its_name(
    tier: Tier,
    name: &'static str,
    legal: bool,
)
    requires
        call_ensures(Tier::name, (tier,), name),
        call_ensures(Tier::partial_is_always_legal, (tier,), legal),
    ensures
        tier is DescriptorBuffer ==> name@ == "descriptor_buffer"@,
        tier is PushDescriptor ==> name@ == "push_descriptor"@,
        tier is PooledSets ==> name@ == "pooled_sets"@,
        legal <==> tier is PushDescriptor,
{
}

/// A reason for passing a mechanism over is called by its name.
pub proof fn law_a_reason_is_called_by_its_name(value: Declined, name: &'static str)
    requires
        call_ensures(Declined::name, (value,), name),
    ensures
        value is Unsupported ==> name@ == "unsupported"@,
        value is Unqualified ==> name@ == "unqualified"@,
        value is NarrowedByOperator ==> name@ == "narrowed_by_operator"@,
        value is LimitIsZero ==> name@ == "limit_is_zero"@,
{
}

} // verus!
