//! Swapchain frame slots, and the binary semaphores that cannot simply be
//! reused when something goes wrong.
//!
//! A binary semaphore has a pending signal, and a failure can leave one
//! outstanding with nothing waiting on it. The three ways a frame can fail are
//! not the same: a refused acquire signals nothing, a refused submission
//! strands the acquire semaphore's signal, and a refused present may strand the
//! render semaphore's.
//!
//! A quarantined semaphore is not destroyed, it is outlived:
//! [`FrameRing::quarantined`] names the slots whose old semaphores must be kept
//! alive until swapchain teardown.
//!
//! Only a receipt advances a slot. [`Reservation`] is not `Clone`, and every
//! exit from it consumes it.

use crate::guest::TimelinePoint;
use crate::tally::{lemma_tally_none, lemma_tally_take, tally};
use crate::text::{decimal, push_decimal, push_text};
use vstd::prelude::*;

verus! {

/// Whether a slot's semaphore may be used again.
#[derive(Clone, Copy, Debug, Default, PartialEq, Eq, Structural)]
pub enum Usability {
    #[default]
    Usable,
    /// A signal may be outstanding on it. It cannot be waited on, cannot be
    /// signalled again, and cannot be destroyed until the device is idle.
    MustRecreate,
}

impl Usability {
    /// Whether the semaphore may be used.
    #[must_use]
    pub fn usable(self) -> (usable: bool)
        ensures
            usable == (self is Usable),
    {
        matches!(self, Usability::Usable)
    }
}

/// The two semaphores one frame slot carries.
#[derive(Clone, Copy, Debug, Default, PartialEq, Eq, Structural)]
pub struct Health {
    /// Signalled by the presentation engine when the image may be rendered
    /// into.
    pub acquire: Usability,
    /// Signalled by the queue when rendering is done and the present may go.
    pub render: Usability,
}

impl Health {
    /// Two fresh semaphores.
    pub open spec fn fresh() -> Health {
        Health { acquire: Usability::Usable, render: Usability::Usable }
    }

    /// Both semaphores may be used.
    pub open spec fn is_ready(self) -> bool {
        self.acquire is Usable && self.render is Usable
    }

    /// Whether both semaphores may be used.
    #[must_use]
    pub fn ready(self) -> (ready: bool)
        ensures
            ready == self.is_ready(),
    {
        self.acquire.usable() && self.render.usable()
    }
}

/// What one frame slot is doing.
#[derive(Clone, Copy, Debug, PartialEq, Eq, Structural)]
pub enum SlotState {
    /// Nothing holds it.
    Free,
    /// An image has been acquired into it and nothing has been submitted yet.
    Reserved { image: u32 },
    /// Submitted and presented; the GPU is done with it when the timeline
    /// reaches this point.
    Submitted { image: u32, at: TimelinePoint },
}

/// The exclusive right to render one acquired swapchain image.
///
/// Not `Clone`, constructible only by [`FrameRing::acquired`], and consumed by
/// every exit.
#[derive(Debug, PartialEq, Eq, Structural)]
#[must_use]
pub struct Reservation {
    slot: usize,
    image: u32,
}

impl Reservation {
    /// The slot the reservation is for.
    pub closed spec fn slot_index(&self) -> int {
        self.slot as int
    }

    /// The image the reservation is for.
    pub closed spec fn image_index(&self) -> u32 {
        self.image
    }

    /// Which slot, so the caller can index its own semaphore arrays.
    #[must_use]
    pub fn slot(&self) -> (slot: usize)
        ensures
            slot == self.slot_index(),
    {
        self.slot
    }

    /// The swapchain image index the presentation engine handed back.
    #[must_use]
    pub fn image(&self) -> (image: u32)
        ensures
            image == self.image_index(),
    {
        self.image
    }
}

/// Why a reserved frame is being given up.
#[derive(Clone, Copy, Debug, PartialEq, Eq, Structural)]
pub enum Abandon {
    /// The submission was refused. The acquire semaphore's signal is
    /// outstanding with nothing to wait on it.
    SubmitRefused,
    /// `vkQueuePresentKHR` refused after a successful submit. The render
    /// semaphore's wait may or may not have executed.
    PresentRefused,
    /// The swapchain was recreated under a reservation that had not yet been
    /// used. Both semaphores are suspect.
    SwapchainReplaced,
}

impl Abandon {
    /// The cause's slug.
    #[must_use]
    pub fn slug(self) -> (slug: &'static str)
        ensures
            slug@ == match self {
                Abandon::SubmitRefused => "vk_frame_submit_refused"@,
                Abandon::PresentRefused => "vk_frame_present_refused"@,
                Abandon::SwapchainReplaced => "vk_frame_swapchain_replaced"@,
            },
    {
        match self {
            Abandon::SubmitRefused => "vk_frame_submit_refused",
            Abandon::PresentRefused => "vk_frame_present_refused",
            Abandon::SwapchainReplaced => "vk_frame_swapchain_replaced",
        }
    }

    /// What each cause does to a slot's semaphores.
    pub open spec fn leaves_behind(self) -> Health {
        match self {
            Abandon::SubmitRefused => Health {
                acquire: Usability::MustRecreate,
                render: Usability::Usable,
            },
            Abandon::PresentRefused => Health {
                acquire: Usability::Usable,
                render: Usability::MustRecreate,
            },
            Abandon::SwapchainReplaced => Health {
                acquire: Usability::MustRecreate,
                render: Usability::MustRecreate,
            },
        }
    }

    /// What this cause does to the slot's semaphores.
    #[must_use]
    pub fn leaves(self) -> (health: Health)
        ensures
            health == self.leaves_behind(),
    {
        match self {
            Abandon::SubmitRefused => Health {
                acquire: Usability::MustRecreate,
                render: Usability::Usable,
            },
            Abandon::PresentRefused => Health {
                acquire: Usability::Usable,
                render: Usability::MustRecreate,
            },
            Abandon::SwapchainReplaced => Health {
                acquire: Usability::MustRecreate,
                render: Usability::MustRecreate,
            },
        }
    }
}

/// No slot can take an acquire.
#[derive(Clone, Copy, Debug, PartialEq, Eq, Structural)]
pub struct NoSlot {
    pub depth: usize,
    pub in_flight: usize,
    /// Slots that are otherwise free but whose semaphores must be recreated
    /// first. Non-zero here means the caller's next move is
    /// [`FrameRing::recreated`] and not a wait.
    pub awaiting_semaphores: usize,
}

impl NoSlot {
    /// The refusal's slug.
    #[must_use]
    pub fn slug(self) -> (slug: &'static str)
        ensures
            slug@ == "vk_frame_no_slot"@,
    {
        "vk_frame_no_slot"
    }

    /// The refusal with its numbers.
    pub fn message(self) -> (text: String)
        ensures
            text@ == "vk_frame_no_slot"@ + " depth="@ + decimal(self.depth as nat)
                + " in_flight="@ + decimal(self.in_flight as nat) + " awaiting_semaphores="@
                + decimal(self.awaiting_semaphores as nat),
    {
        let mut text = String::new();
        push_text(&mut text, self.slug());
        push_text(&mut text, " depth=");
        push_decimal(&mut text, self.depth as u64);
        push_text(&mut text, " in_flight=");
        push_decimal(&mut text, self.in_flight as u64);
        push_text(&mut text, " awaiting_semaphores=");
        push_decimal(&mut text, self.awaiting_semaphores as u64);
        assert(text@ =~= "vk_frame_no_slot"@ + " depth="@ + decimal(self.depth as nat)
            + " in_flight="@ + decimal(self.in_flight as nat) + " awaiting_semaphores="@ + decimal(
            self.awaiting_semaphores as nat,
        ));
        text
    }
}

/// What the ring has done.
#[derive(Clone, Copy, Debug, Default, PartialEq, Eq, Structural)]
pub struct Census {
    pub acquired: usize,
    pub presented: usize,
    pub abandoned: usize,
    pub recycled: usize,
    /// Acquires refused for want of a slot.
    pub refused: usize,
    /// Semaphores that had to be recreated after a failure.
    pub recreated: usize,
}

/// A ring's contents.
pub struct FrameView {
    pub slots: Seq<SlotState>,
    pub health: Seq<Health>,
    pub census: Census,
}

impl FrameView {
    /// A ring has slots, and each has its two semaphores.
    pub open spec fn wf(self) -> bool {
        self.slots.len() > 0 && self.health.len() == self.slots.len()
    }

    /// `depth` free slots with fresh semaphores.
    pub open spec fn fresh(depth: nat) -> FrameView {
        FrameView {
            slots: Seq::new(depth, |i: int| SlotState::Free),
            health: Seq::new(depth, |i: int| Health::fresh()),
            census: Census {
                acquired: 0,
                presented: 0,
                abandoned: 0,
                recycled: 0,
                refused: 0,
                recreated: 0,
            },
        }
    }

    /// Whether an acquire may be made into `slot`.
    pub open spec fn acquirable(self, slot: int) -> bool {
        &&& 0 <= slot < self.slots.len()
        &&& self.slots[slot] is Free
        &&& self.health[slot].is_ready()
    }

    /// Whether `slot` is the lowest an acquire may be made into.
    pub open spec fn is_next(self, slot: int) -> bool {
        self.acquirable(slot) && forall|i: int| 0 <= i < slot ==> !self.acquirable(i)
    }

    /// Each slot beside its semaphores.
    pub open spec fn pairs(self) -> Seq<(SlotState, Health)> {
        Seq::new(self.slots.len(), |i: int| (self.slots[i], self.health[i]))
    }

    /// How many slots are submitted.
    pub open spec fn in_flight(self) -> nat {
        tally(self.slots, |state: SlotState| state is Submitted)
    }

    /// How many slots are reserved.
    pub open spec fn reserved(self) -> nat {
        tally(self.slots, |state: SlotState| state is Reserved)
    }

    /// How many slots are free.
    pub open spec fn free(self) -> nat {
        tally(self.slots, |state: SlotState| state is Free)
    }

    /// How many free slots wait for fresh semaphores.
    pub open spec fn awaiting_semaphores(self) -> nat {
        tally(self.pairs(), |pair: (SlotState, Health)| pair.0 is Free && !pair.1.is_ready())
    }

    /// The ring after an acquire was refused for want of a slot.
    pub open spec fn refused(self) -> FrameView {
        FrameView {
            census: Census { refused: (self.census.refused + 1) as usize, ..self.census },
            ..self
        }
    }

    /// The ring after an acquire handed back `image`.
    pub open spec fn acquired(self, slot: int, image: u32) -> FrameView {
        FrameView {
            slots: self.slots.update(slot, SlotState::Reserved { image }),
            census: Census { acquired: (self.census.acquired + 1) as usize, ..self.census },
            ..self
        }
    }

    /// The ring after the frame in `slot` was presented.
    pub open spec fn presented(self, slot: int, image: u32, at: TimelinePoint) -> FrameView {
        FrameView {
            slots: self.slots.update(slot, SlotState::Submitted { image, at }),
            census: Census { presented: (self.census.presented + 1) as usize, ..self.census },
            ..self
        }
    }

    /// The ring after the frame in `slot` was given up.
    pub open spec fn abandoned(self, slot: int, cause: Abandon) -> FrameView {
        FrameView {
            slots: self.slots.update(slot, SlotState::Free),
            health: self.health.update(slot, cause.leaves_behind()),
            census: Census { abandoned: (self.census.abandoned + 1) as usize, ..self.census },
        }
    }

    /// The ring after an acquire call failed.
    pub open spec fn acquire_refused(self) -> FrameView {
        FrameView {
            census: Census { abandoned: (self.census.abandoned + 1) as usize, ..self.census },
            ..self
        }
    }

    /// The ring after `slot` got fresh semaphores.
    pub open spec fn recreated(self, slot: int) -> FrameView {
        FrameView {
            health: self.health.update(slot, Health::fresh()),
            census: if self.health[slot].is_ready() {
                self.census
            } else {
                Census { recreated: (self.census.recreated + 1) as usize, ..self.census }
            },
            ..self
        }
    }

    /// Whether the timeline at `reached` frees a slot in `state`.
    pub open spec fn releases(reached: TimelinePoint, state: SlotState) -> bool {
        state matches SlotState::Submitted { at, .. } && reached.0 >= at.0
    }

    /// How many slots the timeline at `reached` frees.
    pub open spec fn releasable(self, reached: TimelinePoint) -> nat {
        tally(self.slots, |state: SlotState| FrameView::releases(reached, state))
    }

    /// The ring after the timeline reached `reached`.
    pub open spec fn recycled(self, reached: TimelinePoint) -> FrameView {
        FrameView {
            slots: Seq::new(
                self.slots.len(),
                |i: int|
                    if FrameView::releases(reached, self.slots[i]) {
                        SlotState::Free
                    } else {
                        self.slots[i]
                    },
            ),
            census: Census {
                recycled: (self.census.recycled + self.releasable(reached)) as usize,
                ..self.census
            },
            ..self
        }
    }
}

/// One swapchain generation's frame slots.
///
/// No Vulkan object: the caller holds the `VkSemaphore` pairs and indexes them
/// by [`Reservation::slot`].
#[derive(Clone, Debug, PartialEq, Eq)]
pub struct FrameRing {
    slots: Vec<SlotState>,
    health: Vec<Health>,
    census: Census,
}

impl View for FrameRing {
    type V = FrameView;

    closed spec fn view(&self) -> FrameView {
        FrameView { slots: self.slots@, health: self.health@, census: self.census }
    }
}

impl FrameRing {
    /// The ring's invariant.
    pub open spec fn wf(&self) -> bool {
        self@.wf()
    }

    /// A ring of `depth` slots, all free with fresh semaphores.
    ///
    /// `depth` is the number of images the host returned, never the number
    /// requested. A swapchain with no images is not a shallow one, so it is
    /// positive.
    #[must_use]
    pub fn new(depth: usize) -> (ring: Self)
        requires
            depth > 0,
        ensures
            ring.wf(),
            ring@ == FrameView::fresh(depth as nat),
    {
        let fresh = Health { acquire: Usability::Usable, render: Usability::Usable };
        let ring = FrameRing {
            slots: vec![SlotState::Free; depth],
            health: vec![fresh; depth],
            census: Census {
                acquired: 0,
                presented: 0,
                abandoned: 0,
                recycled: 0,
                refused: 0,
                recreated: 0,
            },
        };
        assert(ring@.slots =~= FrameView::fresh(depth as nat).slots);
        assert(ring@.health =~= FrameView::fresh(depth as nat).health);
        ring
    }

    /// How many slots the ring has.
    #[must_use]
    pub fn depth(&self) -> (depth: usize)
        ensures
            depth == self@.slots.len(),
    {
        self.slots.len()
    }

    /// What `slot` is doing; `None` past the ring.
    #[must_use]
    pub fn state(&self, slot: usize) -> (state: Option<SlotState>)
        ensures
            state == if slot < self@.slots.len() {
                Some(self@.slots[slot as int])
            } else {
                None
            },
    {
        if slot < self.slots.len() {
            Some(self.slots[slot])
        } else {
            None
        }
    }

    /// What may be done with `slot`'s semaphores; `None` past the ring.
    #[must_use]
    pub fn health(&self, slot: usize) -> (health: Option<Health>)
        ensures
            health == if slot < self@.health.len() {
                Some(self@.health[slot as int])
            } else {
                None
            },
    {
        if slot < self.health.len() {
            Some(self.health[slot])
        } else {
            None
        }
    }

    /// What the ring has done.
    #[must_use]
    pub fn census(&self) -> (census: Census)
        ensures
            census == self@.census,
    {
        self.census
    }

    /// The slot to pass semaphores from for the next acquire.
    ///
    /// Answers before the acquire call, because `vkAcquireNextImageKHR` takes
    /// the semaphore as an argument. Refuses with [`NoSlot`] when every slot is
    /// in flight or awaiting recreated semaphores. Never a wait.
    pub fn next_slot(&mut self) -> (slot: Result<usize, NoSlot>)
        requires
            old(self).wf(),
            (forall|i: int| !old(self)@.acquirable(i)) ==> old(self)@.census.refused < usize::MAX,
        ensures
            final(self).wf(),
            match slot {
                Ok(slot) => old(self)@.is_next(slot as int) && final(self)@ == old(self)@,
                Err(refused) => {
                    &&& forall|i: int| !old(self)@.acquirable(i)
                    &&& refused.depth == old(self)@.slots.len()
                    &&& refused.in_flight == old(self)@.in_flight()
                    &&& refused.awaiting_semaphores == old(self)@.awaiting_semaphores()
                    &&& final(self)@ == old(self)@.refused()
                },
            },
    {
        let mut slot: usize = 0;
        while slot < self.slots.len()
            invariant
                *self == *old(self),
                self.wf(),
                slot <= self.slots.len(),
                forall|i: int| 0 <= i < slot ==> !self@.acquirable(i),
            decreases self.slots.len() - slot,
        {
            if self.slots[slot] == SlotState::Free && self.health[slot].ready() {
                return Ok(slot);
            }
            slot += 1;
        }
        let in_flight: usize = self.in_flight();
        let awaiting_semaphores: usize = self.awaiting_semaphores();
        self.census.refused = self.census.refused + 1;
        Err(NoSlot { depth: self.slots.len(), in_flight, awaiting_semaphores })
    }

    /// The acquire succeeded and handed back `image`.
    ///
    /// `VK_SUBOPTIMAL_KHR` comes here too: it acquires an image and signals the
    /// semaphore. The slot has to be the free, healthy one
    /// [`Self::next_slot`] handed out.
    pub fn acquired(&mut self, slot: usize, image: u32) -> (reservation: Reservation)
        requires
            old(self).wf(),
            old(self)@.acquirable(slot as int),
            old(self)@.census.acquired < usize::MAX,
        ensures
            final(self).wf(),
            final(self)@ == old(self)@.acquired(slot as int, image),
            reservation.slot_index() == slot,
            reservation.image_index() == image,
    {
        self.slots[slot] = SlotState::Reserved { image };
        self.census.acquired = self.census.acquired + 1;
        Reservation { slot, image }
    }

    /// The acquire call itself failed, so nothing was signalled.
    ///
    /// Takes the slot rather than a [`Reservation`], because no image was
    /// acquired. Both semaphores stay usable.
    pub fn acquire_refused(&mut self, slot: usize)
        requires
            old(self).wf(),
            slot < old(self)@.slots.len(),
            old(self)@.slots[slot as int] is Free,
            old(self)@.census.abandoned < usize::MAX,
        ensures
            final(self).wf(),
            final(self)@ == old(self)@.acquire_refused(),
    {
        self.census.abandoned = self.census.abandoned + 1;
    }

    /// The queue owner accepted the submission and the present went through.
    ///
    /// The only way a slot becomes [`SlotState::Submitted`], and it consumes
    /// the reservation.
    pub fn presented(&mut self, reservation: Reservation, at: TimelinePoint)
        requires
            old(self).wf(),
            reservation.slot_index() < old(self)@.slots.len(),
            old(self)@.census.presented < usize::MAX,
        ensures
            final(self).wf(),
            final(self)@ == old(self)@.presented(
                reservation.slot_index(),
                reservation.image_index(),
                at,
            ),
    {
        self.slots[reservation.slot] = SlotState::Submitted { image: reservation.image, at };
        self.census.presented = self.census.presented + 1;
    }

    /// The frame is being given up, and the cause says what that costs.
    ///
    /// Returns the slot's health afterwards, so the caller knows at once which
    /// of its two semaphores it now has to replace.
    pub fn abandoned(&mut self, reservation: Reservation, cause: Abandon) -> (health: Health)
        requires
            old(self).wf(),
            reservation.slot_index() < old(self)@.slots.len(),
            old(self)@.census.abandoned < usize::MAX,
        ensures
            final(self).wf(),
            final(self)@ == old(self)@.abandoned(reservation.slot_index(), cause),
            health == cause.leaves_behind(),
    {
        let slot: usize = reservation.slot;
        self.health[slot] = cause.leaves();
        self.slots[slot] = SlotState::Free;
        self.census.abandoned = self.census.abandoned + 1;
        self.health[slot]
    }

    /// The caller has created fresh semaphores for a slot.
    ///
    /// The old ones are not destroyed here and must not be destroyed by the
    /// caller yet either; see [`Self::quarantined`].
    pub fn recreated(&mut self, slot: usize)
        requires
            old(self).wf(),
            slot < old(self)@.slots.len(),
            !old(self)@.health[slot as int].is_ready() ==> old(self)@.census.recreated < usize::MAX,
        ensures
            final(self).wf(),
            final(self)@ == old(self)@.recreated(slot as int),
    {
        if !self.health[slot].ready() {
            self.census.recreated = self.census.recreated + 1;
        }
        self.health[slot] = Health { acquire: Usability::Usable, render: Usability::Usable };
    }

    /// Slots whose replaced semaphores must be kept alive until the device is
    /// idle, ascending.
    #[must_use]
    pub fn quarantined(&self) -> (slots: Vec<usize>)
        requires
            self.wf(),
        ensures
            forall|i: int, j: int| 0 <= i < j < slots@.len() ==> slots@[i] < slots@[j],
            forall|slot: usize| #[trigger]
                slots@.contains(slot) <==> slot < self@.health.len()
                    && !self@.health[slot as int].is_ready(),
    {
        let mut out: Vec<usize> = Vec::new();
        let mut slot: usize = 0;
        while slot < self.health.len()
            invariant
                slot <= self.health.len(),
                forall|i: int, j: int| 0 <= i < j < out@.len() ==> out@[i] < out@[j],
                forall|i: int| 0 <= i < out@.len() ==> out@[i] < slot,
                forall|s: usize| #[trigger]
                    out@.contains(s) <==> s < slot && !self@.health[s as int].is_ready(),
            decreases self.health.len() - slot,
        {
            let ghost before = out@;
            if !self.health[slot].ready() {
                out.push(slot);
                proof {
                    assert forall|s: usize| #[trigger] out@.contains(s) <==> s < slot + 1
                        && !self@.health[s as int].is_ready() by {
                        if before.contains(s) {
                            let at = choose|i: int| 0 <= i < before.len() && before[i] == s;
                            assert(out@[at] == s);
                        }
                        if s == slot {
                            assert(out@[before.len() as int] == slot);
                        }
                        if out@.contains(s) && s != slot {
                            let at = choose|i: int| 0 <= i < out@.len() && out@[i] == s;
                            assert(before[at] == s);
                        }
                    }
                }
            }
            slot += 1;
        }
        out
    }

    /// Free every slot the timeline has passed. Returns how many.
    pub fn recycle(&mut self, reached: TimelinePoint) -> (freed: usize)
        requires
            old(self).wf(),
            old(self)@.census.recycled + old(self)@.releasable(reached) <= usize::MAX,
        ensures
            final(self).wf(),
            final(self)@ == old(self)@.recycled(reached),
            freed == old(self)@.releasable(reached),
    {
        let mut freed: usize = 0;
        let mut index: usize = 0;
        let ghost releases = |state: SlotState| FrameView::releases(reached, state);
        while index < self.slots.len()
            invariant
                old(self).wf(),
                index <= self.slots.len(),
                self.health == old(self).health,
                self.census == old(self).census,
                self.slots@.len() == old(self).slots@.len(),
                releases == (|state: SlotState| FrameView::releases(reached, state)),
                freed == tally(old(self)@.slots.take(index as int), releases),
                freed <= index,
                forall|i: int|
                    0 <= i < index ==> #[trigger] self.slots@[i] == old(self)@.recycled(
                        reached,
                    ).slots[i],
                forall|i: int|
                    index <= i < self.slots@.len() ==> #[trigger] self.slots@[i] == old(
                        self,
                    ).slots@[i],
            decreases self.slots.len() - index,
        {
            proof {
                lemma_tally_take(old(self)@.slots, index as int, releases);
            }
            if let SlotState::Submitted { at, .. } = self.slots[index] {
                if reached.reached(at) {
                    self.slots[index] = SlotState::Free;
                    freed += 1;
                }
            }
            index += 1;
        }
        assert(old(self)@.slots.take(index as int) =~= old(self)@.slots);
        self.census.recycled = self.census.recycled + freed;
        assert(self@.slots =~= old(self)@.recycled(reached).slots);
        freed
    }

    /// How many slots are submitted and not yet freed by the timeline.
    #[must_use]
    pub fn in_flight(&self) -> (count: usize)
        ensures
            count == self@.in_flight(),
    {
        let ghost p = |state: SlotState| state is Submitted;
        let mut count: usize = 0;
        let mut index: usize = 0;
        while index < self.slots.len()
            invariant
                index <= self.slots.len(),
                p == (|state: SlotState| state is Submitted),
                count == tally(self@.slots.take(index as int), p),
                count <= index,
            decreases self.slots.len() - index,
        {
            proof {
                lemma_tally_take(self@.slots, index as int, p);
            }
            if matches!(self.slots[index], SlotState::Submitted { .. }) {
                count += 1;
            }
            index += 1;
        }
        assert(self@.slots.take(index as int) =~= self@.slots);
        count
    }

    /// How many slots hold an acquired image that was not submitted.
    #[must_use]
    pub fn reserved(&self) -> (count: usize)
        ensures
            count == self@.reserved(),
    {
        let ghost p = |state: SlotState| state is Reserved;
        let mut count: usize = 0;
        let mut index: usize = 0;
        while index < self.slots.len()
            invariant
                index <= self.slots.len(),
                p == (|state: SlotState| state is Reserved),
                count == tally(self@.slots.take(index as int), p),
                count <= index,
            decreases self.slots.len() - index,
        {
            proof {
                lemma_tally_take(self@.slots, index as int, p);
            }
            if matches!(self.slots[index], SlotState::Reserved { .. }) {
                count += 1;
            }
            index += 1;
        }
        assert(self@.slots.take(index as int) =~= self@.slots);
        count
    }

    /// Free slots that cannot be acquired into until their semaphores are
    /// replaced.
    #[must_use]
    pub fn awaiting_semaphores(&self) -> (count: usize)
        requires
            self.wf(),
        ensures
            count == self@.awaiting_semaphores(),
    {
        let ghost p = |pair: (SlotState, Health)| pair.0 is Free && !pair.1.is_ready();
        let mut count: usize = 0;
        let mut index: usize = 0;
        while index < self.slots.len()
            invariant
                self.wf(),
                index <= self.slots.len(),
                p == (|pair: (SlotState, Health)| pair.0 is Free && !pair.1.is_ready()),
                count == tally(self@.pairs().take(index as int), p),
                count <= index,
            decreases self.slots.len() - index,
        {
            proof {
                lemma_tally_take(self@.pairs(), index as int, p);
            }
            if self.slots[index] == SlotState::Free && !self.health[index].ready() {
                count += 1;
            }
            index += 1;
        }
        assert(self@.pairs().take(index as int) =~= self@.pairs());
        count
    }

    /// Whether the swapchain may be destroyed: nothing reserved and nothing in
    /// flight.
    ///
    /// Quarantined semaphores do not block it: destroying the swapchain is
    /// exactly what makes them destroyable.
    #[must_use]
    pub fn retirable(&self) -> (retirable: bool)
        ensures
            retirable <==> forall|i: int|
                0 <= i < self@.slots.len() ==> #[trigger] self@.slots[i] is Free,
    {
        let mut index: usize = 0;
        while index < self.slots.len()
            invariant
                index <= self.slots.len(),
                forall|i: int| 0 <= i < index ==> #[trigger] self@.slots[i] is Free,
            decreases self.slots.len() - index,
        {
            if self.slots[index] != SlotState::Free {
                assert(!(self@.slots[index as int] is Free));
                return false;
            }
            index += 1;
        }
        true
    }
}

/// Every cause suspects at least one semaphore: the acquire semaphore unless
/// the submission went through, and the render semaphore only if it may have.
pub proof fn law_each_cause_suspects_what_it_could_have_stranded(cause: Abandon)
    ensures
        !cause.leaves_behind().is_ready(),
        cause.leaves_behind().acquire is Usable <==> cause is PresentRefused,
        cause.leaves_behind().render is Usable <==> cause is SubmitRefused,
{
}

/// Every slot is free, reserved or in flight, and none is two of them.
pub proof fn law_the_three_states_partition_the_ring(ring: FrameView)
    ensures
        ring.free() + ring.reserved() + ring.in_flight() == ring.slots.len(),
    decreases ring.slots.len(),
{
    if ring.slots.len() > 0 {
        law_the_three_states_partition_the_ring(
            FrameView { slots: ring.slots.drop_last(), ..ring },
        );
    }
}

/// A swapchain is retirable exactly when nothing is reserved and nothing is in
/// flight.
pub proof fn law_retirable_means_nothing_reserved_or_in_flight(ring: FrameView)
    ensures
        (forall|i: int| 0 <= i < ring.slots.len() ==> #[trigger] ring.slots[i] is Free)
            <==> ring.reserved() == 0 && ring.in_flight() == 0,
{
    lemma_tally_none(ring.slots, |state: SlotState| state is Reserved);
    lemma_tally_none(ring.slots, |state: SlotState| state is Submitted);
    if !(forall|i: int| 0 <= i < ring.slots.len() ==> #[trigger] ring.slots[i] is Free) {
        let i = choose|i: int| 0 <= i < ring.slots.len() && !(#[trigger] ring.slots[i] is Free);
        assert(ring.slots[i] is Reserved || ring.slots[i] is Submitted);
    }
}

/// One thing done with a frame. A reservation exists only for a slot an acquire
/// reserved, and each exit consumes it.
pub enum Step {
    /// The acquire of the slot handed back an image.
    Acquired { slot: int, image: u32 },
    AcquireRefused,
    /// The reservation of the slot was presented.
    Presented { slot: int, image: u32, at: TimelinePoint },
    /// The reservation of the slot was given up.
    Abandoned { slot: int, cause: Abandon },
    /// The slot got fresh semaphores.
    Recreated { slot: int },
    Recycled { reached: TimelinePoint },
}

impl FrameView {
    /// Whether a caller that holds what the step needs can take it.
    pub open spec fn permits(self, step: Step) -> bool {
        match step {
            Step::Acquired { slot, .. } => self.acquirable(slot),
            Step::AcquireRefused => true,
            Step::Presented { slot, image, .. } => 0 <= slot < self.slots.len() && self.slots[slot]
                == (SlotState::Reserved { image }),
            Step::Abandoned { slot, .. } => 0 <= slot < self.slots.len()
                && self.slots[slot] is Reserved,
            Step::Recreated { slot } => 0 <= slot < self.slots.len(),
            Step::Recycled { .. } => true,
        }
    }

    /// The ring after one step.
    pub open spec fn step(self, step: Step) -> FrameView {
        match step {
            Step::Acquired { slot, image } => self.acquired(slot, image),
            Step::AcquireRefused => self.acquire_refused(),
            Step::Presented { slot, image, at } => self.presented(slot, image, at),
            Step::Abandoned { slot, cause } => self.abandoned(slot, cause),
            Step::Recreated { slot } => self.recreated(slot),
            Step::Recycled { reached } => self.recycled(reached),
        }
    }

    /// A slot with a suspect semaphore is free: nothing renders through it.
    pub open spec fn sound(self) -> bool {
        &&& self.wf()
        &&& forall|i: int|
            0 <= i < self.slots.len() && !(#[trigger] self.health[i]).is_ready()
                ==> self.slots[i] is Free
    }
}

/// Every step keeps a suspect semaphore out of use: no slot that carries one is
/// reserved or in flight, so no cause is ever laid on top of another.
pub proof fn law_a_suspect_semaphore_is_never_in_use(ring: FrameView, step: Step)
    requires
        ring.sound(),
        ring.permits(step),
    ensures
        ring.step(step).sound(),
{
}

/// A submitted slot is freed by the timeline and by nothing else a caller can
/// do.
pub proof fn law_only_the_timeline_frees_a_submitted_slot(
    ring: FrameView,
    step: Step,
    slot: int,
)
    requires
        ring.sound(),
        ring.permits(step),
        0 <= slot < ring.slots.len(),
        ring.slots[slot] is Submitted,
        !(ring.step(step).slots[slot] is Submitted),
    ensures
        step matches Step::Recycled { reached } && reached.0 >= ring.slots[slot]->at.0,
        ring.step(step).slots[slot] is Free,
{
}

/// A slot given up is handed out again only after its semaphores were
/// recreated.
pub proof fn law_a_suspect_slot_is_not_handed_out(ring: FrameView, slot: int, cause: Abandon)
    requires
        ring.wf(),
        0 <= slot < ring.slots.len(),
        ring.slots[slot] is Reserved,
    ensures
        !ring.abandoned(slot, cause).acquirable(slot),
        ring.abandoned(slot, cause).recreated(slot).acquirable(slot),
{
}

/// Whether two rings differ in one slot's state alone: the same slots, every
/// other in the state it was in, and the same semaphores.
pub open spec fn moves_one_slot(before: FrameView, after: FrameView, slot: int) -> bool {
    &&& after.slots.len() == before.slots.len()
    &&& after.health == before.health
    &&& forall|i: int|
        0 <= i < before.slots.len() && i != slot ==> #[trigger] after.slots[i] == before.slots[i]
}

/// Whether a slot is free and both its semaphores are usable.
pub open spec fn is_free_and_usable(ring: FrameView, slot: int) -> bool {
    &&& ring.slots[slot] is Free
    &&& ring.health[slot].acquire is Usable
    &&& ring.health[slot].render is Usable
}

/// The slot an acquire is given is free, has usable semaphores, and is the
/// first that is and has; none is given exactly where none is and has. Asking
/// moves no slot.
pub proof fn law_an_acquire_is_given_the_first_ready_slot(
    ring: &mut FrameRing,
    answer: Result<usize, NoSlot>,
)
    requires
        old(ring).wf(),
        call_ensures(FrameRing::next_slot, (ring,), answer),
    ensures
        answer matches Ok(slot) ==> slot < old(ring)@.slots.len() && is_free_and_usable(
            old(ring)@,
            slot as int,
        ) && forall|i: int| 0 <= i < slot ==> !#[trigger] is_free_and_usable(old(ring)@, i),
        answer is Err ==> forall|i: int|
            0 <= i < old(ring)@.slots.len() ==> !#[trigger] is_free_and_usable(old(ring)@, i),
        answer matches Err(refused) ==> refused.depth == old(ring)@.slots.len(),
        final(ring)@.slots == old(ring)@.slots,
        final(ring)@.health == old(ring)@.health,
{
    let before = old(ring)@;
    assert forall|i: int| 0 <= i < before.slots.len() implies #[trigger] is_free_and_usable(
        before,
        i,
    ) == before.acquirable(i) by {}
}

/// An acquired slot is reserved for the image it was acquired with, and the
/// reservation names both; a presented one is submitted with its reservation's
/// image until the point given. Neither touches another slot or a semaphore.
pub proof fn law_a_frame_keeps_its_image(
    ring: &mut FrameRing,
    slot: usize,
    image: u32,
    reservation: Reservation,
    at: TimelinePoint,
)
    requires
        slot < old(ring)@.slots.len(),
        0 <= reservation.slot_index() < old(ring)@.slots.len(),
    ensures
        call_ensures(FrameRing::acquired, (ring, slot, image), reservation) ==> {
            &&& reservation.slot_index() == slot
            &&& reservation.image_index() == image
            &&& final(ring)@.slots[slot as int] == (SlotState::Reserved { image })
            &&& moves_one_slot(old(ring)@, final(ring)@, slot as int)
        },
        call_ensures(FrameRing::presented, (ring, reservation, at), ()) ==> {
            &&& final(ring)@.slots[reservation.slot_index()] == (SlotState::Submitted {
                image: reservation.image_index(),
                at,
            })
            &&& moves_one_slot(old(ring)@, final(ring)@, reservation.slot_index())
        },
        call_ensures(FrameRing::acquire_refused, (ring, slot), ()) ==> final(ring)@.slots == old(
            ring,
        )@.slots && final(ring)@.health == old(ring)@.health,
{
}

/// Giving up a reservation frees its slot and suspects the semaphores its cause
/// could have stranded: the acquire semaphore unless the submit went through,
/// the render semaphore unless the submit was what failed. Recreating a slot's
/// semaphores makes both usable. Neither touches another slot.
pub proof fn law_a_slots_semaphores_follow_what_happened(
    ring: &mut FrameRing,
    reservation: Reservation,
    cause: Abandon,
    health: Health,
    slot: usize,
)
    requires
        old(ring).wf(),
        slot < old(ring)@.slots.len(),
        0 <= reservation.slot_index() < old(ring)@.slots.len(),
    ensures
        call_ensures(FrameRing::abandoned, (ring, reservation, cause), health) ==> {
            let at = reservation.slot_index();
            &&& final(ring)@.slots[at] is Free
            &&& final(ring)@.health[at] == health
            &&& health.acquire is Usable <==> cause is PresentRefused
            &&& health.render is Usable <==> cause is SubmitRefused
            &&& forall|i: int|
                0 <= i < old(ring)@.slots.len() && i != at ==> #[trigger] final(ring)@.slots[i]
                    == old(ring)@.slots[i] && final(ring)@.health[i] == old(ring)@.health[i]
        },
        call_ensures(FrameRing::recreated, (ring, slot), ()) ==> {
            &&& final(ring)@.slots == old(ring)@.slots
            &&& final(ring)@.health[slot as int].acquire is Usable
            &&& final(ring)@.health[slot as int].render is Usable
            &&& forall|i: int|
                0 <= i < old(ring)@.slots.len() && i != slot ==> #[trigger] final(ring)@.health[i]
                    == old(ring)@.health[i]
        },
{
}

/// A timeline frees the slots submitted up to the point it reached, and touches
/// no other slot and no semaphore. What it says it freed is what it freed.
pub proof fn law_the_timeline_frees_what_it_passed(
    ring: &mut FrameRing,
    reached: TimelinePoint,
    freed: usize,
    slot: int,
)
    requires
        0 <= slot < old(ring)@.slots.len(),
        call_ensures(FrameRing::recycle, (ring, reached), freed),
    ensures
        final(ring)@.slots.len() == old(ring)@.slots.len(),
        final(ring)@.health == old(ring)@.health,
        (old(ring)@.slots[slot] matches SlotState::Submitted { at, .. } && at.0 <= reached.0)
            ==> final(ring)@.slots[slot] is Free,
        !(old(ring)@.slots[slot] matches SlotState::Submitted { at, .. } && at.0 <= reached.0)
            ==> final(ring)@.slots[slot] == old(ring)@.slots[slot],
        final(ring)@.in_flight() + freed == old(ring)@.in_flight(),
        final(ring)@.free() == old(ring)@.free() + freed,
{
    lemma_freed(old(ring)@.slots, final(ring)@.slots, reached);
}

proof fn lemma_freed(before: Seq<SlotState>, after: Seq<SlotState>, reached: TimelinePoint)
    requires
        after.len() == before.len(),
        forall|i: int|
            0 <= i < before.len() ==> #[trigger] after[i] == if FrameView::releases(
                reached,
                before[i],
            ) {
                SlotState::Free
            } else {
                before[i]
            },
    ensures
        tally(after, |state: SlotState| state is Submitted) + tally(
            before,
            |state: SlotState| FrameView::releases(reached, state),
        ) == tally(before, |state: SlotState| state is Submitted),
        tally(after, |state: SlotState| state is Free) == tally(
            before,
            |state: SlotState| state is Free,
        ) + tally(before, |state: SlotState| FrameView::releases(reached, state)),
    decreases before.len(),
{
    if before.len() > 0 {
        assert forall|i: int| 0 <= i < before.len() - 1 implies #[trigger] after.drop_last()[i]
            == if FrameView::releases(reached, before.drop_last()[i]) {
            SlotState::Free
        } else {
            before.drop_last()[i]
        } by {
            assert(after[i] == after.drop_last()[i]);
        }
        lemma_freed(before.drop_last(), after.drop_last(), reached);
        assert(after[after.len() - 1] == after.last());
    }
}

/// Each count is of its own kind of slot: there are none of a kind exactly
/// where the count says so.
pub proof fn law_each_count_is_of_its_own_kind(
    ring: FrameRing,
    in_flight: usize,
    reserved: usize,
    awaiting: usize,
    retirable: bool,
)
    requires
        ring.wf(),
        call_ensures(FrameRing::in_flight, (&ring,), in_flight),
        call_ensures(FrameRing::reserved, (&ring,), reserved),
        call_ensures(FrameRing::awaiting_semaphores, (&ring,), awaiting),
        call_ensures(FrameRing::retirable, (&ring,), retirable),
    ensures
        in_flight == 0 <==> forall|i: int|
            0 <= i < ring@.slots.len() ==> !(#[trigger] ring@.slots[i] is Submitted),
        reserved == 0 <==> forall|i: int|
            0 <= i < ring@.slots.len() ==> !(#[trigger] ring@.slots[i] is Reserved),
        awaiting == 0 <==> forall|i: int|
            0 <= i < ring@.slots.len() && #[trigger] ring@.slots[i] is Free
                ==> ring@.health[i].is_ready(),
        retirable <==> in_flight == 0 && reserved == 0,
{
    lemma_tally_none(ring@.slots, |state: SlotState| state is Submitted);
    lemma_tally_none(ring@.slots, |state: SlotState| state is Reserved);
    let waits = |pair: (SlotState, Health)| pair.0 is Free && !pair.1.is_ready();
    lemma_tally_none(ring@.pairs(), waits);
    if awaiting == 0 {
        assert forall|i: int| 0 <= i < ring@.slots.len() && #[trigger] ring@.slots[i] is Free
            implies ring@.health[i].is_ready() by {
            assert(!waits(ring@.pairs()[i]));
        }
    }
    if forall|i: int|
        0 <= i < ring@.slots.len() && #[trigger] ring@.slots[i] is Free
            ==> ring@.health[i].is_ready() {
        assert forall|i: int| 0 <= i < ring@.pairs().len() implies !waits(
            #[trigger] ring@.pairs()[i],
        ) by {
            assert(ring@.slots[i] is Free ==> ring@.health[i].is_ready());
        }
    }
    law_retirable_means_nothing_reserved_or_in_flight(ring@);
}

/// Every outcome moves its own counter by one and no other; recreating usable
/// semaphores moves none, and a timeline's counter moves by what it freed.
pub proof fn law_each_outcome_is_counted_as_itself(
    ring: &mut FrameRing,
    slot: usize,
    image: u32,
    reservation: Reservation,
    cause: Abandon,
    health: Health,
    at: TimelinePoint,
    freed: usize,
    refused: NoSlot,
)
    requires
        slot < old(ring)@.slots.len(),
        old(ring)@.census.acquired < usize::MAX,
        old(ring)@.census.presented < usize::MAX,
        old(ring)@.census.abandoned < usize::MAX,
        old(ring)@.census.refused < usize::MAX,
        old(ring)@.census.recreated < usize::MAX,
        old(ring)@.census.recycled + freed <= usize::MAX,
    ensures
        ({
            let before = old(ring)@.census;
            let after = final(ring)@.census;
            &&& call_ensures(FrameRing::acquired, (ring, slot, image), reservation) ==> after == (
            Census { acquired: (before.acquired + 1) as usize, ..before })
            &&& call_ensures(FrameRing::presented, (ring, reservation, at), ()) ==> after == (
            Census { presented: (before.presented + 1) as usize, ..before })
            &&& call_ensures(FrameRing::abandoned, (ring, reservation, cause), health) ==> after
                == (Census { abandoned: (before.abandoned + 1) as usize, ..before })
            &&& call_ensures(FrameRing::acquire_refused, (ring, slot), ()) ==> after == (Census {
                abandoned: (before.abandoned + 1) as usize,
                ..before
            })
            &&& call_ensures(
                FrameRing::next_slot,
                (ring,),
                Err::<usize, NoSlot>(refused),
            ) ==> after == (Census { refused: (before.refused + 1) as usize, ..before })
            &&& call_ensures(FrameRing::next_slot, (ring,), Ok::<usize, NoSlot>(slot)) ==> after
                == before
            &&& call_ensures(FrameRing::recreated, (ring, slot), ()) ==> after == if old(
                ring,
            )@.health[slot as int].is_ready() {
                before
            } else {
                Census { recreated: (before.recreated + 1) as usize, ..before }
            }
            &&& call_ensures(FrameRing::recycle, (ring, at), freed) ==> after == (Census {
                recycled: (before.recycled + freed) as usize,
                ..before
            })
        }),
{
}

/// Every call is the step it is named for, and a ring begins with every slot
/// free and every semaphore usable.
pub proof fn law_every_call_is_its_own_step(
    ring: &mut FrameRing,
    slot: usize,
    image: u32,
    reservation: Reservation,
    cause: Abandon,
    health: Health,
    at: TimelinePoint,
    freed: usize,
    depth: usize,
    fresh: FrameRing,
    any: int,
)
    ensures
        call_ensures(FrameRing::acquired, (ring, slot, image), reservation) ==> final(ring)@ == old(
            ring,
        )@.step(Step::Acquired { slot: slot as int, image }),
        call_ensures(FrameRing::presented, (ring, reservation, at), ()) ==> final(ring)@ == old(
            ring,
        )@.step(
            Step::Presented {
                slot: reservation.slot_index(),
                image: reservation.image_index(),
                at,
            },
        ),
        call_ensures(FrameRing::abandoned, (ring, reservation, cause), health) ==> final(ring)@
            == old(ring)@.step(Step::Abandoned { slot: reservation.slot_index(), cause }),
        call_ensures(FrameRing::acquire_refused, (ring, slot), ()) ==> final(ring)@ == old(
            ring,
        )@.step(Step::AcquireRefused),
        call_ensures(FrameRing::recreated, (ring, slot), ()) ==> final(ring)@ == old(ring)@.step(
            Step::Recreated { slot: slot as int },
        ),
        call_ensures(FrameRing::recycle, (ring, at), freed) ==> final(ring)@ == old(ring)@.step(
            Step::Recycled { reached: at },
        ),
        call_ensures(FrameRing::new, (depth,), fresh) ==> fresh@.slots.len() == depth
            && fresh@.health.len() == depth && (0 <= any < depth ==> fresh@.slots[any] is Free
            && fresh@.health[any].acquire is Usable && fresh@.health[any].render is Usable),
{
}

/// The slots whose semaphores must be kept are those whose semaphores are not
/// both usable, each once and in order.
pub proof fn law_what_is_quarantined_is_what_is_suspect(
    ring: FrameRing,
    slots: Vec<usize>,
    slot: usize,
)
    requires
        call_ensures(FrameRing::quarantined, (&ring,), slots),
    ensures
        slots@.contains(slot) <==> slot < ring@.health.len() && !(
        ring@.health[slot as int].acquire is Usable && ring@.health[slot as int].render is Usable),
        forall|i: int, j: int| 0 <= i < j < slots@.len() ==> slots@[i] < slots@[j],
{
}

} // verus!
