//! Command pools and command buffers, owned per worker and recycled against
//! the timeline.
//!
//! `VkCommandPool` is externally synchronized, and so is every command buffer
//! allocated from it, so a pool belongs to one worker.
//!
//! A buffer is free when the timeline says so, and not before: a slot leaves
//! [`SlotState::Submitted`] only when the point it was submitted at has been
//! reached. [`Lease`] is not `Clone`, is made only by taking a free slot, and
//! is consumed by each exit.
//!
//! Exhaustion is a refusal, never a wait.

use crate::guest::{TimelinePoint, WorkerId};
use crate::tally::{lemma_tally_none, lemma_tally_take, tally};
use crate::text::{decimal, push_decimal, push_text};
use vstd::prelude::*;

verus! {

/// `ash::vk::CommandPool`: a handle, carried through and never looked into.
#[verifier::external_type_specification]
#[verifier::external_body]
pub struct ExCommandPool(ash::vk::CommandPool);

/// `ash::vk::CommandBuffer`: a handle, carried through and never looked into.
#[verifier::external_type_specification]
#[verifier::external_body]
pub struct ExCommandBuffer(ash::vk::CommandBuffer);

/// What one command-buffer slot is doing.
#[derive(Clone, Copy, Debug, PartialEq, Eq, Structural)]
pub enum SlotState {
    /// Nothing holds it; it may be recorded into.
    Free,
    /// A [`Lease`] is outstanding for it.
    Recording,
    /// Submitted, and readable by the GPU until the timeline reaches this
    /// point.
    Submitted(TimelinePoint),
}

/// The exclusive right to record into one command-buffer slot.
///
/// Not `Clone`, and constructible only by [`BufferRing::begin`]. Consumed by
/// [`BufferRing::submitted`] or [`BufferRing::abandon`].
#[derive(Debug, PartialEq, Eq, Structural)]
pub struct Lease {
    slot: usize,
}

impl Lease {
    /// The slot the lease is for.
    pub closed spec fn slot_index(&self) -> int {
        self.slot as int
    }

    /// Which slot this lease is for, so the caller can index its own
    /// `VkCommandBuffer` array.
    #[must_use]
    pub fn slot(&self) -> (slot: usize)
        ensures
            slot == self.slot_index(),
    {
        self.slot
    }
}

/// Every slot is in flight or recording.
#[derive(Clone, Copy, Debug, PartialEq, Eq, Structural)]
pub struct Exhausted {
    pub depth: usize,
    /// Slots waiting on the timeline. Equal to `depth` when nothing is
    /// recording, and smaller when the caller is holding leases it has not
    /// submitted.
    pub in_flight: usize,
}

impl Exhausted {
    /// The refusal's slug.
    #[must_use]
    pub fn slug(self) -> (slug: &'static str)
        ensures
            slug@ == "vk_pool_no_free_command_buffer"@,
    {
        "vk_pool_no_free_command_buffer"
    }

    /// The refusal with its numbers.
    pub fn message(self) -> (text: String)
        ensures
            text@ == "vk_pool_no_free_command_buffer"@ + " depth="@ + decimal(self.depth as nat)
                + " in_flight="@ + decimal(self.in_flight as nat),
    {
        let mut text = String::new();
        push_text(&mut text, self.slug());
        push_text(&mut text, " depth=");
        push_decimal(&mut text, self.depth as u64);
        push_text(&mut text, " in_flight=");
        push_decimal(&mut text, self.in_flight as u64);
        assert(text@ =~= "vk_pool_no_free_command_buffer"@ + " depth="@ + decimal(
            self.depth as nat,
        ) + " in_flight="@ + decimal(self.in_flight as nat));
        text
    }
}

/// A ring's contents.
pub struct BufferView {
    pub slots: Seq<SlotState>,
    pub recycled: nat,
    pub refused: nat,
}

impl BufferView {
    /// A ring has slots.
    pub open spec fn wf(self) -> bool {
        self.slots.len() > 0
    }

    /// `depth` free slots and nothing counted.
    pub open spec fn fresh(depth: nat) -> BufferView {
        BufferView {
            slots: Seq::new(depth, |i: int| SlotState::Free),
            recycled: 0,
            refused: 0,
        }
    }

    /// Whether `slot` is free and no slot before it is.
    pub open spec fn is_lowest_free(self, slot: int) -> bool {
        &&& 0 <= slot < self.slots.len()
        &&& self.slots[slot] is Free
        &&& forall|i: int| 0 <= i < slot ==> !(#[trigger] self.slots[i] is Free)
    }

    /// The ring with `slot` in `state`.
    pub open spec fn with(self, slot: int, state: SlotState) -> BufferView {
        BufferView { slots: self.slots.update(slot, state), ..self }
    }

    /// Whether the timeline at `reached` frees a slot in `state`.
    pub open spec fn releases(reached: TimelinePoint, state: SlotState) -> bool {
        state matches SlotState::Submitted(at) && reached.0 >= at.0
    }

    /// How many slots the timeline at `reached` frees.
    pub open spec fn releasable(self, reached: TimelinePoint) -> nat {
        tally(self.slots, |state: SlotState| BufferView::releases(reached, state))
    }

    /// The ring after the timeline reached `reached`.
    pub open spec fn after(self, reached: TimelinePoint) -> BufferView {
        BufferView {
            slots: Seq::new(
                self.slots.len(),
                |i: int|
                    if BufferView::releases(reached, self.slots[i]) {
                        SlotState::Free
                    } else {
                        self.slots[i]
                    },
            ),
            recycled: self.recycled + self.releasable(reached),
            ..self
        }
    }

    /// How many slots are submitted.
    pub open spec fn in_flight(self) -> nat {
        tally(self.slots, |state: SlotState| state is Submitted)
    }

    /// How many slots are recording.
    pub open spec fn recording(self) -> nat {
        tally(self.slots, |state: SlotState| state is Recording)
    }

    /// How many slots are free.
    pub open spec fn free(self) -> nat {
        tally(self.slots, |state: SlotState| state is Free)
    }

    /// Nothing is recording and nothing is in flight.
    pub open spec fn all_free(self) -> bool {
        forall|i: int| 0 <= i < self.slots.len() ==> #[trigger] self.slots[i] is Free
    }
}

/// One worker's command-buffer slots, and which of them may be recorded into.
///
/// No Vulkan object.
#[derive(Clone, Debug, PartialEq, Eq)]
pub struct BufferRing {
    slots: Vec<SlotState>,
    recycled: usize,
    refused: usize,
}

impl View for BufferRing {
    type V = BufferView;

    closed spec fn view(&self) -> BufferView {
        BufferView {
            slots: self.slots@,
            recycled: self.recycled as nat,
            refused: self.refused as nat,
        }
    }
}

impl BufferRing {
    /// The ring's invariant.
    pub open spec fn wf(&self) -> bool {
        self@.wf()
    }

    /// A ring of `depth` slots, all free.
    ///
    /// A ring with no slots refuses every recording, so `depth` is positive.
    #[must_use]
    pub fn new(depth: usize) -> (ring: Self)
        requires
            depth > 0,
        ensures
            ring.wf(),
            ring@ == BufferView::fresh(depth as nat),
    {
        let ring = BufferRing { slots: vec![SlotState::Free; depth], recycled: 0, refused: 0 };
        assert(ring@.slots =~= BufferView::fresh(depth as nat).slots);
        ring
    }

    /// How many slots the ring has.
    #[must_use]
    pub fn depth(&self) -> (depth: usize)
        ensures
            depth == self@.slots.len(),
    {
        self.slots.len()
    }

    /// What `slot` is doing; `None` past the ring.
    #[must_use]
    pub fn state(&self, slot: usize) -> (state: Option<SlotState>)
        ensures
            state == if slot < self@.slots.len() {
                Some(self@.slots[slot as int])
            } else {
                None
            },
    {
        if slot < self.slots.len() {
            Some(self.slots[slot])
        } else {
            None
        }
    }

    /// Take the lowest free slot to record into.
    ///
    /// Refuses with [`Exhausted`] when every slot is recording or in flight.
    pub fn begin(&mut self) -> (lease: Result<Lease, Exhausted>)
        requires
            old(self).wf(),
            (forall|i: int|
                0 <= i < old(self)@.slots.len() ==> !(#[trigger] old(self)@.slots[i] is Free))
                ==> old(self)@.refused < usize::MAX,
        ensures
            final(self).wf(),
            match lease {
                Ok(lease) => {
                    &&& old(self)@.is_lowest_free(lease.slot_index())
                    &&& final(self)@ == old(self)@.with(lease.slot_index(), SlotState::Recording)
                },
                Err(refused) => {
                    &&& forall|i: int|
                        0 <= i < old(self)@.slots.len() ==> !(#[trigger] old(
                            self,
                        )@.slots[i] is Free)
                    &&& refused.depth == old(self)@.slots.len()
                    &&& refused.in_flight == old(self)@.in_flight()
                    &&& final(self)@ == (BufferView {
                        refused: old(self)@.refused + 1,
                        ..old(self)@
                    })
                },
            },
    {
        let mut slot: usize = 0;
        while slot < self.slots.len()
            invariant
                *self == *old(self),
                self.wf(),
                slot <= self.slots.len(),
                forall|i: int| 0 <= i < slot ==> !(#[trigger] self@.slots[i] is Free),
            decreases self.slots.len() - slot,
        {
            if self.slots[slot] == SlotState::Free {
                self.slots[slot] = SlotState::Recording;
                return Ok(Lease { slot });
            }
            slot += 1;
        }
        let in_flight: usize = self.in_flight();
        self.refused = self.refused + 1;
        Err(Exhausted { depth: self.slots.len(), in_flight })
    }

    /// The slot was submitted, and the GPU may read it until `at`.
    ///
    /// Consumes the lease, so a second submission of the same buffer cannot be
    /// written.
    pub fn submitted(&mut self, lease: Lease, at: TimelinePoint)
        requires
            old(self).wf(),
            lease.slot_index() < old(self)@.slots.len(),
        ensures
            final(self).wf(),
            final(self)@ == old(self)@.with(lease.slot_index(), SlotState::Submitted(at)),
    {
        self.slots[lease.slot] = SlotState::Submitted(at);
    }

    /// The recording was given up and never submitted, so the slot is free at
    /// once.
    pub fn abandon(&mut self, lease: Lease)
        requires
            old(self).wf(),
            lease.slot_index() < old(self)@.slots.len(),
        ensures
            final(self).wf(),
            final(self)@ == old(self)@.with(lease.slot_index(), SlotState::Free),
    {
        self.slots[lease.slot] = SlotState::Free;
    }

    /// Free every slot the timeline has passed. Returns how many.
    pub fn recycle(&mut self, reached: TimelinePoint) -> (freed: usize)
        requires
            old(self).wf(),
            old(self)@.recycled + old(self)@.releasable(reached) <= usize::MAX,
        ensures
            final(self).wf(),
            final(self)@ == old(self)@.after(reached),
            freed == old(self)@.releasable(reached),
    {
        let mut freed: usize = 0;
        let mut index: usize = 0;
        let ghost releases = |state: SlotState| BufferView::releases(reached, state);
        while index < self.slots.len()
            invariant
                old(self).wf(),
                index <= self.slots.len(),
                self.recycled == old(self).recycled,
                self.refused == old(self).refused,
                self.slots@.len() == old(self).slots@.len(),
                releases == (|state: SlotState| BufferView::releases(reached, state)),
                freed == tally(old(self)@.slots.take(index as int), releases),
                freed <= index,
                forall|i: int|
                    0 <= i < index ==> #[trigger] self.slots@[i] == old(self)@.after(
                        reached,
                    ).slots[i],
                forall|i: int|
                    index <= i < self.slots@.len() ==> #[trigger] self.slots@[i] == old(
                        self,
                    ).slots@[i],
            decreases self.slots.len() - index,
        {
            proof {
                lemma_tally_take(old(self)@.slots, index as int, releases);
            }
            if let SlotState::Submitted(at) = self.slots[index] {
                if reached.reached(at) {
                    self.slots[index] = SlotState::Free;
                    freed += 1;
                }
            }
            index += 1;
        }
        assert(old(self)@.slots.take(index as int) =~= old(self)@.slots);
        self.recycled = self.recycled + freed;
        assert(self@.slots =~= old(self)@.after(reached).slots);
        freed
    }

    /// Slots waiting on the timeline.
    #[must_use]
    pub fn in_flight(&self) -> (count: usize)
        ensures
            count == self@.in_flight(),
    {
        let ghost p = |state: SlotState| state is Submitted;
        let mut count: usize = 0;
        let mut index: usize = 0;
        while index < self.slots.len()
            invariant
                index <= self.slots.len(),
                p == (|state: SlotState| state is Submitted),
                count == tally(self@.slots.take(index as int), p),
                count <= index,
            decreases self.slots.len() - index,
        {
            proof {
                lemma_tally_take(self@.slots, index as int, p);
            }
            if matches!(self.slots[index], SlotState::Submitted(_)) {
                count += 1;
            }
            index += 1;
        }
        assert(self@.slots.take(index as int) =~= self@.slots);
        count
    }

    /// Slots with an outstanding lease.
    #[must_use]
    pub fn recording(&self) -> (count: usize)
        ensures
            count == self@.recording(),
    {
        let ghost p = |state: SlotState| state is Recording;
        let mut count: usize = 0;
        let mut index: usize = 0;
        while index < self.slots.len()
            invariant
                index <= self.slots.len(),
                p == (|state: SlotState| state is Recording),
                count == tally(self@.slots.take(index as int), p),
                count <= index,
            decreases self.slots.len() - index,
        {
            proof {
                lemma_tally_take(self@.slots, index as int, p);
            }
            if self.slots[index] == SlotState::Recording {
                count += 1;
            }
            index += 1;
        }
        assert(self@.slots.take(index as int) =~= self@.slots);
        count
    }

    /// Slots that may be recorded into.
    #[must_use]
    pub fn free(&self) -> (count: usize)
        ensures
            count == self@.free(),
    {
        let ghost p = |state: SlotState| state is Free;
        let mut count: usize = 0;
        let mut index: usize = 0;
        while index < self.slots.len()
            invariant
                index <= self.slots.len(),
                p == (|state: SlotState| state is Free),
                count == tally(self@.slots.take(index as int), p),
                count <= index,
            decreases self.slots.len() - index,
        {
            proof {
                lemma_tally_take(self@.slots, index as int, p);
            }
            if self.slots[index] == SlotState::Free {
                count += 1;
            }
            index += 1;
        }
        assert(self@.slots.take(index as int) =~= self@.slots);
        count
    }

    /// Whether `vkResetCommandPool` is legal: nothing is recording and nothing
    /// is in flight.
    #[must_use]
    pub fn resettable(&self) -> (legal: bool)
        ensures
            legal == self@.all_free(),
    {
        let mut index: usize = 0;
        while index < self.slots.len()
            invariant
                index <= self.slots.len(),
                forall|i: int| 0 <= i < index ==> #[trigger] self@.slots[i] is Free,
            decreases self.slots.len() - index,
        {
            if self.slots[index] != SlotState::Free {
                assert(!(self@.slots[index as int] is Free));
                return false;
            }
            index += 1;
        }
        true
    }

    /// Recordings recycled, and recordings refused for want of a slot.
    #[must_use]
    pub fn census(&self) -> (counts: (usize, usize))
        ensures
            counts.0 == self@.recycled,
            counts.1 == self@.refused,
    {
        (self.recycled, self.refused)
    }
}

/// Every slot is free, recording or in flight, and none is two of them.
pub proof fn law_the_three_states_partition_the_ring(ring: BufferView)
    ensures
        ring.free() + ring.recording() + ring.in_flight() == ring.slots.len(),
    decreases ring.slots.len(),
{
    if ring.slots.len() > 0 {
        law_the_three_states_partition_the_ring(
            BufferView { slots: ring.slots.drop_last(), ..ring },
        );
    }
}

/// A pool can be reset exactly when nothing is recording and nothing is in
/// flight.
pub proof fn law_resettable_means_nothing_recording_or_in_flight(ring: BufferView)
    ensures
        ring.all_free() <==> ring.recording() == 0 && ring.in_flight() == 0,
{
    lemma_tally_none(ring.slots, |state: SlotState| state is Recording);
    lemma_tally_none(ring.slots, |state: SlotState| state is Submitted);
    if !ring.all_free() {
        let i = choose|i: int| 0 <= i < ring.slots.len() && !(#[trigger] ring.slots[i] is Free);
        assert(ring.slots[i] is Recording || ring.slots[i] is Submitted);
    }
}

/// A submitted slot stays submitted at its own point until the timeline passes
/// that point, and a recording one is not freed by any timeline.
pub proof fn law_a_slot_is_freed_by_its_own_point_alone(
    ring: BufferView,
    slot: int,
    reached: TimelinePoint,
)
    requires
        0 <= slot < ring.slots.len(),
    ensures
        ring.slots[slot] matches SlotState::Submitted(at) ==> ring.after(reached).slots[slot]
            == if reached.0 >= at.0 {
            SlotState::Free
        } else {
            SlotState::Submitted(at)
        },
        ring.slots[slot] is Recording ==> ring.after(reached).slots[slot] is Recording,
        ring.slots[slot] is Free ==> ring.after(reached).slots[slot] is Free,
{
}

/// One worker's pool and the buffers allocated from it.
///
/// Owns handles and destroys nothing: [`WorkerPool::pool`] and
/// [`WorkerPool::buffer`] are what a teardown call takes.
#[derive(Debug)]
pub struct WorkerPool {
    pool: ash::vk::CommandPool,
    family: u32,
    buffers: Vec<ash::vk::CommandBuffer>,
    ring: BufferRing,
}

/// A worker's pool: its handles, its family and its ring.
pub struct PoolView {
    pub pool: ash::vk::CommandPool,
    pub family: u32,
    pub buffers: Seq<ash::vk::CommandBuffer>,
    pub ring: BufferView,
}

impl View for WorkerPool {
    type V = PoolView;

    closed spec fn view(&self) -> PoolView {
        PoolView {
            pool: self.pool,
            family: self.family,
            buffers: self.buffers@,
            ring: self.ring@,
        }
    }
}

impl WorkerPool {
    /// The ring behind the view.
    pub closed spec fn ring_value(&self) -> BufferRing {
        self.ring
    }

    /// Adopt a pool and the buffers allocated from it.
    ///
    /// A worker with no buffers can never record, so there is at least one.
    #[must_use]
    pub fn adopt(
        pool: ash::vk::CommandPool,
        family: u32,
        buffers: Vec<ash::vk::CommandBuffer>,
    ) -> (adopted: Self)
        requires
            buffers@.len() > 0,
        ensures
            adopted@ == (PoolView {
                pool,
                family,
                buffers: buffers@,
                ring: BufferView::fresh(buffers@.len()),
            }),
            adopted.ring_value().wf(),
            adopted.ring_value()@ == adopted@.ring,
    {
        let ring = BufferRing::new(buffers.len());
        WorkerPool { pool, family, buffers, ring }
    }

    /// The pool.
    #[must_use]
    pub fn pool(&self) -> (pool: ash::vk::CommandPool)
        ensures
            pool == self@.pool,
    {
        self.pool
    }

    /// The queue family this pool's buffers may be submitted to.
    #[must_use]
    pub fn family(&self) -> (family: u32)
        ensures
            family == self@.family,
    {
        self.family
    }

    /// The buffers allocated from the pool.
    #[must_use]
    pub fn buffers(&self) -> (buffers: &[ash::vk::CommandBuffer])
        ensures
            buffers@ == self@.buffers,
    {
        self.buffers.as_slice()
    }

    /// The buffer a lease names.
    #[must_use]
    pub fn buffer(&self, lease: &Lease) -> (buffer: ash::vk::CommandBuffer)
        requires
            lease.slot_index() < self@.buffers.len(),
        ensures
            buffer == self@.buffers[lease.slot_index()],
    {
        self.buffers[lease.slot()]
    }

    /// The worker's slots.
    #[must_use]
    pub fn ring(&self) -> (ring: &BufferRing)
        ensures
            *ring == self.ring_value(),
            ring@ == self@.ring,
    {
        &self.ring
    }

    /// The worker's slots, to record into.
    pub fn ring_mut(&mut self) -> (ring: &mut BufferRing)
        ensures
            *ring == old(self).ring_value(),
            ring@ == old(self)@.ring,
            final(self).ring_value() == *final(ring),
            final(self)@ == (PoolView { ring: final(ring)@, ..old(self)@ }),
    {
        &mut self.ring
    }
}

/// The slots one timeline reading frees over a population.
pub open spec fn releasable(pools: Seq<WorkerPool>, reached: TimelinePoint) -> nat
    decreases pools.len(),
{
    if pools.len() == 0 {
        0
    } else {
        releasable(pools.drop_last(), reached) + pools.last()@.ring.releasable(reached)
    }
}

/// One pool per worker, and no way to hold two at once.
#[derive(Debug, Default)]
pub struct WorkerPools {
    pools: Vec<WorkerPool>,
}

impl View for WorkerPools {
    type V = Seq<WorkerPool>;

    closed spec fn view(&self) -> Seq<WorkerPool> {
        self.pools@
    }
}

impl WorkerPools {
    /// No workers yet.
    #[must_use]
    pub fn new() -> (pools: Self)
        ensures
            pools@ == Seq::<WorkerPool>::empty(),
    {
        WorkerPools { pools: Vec::new() }
    }

    /// Add the next worker's pool. Workers are numbered by insertion order,
    /// matching the fixed population the executor was built with; a number past
    /// the range stays at its end.
    pub fn push(&mut self, pool: WorkerPool) -> (worker: WorkerId)
        ensures
            final(self)@ == old(self)@.push(pool),
            worker.0 == if old(self)@.len() <= u16::MAX {
                old(self)@.len()
            } else {
                u16::MAX as nat
            },
    {
        let count: usize = self.pools.len();
        let id: u16 = if count <= u16::MAX as usize {
            count as u16
        } else {
            u16::MAX
        };
        self.pools.push(pool);
        WorkerId(id)
    }

    /// How many workers there are.
    #[must_use]
    pub fn population(&self) -> (population: usize)
        ensures
            population == self@.len(),
    {
        self.pools.len()
    }

    /// The pool belonging to one worker, exclusively.
    pub fn for_worker(&mut self, worker: WorkerId) -> (pool: Option<&mut WorkerPool>)
        ensures
            match pool {
                Some(pool) => {
                    &&& worker.0 < old(self)@.len()
                    &&& *pool == old(self)@[worker.0 as int]
                    &&& final(self)@ == old(self)@.update(worker.0 as int, *final(pool))
                },
                None => worker.0 >= old(self)@.len() && final(self)@ == old(self)@,
            },
    {
        let index: usize = worker.0 as usize;
        if index < self.pools.len() {
            Some(&mut self.pools[index])
        } else {
            None
        }
    }

    /// The pool belonging to one worker.
    #[must_use]
    pub fn of_worker(&self, worker: WorkerId) -> (pool: Option<&WorkerPool>)
        ensures
            match pool {
                Some(pool) => worker.0 < self@.len() && *pool == self@[worker.0 as int],
                None => worker.0 >= self@.len(),
            },
    {
        let index: usize = worker.0 as usize;
        if index < self.pools.len() {
            Some(&self.pools[index])
        } else {
            None
        }
    }

    /// Every worker's pool, by worker number.
    #[must_use]
    pub fn all(&self) -> (pools: &[WorkerPool])
        ensures
            pools@ == self@,
    {
        self.pools.as_slice()
    }

    /// Recycle every worker's finished buffers against one timeline reading.
    /// Returns how many slots became free.
    pub fn recycle(&mut self, reached: TimelinePoint) -> (freed: usize)
        requires
            forall|i: int|
                0 <= i < old(self)@.len() ==> (#[trigger] old(self)@[i]).ring_value().wf() && old(
                    self,
                )@[i]@.ring.recycled + old(self)@[i]@.ring.releasable(reached) <= usize::MAX,
            releasable(old(self)@, reached) <= usize::MAX,
        ensures
            freed == releasable(old(self)@, reached),
            final(self)@.len() == old(self)@.len(),
            forall|i: int|
                0 <= i < old(self)@.len() ==> (#[trigger] final(self)@[i])@ == (PoolView {
                    ring: old(self)@[i]@.ring.after(reached),
                    ..old(self)@[i]@
                }) && final(self)@[i].ring_value().wf(),
    {
        let mut freed: usize = 0;
        let mut index: usize = 0;
        let ghost before = self.pools@;
        assert(before.take(0) =~= Seq::empty());
        while index < self.pools.len()
            invariant
                index <= self.pools.len(),
                before == old(self)@,
                self.pools@.len() == before.len(),
                releasable(before, reached) <= usize::MAX,
                freed == releasable(before.take(index as int), reached),
                forall|i: int|
                    0 <= i < before.len() ==> (#[trigger] before[i]).ring_value().wf()
                        && before[i]@.ring.recycled + before[i]@.ring.releasable(reached)
                        <= usize::MAX,
                forall|i: int|
                    0 <= i < index ==> (#[trigger] self.pools@[i])@ == (PoolView {
                        ring: before[i]@.ring.after(reached),
                        ..before[i]@
                    }) && self.pools@[i].ring_value().wf(),
                forall|i: int|
                    index <= i < self.pools@.len() ==> #[trigger] self.pools@[i] == before[i],
            decreases self.pools.len() - index,
        {
            proof {
                assert(before.take(index + 1).drop_last() =~= before.take(index as int));
                lemma_releasable_prefix(before, index + 1, reached);
                assert(self.pools@[index as int] == before[index as int]);
            }
            freed = freed + self.pools[index].ring.recycle(reached);
            index += 1;
        }
        assert(before.take(index as int) =~= before);
        freed
    }
}

/// Fewer pools free no more slots.
proof fn lemma_releasable_prefix(pools: Seq<WorkerPool>, taken: int, reached: TimelinePoint)
    requires
        0 <= taken <= pools.len(),
    ensures
        releasable(pools.take(taken), reached) <= releasable(pools, reached),
    decreases pools.len() - taken,
{
    if taken < pools.len() {
        assert(pools.take(taken + 1).drop_last() =~= pools.take(taken));
        lemma_releasable_prefix(pools, taken + 1, reached);
    } else {
        assert(pools.take(taken) =~= pools);
    }
}

/// Recording takes the first free slot and no other, and the lease names it.
/// It is refused exactly where no slot is free.
pub proof fn law_a_lease_is_of_the_first_free_slot(
    ring: &mut BufferRing,
    answer: Result<Lease, Exhausted>,
)
    requires
        call_ensures(BufferRing::begin, (ring,), answer),
    ensures
        ({
            let before = old(ring)@.slots;
            let after = final(ring)@.slots;
            &&& answer is Err <==> forall|i: int|
                0 <= i < before.len() ==> !(#[trigger] before[i] is Free)
            &&& answer is Err ==> after == before
            &&& answer matches Err(refused) ==> refused.depth == before.len()
            &&& answer matches Ok(lease) ==> {
                let slot = lease.slot_index();
                &&& 0 <= slot < before.len()
                &&& before[slot] is Free
                &&& forall|i: int| 0 <= i < slot ==> !(#[trigger] before[i] is Free)
                &&& after.len() == before.len()
                &&& after[slot] is Recording
                &&& forall|i: int|
                    0 <= i < before.len() && i != slot ==> #[trigger] after[i] == before[i]
            }
        }),
{
}

/// A submitted lease's slot waits for the point it was submitted until, and an
/// abandoned one's is free again. Neither touches another slot.
pub proof fn law_a_lease_ends_in_its_own_slot(
    ring: &mut BufferRing,
    lease: Lease,
    at: TimelinePoint,
    other: int,
)
    requires
        0 <= lease.slot_index() < old(ring)@.slots.len(),
        0 <= other < old(ring)@.slots.len(),
        other != lease.slot_index(),
    ensures
        call_ensures(BufferRing::submitted, (ring, lease, at), ()) ==> {
            &&& final(ring)@.slots.len() == old(ring)@.slots.len()
            &&& final(ring)@.slots[lease.slot_index()] == SlotState::Submitted(at)
            &&& final(ring)@.slots[other] == old(ring)@.slots[other]
        },
        call_ensures(BufferRing::abandon, (ring, lease), ()) ==> {
            &&& final(ring)@.slots.len() == old(ring)@.slots.len()
            &&& final(ring)@.slots[lease.slot_index()] is Free
            &&& final(ring)@.slots[other] == old(ring)@.slots[other]
        },
{
}

/// A timeline frees the slots submitted up to the point it reached and touches
/// no other. What it says it freed is what it freed.
pub proof fn law_the_timeline_frees_what_it_passed(
    ring: &mut BufferRing,
    reached: TimelinePoint,
    freed: usize,
    slot: int,
)
    requires
        0 <= slot < old(ring)@.slots.len(),
        call_ensures(BufferRing::recycle, (ring, reached), freed),
    ensures
        final(ring)@.slots.len() == old(ring)@.slots.len(),
        (old(ring)@.slots[slot] matches SlotState::Submitted(at) && at.0 <= reached.0)
            ==> final(ring)@.slots[slot] is Free,
        !(old(ring)@.slots[slot] matches SlotState::Submitted(at) && at.0 <= reached.0)
            ==> final(ring)@.slots[slot] == old(ring)@.slots[slot],
        final(ring)@.in_flight() + freed == old(ring)@.in_flight(),
        final(ring)@.free() == old(ring)@.free() + freed,
{
    lemma_freed(old(ring)@.slots, final(ring)@.slots, reached);
}

proof fn lemma_freed(before: Seq<SlotState>, after: Seq<SlotState>, reached: TimelinePoint)
    requires
        after.len() == before.len(),
        forall|i: int|
            0 <= i < before.len() ==> #[trigger] after[i] == if BufferView::releases(
                reached,
                before[i],
            ) {
                SlotState::Free
            } else {
                before[i]
            },
    ensures
        tally(after, |state: SlotState| state is Submitted) + tally(
            before,
            |state: SlotState| BufferView::releases(reached, state),
        ) == tally(before, |state: SlotState| state is Submitted),
        tally(after, |state: SlotState| state is Free) == tally(
            before,
            |state: SlotState| state is Free,
        ) + tally(before, |state: SlotState| BufferView::releases(reached, state)),
    decreases before.len(),
{
    if before.len() > 0 {
        assert forall|i: int| 0 <= i < before.len() - 1 implies #[trigger] after.drop_last()[i]
            == if BufferView::releases(reached, before.drop_last()[i]) {
            SlotState::Free
        } else {
            before.drop_last()[i]
        } by {
            assert(after[i] == after.drop_last()[i]);
        }
        lemma_freed(before.drop_last(), after.drop_last(), reached);
        assert(after[after.len() - 1] == after.last());
    }
}

/// Each count is of its own kind of slot: there are none of a kind exactly
/// where the count says so.
pub proof fn law_each_count_is_of_its_own_kind(
    ring: BufferRing,
    in_flight: usize,
    recording: usize,
    free: usize,
    resettable: bool,
)
    requires
        call_ensures(BufferRing::in_flight, (&ring,), in_flight),
        call_ensures(BufferRing::recording, (&ring,), recording),
        call_ensures(BufferRing::free, (&ring,), free),
        call_ensures(BufferRing::resettable, (&ring,), resettable),
    ensures
        in_flight == 0 <==> forall|i: int|
            0 <= i < ring@.slots.len() ==> !(#[trigger] ring@.slots[i] is Submitted),
        recording == 0 <==> forall|i: int|
            0 <= i < ring@.slots.len() ==> !(#[trigger] ring@.slots[i] is Recording),
        free == 0 <==> forall|i: int|
            0 <= i < ring@.slots.len() ==> !(#[trigger] ring@.slots[i] is Free),
        in_flight + recording + free == ring@.slots.len(),
        resettable <==> in_flight == 0 && recording == 0,
{
    lemma_tally_none(ring@.slots, |state: SlotState| state is Submitted);
    lemma_tally_none(ring@.slots, |state: SlotState| state is Recording);
    lemma_tally_none(ring@.slots, |state: SlotState| state is Free);
    law_the_three_states_partition_the_ring(ring@);
    law_resettable_means_nothing_recording_or_in_flight(ring@);
}

/// An adopted pool has the handle, the family and the buffers it was given, a
/// slot for each buffer, and hands out the buffer of the slot a lease names.
pub proof fn law_a_pool_hands_out_the_buffers_it_was_given(
    pool: ash::vk::CommandPool,
    family: u32,
    buffers: Vec<ash::vk::CommandBuffer>,
    adopted: WorkerPool,
    lease: Lease,
    handed: ash::vk::CommandBuffer,
)
    requires
        call_ensures(WorkerPool::adopt, (pool, family, buffers), adopted),
        call_ensures(WorkerPool::buffer, (&adopted, &lease), handed),
        0 <= lease.slot_index() < buffers@.len(),
    ensures
        adopted@.pool == pool,
        adopted@.family == family,
        adopted@.buffers == buffers@,
        adopted@.ring.slots.len() == buffers@.len(),
        adopted@.ring.all_free(),
        handed == buffers@[lease.slot_index()],
{
}

/// A worker is numbered by how many came before it, and asking by that number
/// gives the pool that was pushed; workers pushed earlier keep their pools.
pub proof fn law_a_worker_keeps_its_own_pool(
    pools: &mut WorkerPools,
    pool: WorkerPool,
    worker: WorkerId,
    found: Option<&WorkerPool>,
    earlier: int,
)
    requires
        old(pools)@.len() <= u16::MAX,
        call_ensures(WorkerPools::push, (pools, pool), worker),
        call_ensures(WorkerPools::of_worker, (&*final(pools), worker), found),
        0 <= earlier < old(pools)@.len(),
    ensures
        worker.0 == old(pools)@.len(),
        found is Some && *found->0 == pool,
        final(pools)@.len() == old(pools)@.len() + 1,
        final(pools)@[earlier] == old(pools)@[earlier],
{
}

/// One timeline reading recycles every worker's ring: each slot of each worker
/// submitted up to it is free, and no other slot, no handle and no family
/// changes.
pub proof fn law_one_reading_recycles_every_worker(
    pools: &mut WorkerPools,
    reached: TimelinePoint,
    freed: usize,
    worker: int,
    slot: int,
)
    requires
        call_ensures(WorkerPools::recycle, (pools, reached), freed),
        0 <= worker < old(pools)@.len(),
        0 <= slot < old(pools)@[worker]@.ring.slots.len(),
    ensures
        ({
            let before = old(pools)@[worker]@;
            let after = final(pools)@[worker]@;
            let passed = before.ring.slots[slot] matches SlotState::Submitted(at) && at.0
                <= reached.0;
            &&& final(pools)@.len() == old(pools)@.len()
            &&& after.pool == before.pool
            &&& after.family == before.family
            &&& after.buffers == before.buffers
            &&& after.ring.slots.len() == before.ring.slots.len()
            &&& passed ==> after.ring.slots[slot] is Free
            &&& !passed ==> after.ring.slots[slot] == before.ring.slots[slot]
        }),
{
    assert(final(pools)@[worker]@.ring == old(pools)@[worker]@.ring.after(reached));
}

} // verus!
