//! Which queue family this rail submits to, and the type that makes a
//! `VkQueue` have one owner.
//!
//! `vkQueueSubmit` requires external synchronization on the queue.
//! [`QueueOwner`] is a value that cannot be copied, and [`QueuePlan::claim`]
//! hands out at most one per `(family, index)` pair.
//!
//! One family carries everything. A transfer-only family is recorded as a
//! census fact and nothing is routed to it: a copy engine moves the same bytes
//! over the same link.
//!
//! Everything here reads queue flags and a count, and never a device.

use crate::text::{decimal, push_decimal, push_text};
use crate::vulkan::{queue, QueueFlags};
use std::collections::BTreeSet;
use vstd::prelude::*;

pub mod fixtures;

verus! {

broadcast use vstd::std_specs::btree::group_btree_axioms;

/// One physical device queue family, as the plan needs it.
#[derive(Clone, Copy, Debug, PartialEq, Eq, Structural)]
pub struct Family {
    pub index: u32,
    pub flags: QueueFlags,
    /// `VkQueueFamilyProperties::queueCount`.
    pub count: u32,
}

impl Family {
    /// The family draws.
    pub open spec fn draws(self) -> bool {
        self.flags & queue::GRAPHICS == queue::GRAPHICS
    }

    /// The family dispatches.
    pub open spec fn dispatches(self) -> bool {
        self.flags & queue::COMPUTE == queue::COMPUTE
    }

    /// The family transfers and shares no engine with graphics or compute.
    pub open spec fn only_transfers(self) -> bool {
        self.flags & queue::TRANSFER == queue::TRANSFER && self.flags & (queue::GRAPHICS
            | queue::COMPUTE) == 0
    }

    /// Whether this family draws.
    #[must_use]
    pub fn graphics(self) -> (draws: bool)
        ensures
            draws == self.draws(),
    {
        self.flags & queue::GRAPHICS == queue::GRAPHICS
    }

    /// Whether this family dispatches.
    #[must_use]
    pub fn compute(self) -> (dispatches: bool)
        ensures
            dispatches == self.dispatches(),
    {
        self.flags & queue::COMPUTE == queue::COMPUTE
    }

    /// Whether this family transfers and shares no engine with graphics or
    /// compute.
    ///
    /// Sparse binding, video and optical flow do not disqualify it: they say
    /// what else that hardware block can do.
    #[must_use]
    pub fn transfer_only(self) -> (only: bool)
        ensures
            only == self.only_transfers(),
    {
        self.flags & queue::TRANSFER == queue::TRANSFER && self.flags & (queue::GRAPHICS
            | queue::COMPUTE) == 0
    }
}

/// One family as a physical device reports it.
#[derive(Clone, Copy, Debug, PartialEq, Eq, Structural)]
pub struct QueueFamilyProperties {
    pub queue_flags: QueueFlags,
    pub queue_count: u32,
}

/// Read the families off a physical device's reported properties, in order.
#[must_use]
pub fn families(props: &[QueueFamilyProperties]) -> (families: Vec<Family>)
    ensures
        families@.len() == props@.len(),
        forall|i: int|
            0 <= i < props@.len() ==> #[trigger] families@[i] == (Family {
                index: if i <= u32::MAX {
                    i as u32
                } else {
                    u32::MAX
                },
                flags: props@[i].queue_flags,
                count: props@[i].queue_count,
            }),
{
    let mut out: Vec<Family> = Vec::new();
    let mut at: usize = 0;
    while at < props.len()
        invariant
            at <= props@.len(),
            out@.len() == at,
            forall|i: int|
                0 <= i < at ==> #[trigger] out@[i] == (Family {
                    index: if i <= u32::MAX {
                        i as u32
                    } else {
                        u32::MAX
                    },
                    flags: props@[i].queue_flags,
                    count: props@[i].queue_count,
                }),
        decreases props@.len() - at,
    {
        let index: u32 = if at <= u32::MAX as usize {
            at as u32
        } else {
            u32::MAX
        };
        out.push(Family { index, flags: props[at].queue_flags, count: props[at].queue_count });
        at += 1;
    }
    out
}

/// Why no plan could be made.
#[derive(Clone, Copy, Debug, PartialEq, Eq, Structural)]
pub enum Decline {
    /// No family carries `GRAPHICS`. This rail draws, and a device that cannot
    /// is one it cannot execute on at all.
    NoGraphicsFamily { families: usize },
}

impl Decline {
    /// The decline's slug.
    #[must_use]
    pub fn slug(self) -> (slug: &'static str)
        ensures
            slug@ == "vk_queues_no_graphics_family"@,
    {
        "vk_queues_no_graphics_family"
    }

    /// The decline with its count.
    pub fn message(self) -> (text: String)
        ensures
            text@ == "vk_queues_no_graphics_family"@ + " families="@ + decimal(
                self->families as nat,
            ),
    {
        let mut text = String::new();
        push_text(&mut text, self.slug());
        push_text(&mut text, " families=");
        match self {
            Decline::NoGraphicsFamily { families } => push_decimal(&mut text, families as u64),
        }
        assert(text@ =~= "vk_queues_no_graphics_family"@ + " families="@ + decimal(
            self->families as nat,
        ));
        text
    }
}

/// The exclusive right to submit to one `VkQueue`.
///
/// Not `Clone` and not constructible outside this module.
#[derive(Debug, PartialEq, Eq, Structural)]
pub struct QueueOwner {
    family: u32,
    index: u32,
}

impl QueueOwner {
    /// The family the owned queue belongs to.
    pub closed spec fn of_family(&self) -> u32 {
        self.family
    }

    /// Which queue of the family is owned.
    pub closed spec fn at_index(&self) -> u32 {
        self.index
    }

    /// The family this queue belongs to, for a `VkCommandPool` that has to
    /// match it.
    #[must_use]
    pub fn family(&self) -> (family: u32)
        ensures
            family == self.of_family(),
    {
        self.family
    }

    /// Which queue within the family, for `vkGetDeviceQueue`.
    #[must_use]
    pub fn index(&self) -> (index: u32)
        ensures
            index == self.at_index(),
    {
        self.index
    }
}

/// The first family that satisfies `p`.
pub open spec fn first(families: Seq<Family>, p: spec_fn(Family) -> bool) -> Option<Family>
    decreases families.len(),
{
    if families.len() == 0 {
        None
    } else {
        match first(families.drop_last(), p) {
            Some(family) => Some(family),
            None => if p(families.last()) {
                Some(families.last())
            } else {
                None
            },
        }
    }
}

/// The family every submission goes to: the first that draws and dispatches,
/// and failing that the first that draws.
pub open spec fn chosen(families: Seq<Family>) -> Option<Family> {
    match first(families, |f: Family| f.draws() && f.dispatches()) {
        Some(family) => Some(family),
        None => first(families, |f: Family| f.draws()),
    }
}

/// Which family this rail submits to, and what else the host offered.
///
/// An immutable measurement of the device. [`QueuePlan`] adds the ledger of
/// which queues have an owner.
#[derive(Clone, Copy, Debug, PartialEq, Eq, Structural)]
pub struct QueueChoice {
    universal: Family,
    dedicated_transfer: Option<Family>,
    family_count: usize,
}

impl QueueChoice {
    /// The family every submission goes to.
    pub closed spec fn family(self) -> Family {
        self.universal
    }

    /// The transfer-only family, if the host has one.
    pub closed spec fn copy_engine(self) -> Option<Family> {
        self.dedicated_transfer
    }

    /// How many families the host reported.
    pub closed spec fn reported(self) -> usize {
        self.family_count
    }

    /// What choosing from `families` gives: the chosen family, the first that
    /// only transfers, and how many there are.
    pub open spec fn is_choice_from(self, families: Seq<Family>) -> bool {
        &&& Some(self.family()) == chosen(families)
        &&& self.copy_engine() == first(families, |f: Family| f.only_transfers())
        &&& self.reported() == families.len()
    }

    /// Choose a family from what the device reports.
    ///
    /// Prefers a family that carries both `GRAPHICS` and `COMPUTE`, so a draw
    /// and a dispatch that depend on each other are one submission order. Falls
    /// back to graphics alone. Declines if no family draws.
    pub fn from_families(families: &[Family]) -> (choice: Result<Self, Decline>)
        ensures
            match chosen(families@) {
                None => choice == Err::<QueueChoice, Decline>(
                    Decline::NoGraphicsFamily { families: families@.len() as usize },
                ),
                Some(_) => choice is Ok && choice->Ok_0.is_choice_from(families@),
            },
    {
        let ghost both = |f: Family| f.draws() && f.dispatches();
        let ghost draws = |f: Family| f.draws();
        let ghost copies = |f: Family| f.only_transfers();
        let mut draws_and_dispatches: Option<Family> = None;
        let mut drawing: Option<Family> = None;
        let mut dedicated_transfer: Option<Family> = None;
        let mut at: usize = 0;
        assert(families@.take(0) =~= Seq::empty());
        while at < families.len()
            invariant
                at <= families@.len(),
                both == (|f: Family| f.draws() && f.dispatches()),
                draws == (|f: Family| f.draws()),
                copies == (|f: Family| f.only_transfers()),
                draws_and_dispatches == first(families@.take(at as int), both),
                drawing == first(families@.take(at as int), draws),
                dedicated_transfer == first(families@.take(at as int), copies),
            decreases families@.len() - at,
        {
            let family = families[at];
            proof {
                assert(families@.take(at + 1).drop_last() =~= families@.take(at as int));
                assert(families@.take(at + 1).last() == family);
            }
            if draws_and_dispatches.is_none() && family.graphics() && family.compute() {
                draws_and_dispatches = Some(family);
            }
            if drawing.is_none() && family.graphics() {
                drawing = Some(family);
            }
            if dedicated_transfer.is_none() && family.transfer_only() {
                dedicated_transfer = Some(family);
            }
            at += 1;
        }
        assert(families@.take(at as int) =~= families@);
        let universal = match draws_and_dispatches {
            Some(family) => family,
            None => match drawing {
                Some(family) => family,
                None => {
                    return Err(Decline::NoGraphicsFamily { families: families.len() });
                },
            },
        };
        Ok(QueueChoice { universal, dedicated_transfer, family_count: families.len() })
    }

    /// The family every submission goes to.
    #[must_use]
    pub fn universal(self) -> (family: Family)
        ensures
            family == self.family(),
    {
        self.universal
    }

    /// Whether the chosen family can also dispatch.
    #[must_use]
    pub fn compute(self) -> (dispatches: bool)
        ensures
            dispatches == self.family().dispatches(),
    {
        self.universal.compute()
    }

    /// The transfer-only family, if the host has one.
    #[must_use]
    pub fn dedicated_transfer(self) -> (family: Option<Family>)
        ensures
            family == self.copy_engine(),
    {
        self.dedicated_transfer
    }

    /// How many families the host reported.
    #[must_use]
    pub fn family_count(self) -> (count: usize)
        ensures
            count == self.reported(),
    {
        self.family_count
    }
}

/// The number a queue is entered in a ledger under.
pub open spec fn queue_key(family: u32, index: u32) -> u64 {
    (family * 0x1_0000_0000 + index) as u64
}

fn key_of(family: u32, index: u32) -> (key: u64)
    ensures
        key == queue_key(family, index),
{
    family as u64 * 0x1_0000_0000 + index as u64
}

/// Different queues are entered under different numbers.
pub proof fn law_queues_have_their_own_keys(
    family: u32,
    index: u32,
    other_family: u32,
    other_index: u32,
)
    ensures
        queue_key(family, index) == queue_key(other_family, other_index) <==> family
            == other_family && index == other_index,
{
}

/// A plan's contents: the choice it was started from and the queues that have
/// an owner.
pub struct PlanView {
    pub choice: QueueChoice,
    pub claimed: Set<u64>,
}

impl PlanView {
    /// A plan in which no queue has an owner.
    pub open spec fn fresh(choice: QueueChoice) -> PlanView {
        PlanView { choice, claimed: Set::empty() }
    }

    /// Whether a queue can be taken: it is not past the chosen family's count,
    /// and it has no owner.
    pub open spec fn claimable(self, family: u32, index: u32) -> bool {
        &&& family == self.choice.family().index ==> index < self.choice.family().count
        &&& !self.claimed.contains(queue_key(family, index))
    }

    /// The plan after a queue was taken, where it could be.
    pub open spec fn claim(self, family: u32, index: u32) -> PlanView {
        if self.claimable(family, index) {
            PlanView { claimed: self.claimed.insert(queue_key(family, index)), ..self }
        } else {
            self
        }
    }

    /// The plan after a queue was given back.
    pub open spec fn release(self, family: u32, index: u32) -> PlanView {
        PlanView { claimed: self.claimed.remove(queue_key(family, index)), ..self }
    }
}

/// The chosen family plus the ledger of which queues have an owner.
///
/// One per device epoch.
#[derive(Debug, PartialEq, Eq)]
pub struct QueuePlan {
    choice: QueueChoice,
    claimed: BTreeSet<u64>,
}

impl View for QueuePlan {
    type V = PlanView;

    closed spec fn view(&self) -> PlanView {
        PlanView { choice: self.choice, claimed: self.claimed@ }
    }
}

impl QueuePlan {
    /// Choose a family from what the device reports, and start an empty ledger.
    /// Declines if no family draws.
    pub fn choose_from(families: &[Family]) -> (plan: Result<Self, Decline>)
        ensures
            match chosen(families@) {
                None => plan == Err::<QueuePlan, Decline>(
                    Decline::NoGraphicsFamily { families: families@.len() as usize },
                ),
                Some(_) => plan is Ok && plan->Ok_0@.choice.is_choice_from(families@)
                    && plan->Ok_0@ == PlanView::fresh(plan->Ok_0@.choice),
            },
    {
        match QueueChoice::from_families(families) {
            Ok(choice) => Ok(QueuePlan::adopt(choice)),
            Err(decline) => Err(decline),
        }
    }

    /// Start a ledger against a choice already made.
    #[must_use]
    pub fn adopt(choice: QueueChoice) -> (plan: Self)
        ensures
            plan@ == PlanView::fresh(choice),
    {
        QueuePlan { choice, claimed: BTreeSet::new() }
    }

    /// The measurement this plan was started from, with no ownership state.
    #[must_use]
    pub fn choice(&self) -> (choice: QueueChoice)
        ensures
            choice == self@.choice,
    {
        self.choice
    }

    /// The family every submission goes to.
    #[must_use]
    pub fn universal(&self) -> (family: Family)
        ensures
            family == self@.choice.family(),
    {
        self.choice.universal()
    }

    /// Whether the chosen family can also dispatch.
    ///
    /// False is a real host arrangement, and the caller's answer to it is a
    /// typed refusal of compute work.
    #[must_use]
    pub fn compute(&self) -> (dispatches: bool)
        ensures
            dispatches == self@.choice.family().dispatches(),
    {
        self.choice.compute()
    }

    /// A transfer-only family, if the host has one. Recorded for the report;
    /// nothing is routed to it.
    #[must_use]
    pub fn dedicated_transfer(&self) -> (family: Option<Family>)
        ensures
            family == self@.choice.copy_engine(),
    {
        self.choice.dedicated_transfer()
    }

    /// Take the sole owner of one queue in the chosen family.
    ///
    /// `None` when `index` is past the family's queue count, or when this queue
    /// already has an owner.
    pub fn claim(&mut self, index: u32) -> (owner: Option<QueueOwner>)
        ensures
            final(self)@ == old(self)@.claim(old(self)@.choice.family().index, index),
            owner is Some <==> old(self)@.claimable(old(self)@.choice.family().index, index),
            owner matches Some(owner) ==> owner.of_family() == old(self)@.choice.family().index
                && owner.at_index() == index,
            final(self)@.claimed.finite(),
            final(self)@.claimed.len() == old(self)@.claimed.len() + if owner is Some {
                1int
            } else {
                0int
            },
    {
        let family: u32 = self.choice.universal().index;
        self.claim_in(family, index)
    }

    /// Take the sole owner of one queue in a named family.
    ///
    /// The single-owner rule holds across families because the pair is the key.
    pub fn claim_in(&mut self, family: u32, index: u32) -> (owner: Option<QueueOwner>)
        ensures
            final(self)@ == old(self)@.claim(family, index),
            owner is Some <==> old(self)@.claimable(family, index),
            owner matches Some(owner) ==> owner.of_family() == family && owner.at_index() == index,
            final(self)@.claimed.finite(),
            final(self)@.claimed.len() == old(self)@.claimed.len() + if owner is Some {
                1int
            } else {
                0int
            },
    {
        proof {
            law_a_claim_counts_one(self@, family, index);
        }
        let universal = self.choice.universal();
        if family == universal.index && index >= universal.count {
            return None;
        }
        if !self.claimed.insert(key_of(family, index)) {
            assert(self@.claimed =~= old(self)@.claimed);
            return None;
        }
        Some(QueueOwner { family, index })
    }

    /// Give a queue's ownership back, so something else may take it.
    ///
    /// Takes the owner by value: the caller cannot keep submitting through an
    /// owner it has handed back.
    pub fn release(&mut self, owner: QueueOwner)
        ensures
            final(self)@ == old(self)@.release(owner.of_family(), owner.at_index()),
            final(self)@.claimed.finite(),
            final(self)@.claimed.len() == old(self)@.claimed.len() - if old(
                self,
            )@.claimed.contains(queue_key(owner.of_family(), owner.at_index())) {
                1int
            } else {
                0int
            },
    {
        proof {
            law_a_claim_counts_one(self@, owner.of_family(), owner.at_index());
        }
        let key: u64 = key_of(owner.family, owner.index);
        self.claimed.remove(&key);
        assert(self@.claimed =~= old(self)@.claimed.remove(key));
    }

    /// Queues currently owned.
    #[must_use]
    pub fn claimed(&self) -> (count: usize)
        ensures
            self@.claimed.finite(),
            count == self@.claimed.len(),
    {
        proof {
            lemma_keys_are_finite(self@.claimed);
        }
        self.claimed.len()
    }

    /// What the host offered and what was chosen from it.
    pub open spec fn census_text(&self) -> Seq<char> {
        let choice = self@.choice;
        "vk_queues families="@ + decimal(choice.reported() as nat) + " universal_family="@
            + decimal(choice.family().index as nat) + " queues="@ + decimal(
            choice.family().count as nat,
        ) + " compute="@ + decimal(
            if choice.family().dispatches() {
                1
            } else {
                0
            },
        ) + " transfer_only_family="@ + match choice.copy_engine() {
            Some(family) => decimal(family.index as nat),
            None => "none"@,
        }
    }

    /// One line for the always-on report: what the host offered and what was
    /// chosen from it.
    #[must_use]
    pub fn census(&self) -> (text: String)
        ensures
            text@ == self.census_text(),
    {
        let mut text = String::new();
        let universal = self.universal();
        push_text(&mut text, "vk_queues families=");
        push_decimal(&mut text, self.choice.family_count() as u64);
        push_text(&mut text, " universal_family=");
        push_decimal(&mut text, universal.index as u64);
        push_text(&mut text, " queues=");
        push_decimal(&mut text, universal.count as u64);
        push_text(&mut text, " compute=");
        let compute: u64 = if self.compute() {
            1
        } else {
            0
        };
        push_decimal(&mut text, compute);
        push_text(&mut text, " transfer_only_family=");
        match self.dedicated_transfer() {
            Some(family) => push_decimal(&mut text, family.index as u64),
            None => push_text(&mut text, "none"),
        }
        assert(text@ =~= self.census_text());
        text
    }
}

/// A queue that was taken cannot be taken again until it is given back, and
/// giving it back makes it available.
pub proof fn law_a_queue_has_one_owner(plan: PlanView, family: u32, index: u32)
    requires
        plan.claimable(family, index),
    ensures
        !plan.claim(family, index).claimable(family, index),
        plan.claim(family, index).claim(family, index) == plan.claim(family, index),
        plan.claim(family, index).release(family, index).claimable(family, index),
        plan.claim(family, index).release(family, index).claimed =~= plan.claimed,
{
}

/// A set of keys is finite: there are only so many words.
proof fn lemma_keys_are_finite(keys: Set<u64>)
    ensures
        keys.finite(),
{
    let range = vstd::set_lib::set_int_range(0, 0x1_0000_0000_0000_0000);
    vstd::set_lib::lemma_int_range(0, 0x1_0000_0000_0000_0000);
    let words = range.map(|i: int| i as u64);
    range.lemma_map_finite(|i: int| i as u64);
    assert forall|key: u64| keys.contains(key) implies words.contains(key) by {
        assert(range.contains(key as int) && (key as int) as u64 == key);
    }
    vstd::set_lib::lemma_len_subset(keys, words);
}

/// The queues that have an owner are finitely many. Taking one makes them one
/// more, and giving back one that was taken makes them one fewer; a take that
/// is refused and a return of what has no owner change nothing.
pub proof fn law_a_claim_counts_one(plan: PlanView, family: u32, index: u32)
    ensures
        plan.claimed.finite(),
        plan.claim(family, index).claimed.finite(),
        plan.release(family, index).claimed.finite(),
        plan.claim(family, index).claimed.len() == plan.claimed.len() + if plan.claimable(
            family,
            index,
        ) {
            1int
        } else {
            0int
        },
        plan.release(family, index).claimed.len() == plan.claimed.len()
            - if plan.claimed.contains(queue_key(family, index)) {
            1int
        } else {
            0int
        },
        !plan.claimable(family, index) ==> plan.claim(family, index) == plan,
        !plan.claimed.contains(queue_key(family, index)) ==> plan.release(family, index).claimed
            =~= plan.claimed,
{
    lemma_keys_are_finite(plan.claimed);
    if !plan.claimed.contains(queue_key(family, index)) {
        assert(plan.release(family, index).claimed =~= plan.claimed);
    }
}

/// Taking or giving back one queue leaves every other as it was.
pub proof fn law_queues_are_claimed_apart(
    plan: PlanView,
    family: u32,
    index: u32,
    other_family: u32,
    other_index: u32,
)
    requires
        family != other_family || index != other_index,
    ensures
        plan.claim(family, index).claimable(other_family, other_index) == plan.claimable(
            other_family,
            other_index,
        ),
        plan.release(family, index).claimable(other_family, other_index) == plan.claimable(
            other_family,
            other_index,
        ),
{
    law_queues_have_their_own_keys(family, index, other_family, other_index);
}

/// The first family satisfying a predicate is one of the families, satisfies
/// it, and no family before it does.
pub proof fn law_first_is_the_first(families: Seq<Family>, p: spec_fn(Family) -> bool)
    ensures
        match first(families, p) {
            Some(family) => exists|i: int|
                0 <= i < families.len() && families[i] == family && p(family) && forall|j: int|
                    0 <= j < i ==> !p(#[trigger] families[j]),
            None => forall|i: int| 0 <= i < families.len() ==> !p(#[trigger] families[i]),
        },
    decreases families.len(),
{
    if families.len() > 0 {
        let earlier = families.drop_last();
        law_first_is_the_first(earlier, p);
        match first(earlier, p) {
            Some(family) => {
                let i = choose|i: int|
                    0 <= i < earlier.len() && earlier[i] == family && p(family) && forall|j: int|
                        0 <= j < i ==> !p(#[trigger] earlier[j]);
                assert(families[i] == family);
                assert forall|j: int| 0 <= j < i implies !p(#[trigger] families[j]) by {
                    assert(!p(earlier[j]));
                }
            },
            None => {
                assert forall|j: int| 0 <= j < families.len() - 1 implies !p(
                    #[trigger] families[j],
                ) by {
                    assert(!p(earlier[j]));
                }
                if p(families.last()) {
                    assert(families[families.len() - 1] == families.last());
                }
            },
        }
    }
}

/// The chosen family draws, and it dispatches too wherever any drawing family
/// does.
pub proof fn law_the_chosen_family_draws(families: Seq<Family>)
    ensures
        chosen(families) matches Some(family) ==> family.draws() && (family.dispatches() || forall|
            i: int,
        |
            0 <= i < families.len() ==> !((#[trigger] families[i]).draws()
                && families[i].dispatches())),
        chosen(families) is None ==> forall|i: int|
            0 <= i < families.len() ==> !(#[trigger] families[i]).draws(),
{
    law_first_is_the_first(families, |f: Family| f.draws() && f.dispatches());
    law_first_is_the_first(families, |f: Family| f.draws());
}

/// The copy engine is never the family that draws.
pub proof fn law_the_copy_engine_is_not_the_chosen_family(families: Seq<Family>)
    ensures
        first(families, |f: Family| f.only_transfers()) matches Some(copies) ==> !copies.draws()
            && !copies.dispatches(),
{
    law_first_is_the_first(families, |f: Family| f.only_transfers());
    if let Some(copies) = first(families, |f: Family| f.only_transfers()) {
        let flags = copies.flags;
        assert(flags & (1u32 | 2u32) == 0 ==> flags & 1u32 != 1u32 && flags & 2u32 != 2u32)
            by (bit_vector);
    }
}

/// A family draws, dispatches or only transfers by its own flags: the lowest
/// bit is graphics, the next compute, the next transfer.
pub proof fn law_a_family_does_what_its_flags_say(
    family: Family,
    graphics: bool,
    compute: bool,
    transfer_only: bool,
)
    requires
        call_ensures(Family::graphics, (family,), graphics),
        call_ensures(Family::compute, (family,), compute),
        call_ensures(Family::transfer_only, (family,), transfer_only),
    ensures
        graphics <==> family.flags % 2 == 1,
        compute <==> family.flags / 2 % 2 == 1,
        transfer_only <==> family.flags / 4 % 2 == 1 && !graphics && !compute,
{
    let flags = family.flags;
    assert((flags & 1u32 == 1u32 <==> flags % 2 == 1) && (flags & 2u32 == 2u32 <==> (flags / 2) % 2
        == 1) && (flags & 4u32 == 4u32 <==> (flags / 4) % 2 == 1) && (flags & (1u32 | 2u32) == 0
        <==> flags % 2 == 0 && (flags / 2) % 2 == 0)) by (bit_vector);
}

/// A family keeps its place, its flags and its count.
pub proof fn law_families_are_read_in_order(
    props: &[QueueFamilyProperties],
    read: Vec<Family>,
    at: int,
)
    requires
        call_ensures(families, (props,), read),
        0 <= at < props@.len() <= u32::MAX,
    ensures
        read@.len() == props@.len(),
        read@[at].index == at,
        read@[at].flags == props@[at].queue_flags,
        read@[at].count == props@[at].queue_count,
{
}

/// Submissions go to the first family that draws and dispatches, and where none
/// does both to the first that draws; there is no choice exactly where none
/// draws. The copy engine is the first family that only transfers, and the
/// choice remembers how many families there were.
pub proof fn law_the_first_fit_family_is_chosen(
    families: &[Family],
    answer: Result<QueueChoice, Decline>,
    universal: Family,
    copies: Option<Family>,
    count: usize,
    dispatches: bool,
)
    requires
        call_ensures(QueueChoice::from_families, (families,), answer),
        answer matches Ok(choice) ==> {
            &&& call_ensures(QueueChoice::universal, (choice,), universal)
            &&& call_ensures(QueueChoice::dedicated_transfer, (choice,), copies)
            &&& call_ensures(QueueChoice::family_count, (choice,), count)
            &&& call_ensures(QueueChoice::compute, (choice,), dispatches)
        },
    ensures
        answer is Err <==> forall|i: int|
            0 <= i < families@.len() ==> !(#[trigger] families@[i]).draws(),
        answer is Err ==> answer->Err_0 == (Decline::NoGraphicsFamily {
            families: families@.len() as usize,
        }),
        answer is Ok ==> is_first(families@, universal, |f: Family| f.draws() && f.dispatches()) || (
        is_first(families@, universal, |f: Family| f.draws()) && forall|i: int|
            0 <= i < families@.len() ==> !((#[trigger] families@[i]).draws()
                && families@[i].dispatches())),
        answer is Ok ==> match copies {
            Some(copies) => is_first(families@, copies, |f: Family| f.only_transfers()),
            None => forall|i: int|
                0 <= i < families@.len() ==> !(#[trigger] families@[i]).only_transfers(),
        },
        answer is Ok ==> count == families@.len(),
        answer is Ok ==> dispatches == universal.dispatches(),
{
    law_first_is_the_first(families@, |f: Family| f.draws() && f.dispatches());
    law_first_is_the_first(families@, |f: Family| f.draws());
    law_first_is_the_first(families@, |f: Family| f.only_transfers());
}

/// Whether a family is the first of its kind.
pub open spec fn is_first(
    families: Seq<Family>,
    family: Family,
    p: spec_fn(Family) -> bool,
) -> bool {
    exists|i: int|
        0 <= i < families.len() && #[trigger] families[i] == family && p(family) && forall|j: int|
            0 <= j < i ==> !p(#[trigger] families[j])
}

/// A queue is given to whoever asks first: the owner names the queue asked for,
/// and the queue is then taken. It is refused where it is taken or past the
/// chosen family's count, and nothing changes. A claim that names no family is
/// one in the chosen family. Giving it back frees that queue and no other.
pub proof fn law_a_queue_goes_to_whoever_asks_first(
    plan: &mut QueuePlan,
    family: u32,
    index: u32,
    answer: Option<QueueOwner>,
    owner: QueueOwner,
    other_family: u32,
    other_index: u32,
)
    requires
        other_family != family || other_index != index,
    ensures
        ({
            let before = old(plan)@.claimed;
            let after = final(plan)@.claimed;
            let key = queue_key(family, index);
            let other = queue_key(other_family, other_index);
            let universal = old(plan)@.choice.family();
            &&& call_ensures(QueuePlan::claim_in, (plan, family, index), answer) ==> {
                &&& final(plan)@.choice == old(plan)@.choice
                &&& answer is Some <==> !before.contains(key) && !(family == universal.index && index
                    >= universal.count)
                &&& answer is Some ==> after.contains(key)
                &&& answer is None ==> after == before
                &&& answer matches Some(owner) ==> owner.of_family() == family && owner.at_index()
                    == index
                &&& after.contains(other) <==> before.contains(other)
            }
            &&& call_ensures(QueuePlan::claim, (plan, index), answer) && family == universal.index
                ==> {
                &&& answer is Some <==> !before.contains(key) && index < universal.count
                &&& answer is Some ==> after.contains(key)
                &&& answer is None ==> after == before
                &&& answer matches Some(owner) ==> owner.of_family() == universal.index
                    && owner.at_index() == index
            }
            &&& call_ensures(QueuePlan::release, (plan, owner), ()) && owner.of_family() == family
                && owner.at_index() == index ==> {
                &&& !after.contains(key)
                &&& after.contains(other) <==> before.contains(other)
                &&& final(plan)@.choice == old(plan)@.choice
            }
        }),
{
    law_queues_have_their_own_keys(family, index, other_family, other_index);
}

/// A plan's line gives what the plan answers for: how many families there were,
/// the chosen one's index, its queues and whether it dispatches, and the copy
/// engine's index where there is one.
pub proof fn law_a_plans_line_gives_what_the_plan_answers(
    plan: QueuePlan,
    line: String,
    universal: Family,
    compute: bool,
    copies: Option<Family>,
    choice: QueueChoice,
    families: usize,
)
    requires
        call_ensures(QueuePlan::census, (&plan,), line),
        call_ensures(QueuePlan::universal, (&plan,), universal),
        call_ensures(QueuePlan::compute, (&plan,), compute),
        call_ensures(QueuePlan::dedicated_transfer, (&plan,), copies),
        call_ensures(QueuePlan::choice, (&plan,), choice),
        call_ensures(QueueChoice::family_count, (choice,), families),
    ensures
        line@ == "vk_queues families="@ + decimal(families as nat) + " universal_family="@
            + decimal(universal.index as nat) + " queues="@ + decimal(universal.count as nat)
            + " compute="@ + seq![
            if compute {
                '1'
            } else {
                '0'
            },
        ] + " transfer_only_family="@ + match copies {
            Some(family) => decimal(family.index as nat),
            None => "none"@,
        },
        universal == choice.family(),
        copies == choice.copy_engine(),
        compute == universal.dispatches(),
{
}

} // verus!
