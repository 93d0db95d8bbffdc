//! Descriptor tiers, and the sets an emission may write.

use reims_vgpu_vulkan::bindings::BindingTable;
use reims_vgpu_vulkan::descriptor::{
    plan, select, Declined, DescriptorCell, Emission, LayoutCarrier, Narrowing, SetEmission,
    SetRing, SetState, Tier,
};
use reims_vgpu_vulkan::guest::{
    BufferBinding, ObjectBinding, ObjectListRef, ResourceId, SlotGeneration, TimelinePoint,
};

/// How high a tier stands on the ladder.
fn rung(t: Tier) -> u8 {
    match t {
        Tier::DescriptorBuffer => 2,
        Tier::PushDescriptor { .. } => 1,
        Tier::PooledSets => 0,
    }
}

fn at(n: u64) -> TimelinePoint {
    TimelinePoint(n)
}

fn res(slot: u32) -> ResourceId {
    ResourceId {
        slot: ObjectListRef(slot),
        generation: SlotGeneration(1),
    }
}

fn qualified() -> DescriptorCell {
    DescriptorCell {
        push_descriptor: true,
        max_push_descriptors: 32,
        descriptor_buffer: true,
        descriptor_buffer_qualified: true,
    }
}

/// The M-series shape: push descriptors documented, descriptor buffers not.
fn push_only() -> DescriptorCell {
    DescriptorCell {
        push_descriptor: true,
        max_push_descriptors: 32,
        descriptor_buffer: false,
        descriptor_buffer_qualified: false,
    }
}

#[test]
fn descriptor_the_ladder_is_total_and_the_bottom_rung_needs_nothing() {
    let bare = DescriptorCell::default();
    let chosen = select(bare, Narrowing::default());
    assert_eq!(chosen.tier, Tier::PooledSets);
    assert_eq!(chosen.descriptor_buffer, Some(Declined::Unsupported));
    assert_eq!(chosen.push_descriptor, Some(Declined::Unsupported));
}

#[test]
fn a_qualified_host_takes_descriptor_buffers() {
    let chosen = select(qualified(), Narrowing::default());
    assert_eq!(chosen.tier, Tier::DescriptorBuffer);
    assert_eq!(chosen.descriptor_buffer, None);
}

#[test]
fn reported_support_without_qualification_falls_to_push() {
    let cell = DescriptorCell {
        descriptor_buffer_qualified: false,
        ..qualified()
    };
    let chosen = select(cell, Narrowing::default());
    assert_eq!(chosen.tier, Tier::PushDescriptor { max: 32 });
    assert_eq!(chosen.descriptor_buffer, Some(Declined::Unqualified));
    assert_eq!(chosen.push_descriptor, None);
}

#[test]
fn the_m_series_shape_lands_on_push_without_naming_a_device() {
    assert_eq!(
        select(push_only(), Narrowing::default()).tier,
        Tier::PushDescriptor { max: 32 }
    );
}

#[test]
fn a_zero_push_limit_is_its_own_answer() {
    let cell = DescriptorCell {
        max_push_descriptors: 0,
        ..push_only()
    };
    let chosen = select(cell, Narrowing::default());
    assert_eq!(chosen.tier, Tier::PooledSets);
    assert_eq!(chosen.push_descriptor, Some(Declined::LimitIsZero));
}

#[test]
fn a_veto_walks_down_one_rung_at_a_time() {
    let no_buffers = Narrowing {
        no_descriptor_buffers: true,
        ..Narrowing::default()
    };
    let chosen = select(qualified(), no_buffers);
    assert_eq!(chosen.tier, Tier::PushDescriptor { max: 32 });
    assert_eq!(chosen.descriptor_buffer, Some(Declined::NarrowedByOperator));

    let neither = Narrowing {
        no_descriptor_buffers: true,
        no_push_descriptors: true,
    };
    let chosen = select(qualified(), neither);
    assert_eq!(chosen.tier, Tier::PooledSets);
    assert_eq!(chosen.push_descriptor, Some(Declined::NarrowedByOperator));
}

/// The narrow-never-widen rule as a property: for every cell, every
/// narrowing may only move the choice *down* the ladder, never up.
#[test]
fn no_narrowing_can_widen_any_cell() {
    let mut pairs = 0;
    for push in [false, true] {
        for max in [0u32, 1, 32] {
            for buffer in [false, true] {
                for qual in [false, true] {
                    let cell = DescriptorCell {
                        push_descriptor: push,
                        max_push_descriptors: max,
                        descriptor_buffer: buffer,
                        descriptor_buffer_qualified: qual,
                    };
                    let open = rung(select(cell, Narrowing::default()).tier);
                    for a in [false, true] {
                        for b in [false, true] {
                            let narrowed = rung(
                                select(
                                    cell,
                                    Narrowing {
                                        no_push_descriptors: a,
                                        no_descriptor_buffers: b,
                                    },
                                )
                                .tier,
                            );
                            assert!(narrowed <= open, "{cell:?} {a} {b}");
                            pairs += 1;
                        }
                    }
                }
            }
        }
    }
    assert_eq!(pairs, 96);
    let moved = rung(select(qualified(), Narrowing::default()).tier)
        > rung(
            select(
                qualified(),
                Narrowing {
                    no_push_descriptors: true,
                    no_descriptor_buffers: true,
                },
            )
            .tier,
        );
    assert!(moved);
}

#[test]
fn a_layout_wider_than_the_push_limit_takes_a_set_on_a_push_device() {
    let chosen = select(push_only(), Narrowing::default());
    assert_eq!(chosen.carrier(32), LayoutCarrier::Push);
    assert_eq!(
        chosen.carrier(33),
        LayoutCarrier::PooledSet {
            over_push_limit: true
        }
    );
    let pooled = select(DescriptorCell::default(), Narrowing::default());
    assert_eq!(
        pooled.carrier(1),
        LayoutCarrier::PooledSet {
            over_push_limit: false
        }
    );
}

#[test]
fn a_second_draw_in_one_recording_never_writes_the_set_the_first_one_bound() {
    let mut ring = SetRing::new(3);
    let first = ring.emit().expect("a free set");
    assert!(first.whole());
    assert_eq!(
        ring.state(first.set()),
        Some(SetState::Bound),
        "the draw that took it reads it when it executes"
    );

    let second = ring.emit().expect("a free set");
    assert_ne!(second.set(), first.set(), "the bound set was rewritten");
    assert!(second.whole(), "a fresh set holds nothing");
    assert_eq!(ring.census().partial, 0);
}

/// The same rule, reached the long way round: through a submission, a clean
/// draw, and the exhaustion path the caller is documented to take.
#[test]
fn recycling_under_a_clean_draw_never_reopens_the_set_that_draw_bound() {
    let mut ring = SetRing::new(1);
    let dirty = ring.emit().expect("the only set");
    ring.submitted(TimelinePoint(7));
    assert_eq!(
        ring.state(dirty.set()),
        Some(SetState::Submitted(TimelinePoint(7)))
    );

    assert_eq!(ring.bind(), Some(dirty.set()));

    ring.emit().expect_err("the only set is in flight");
    assert_eq!(ring.recycle(TimelinePoint(7)), 1, "the GPU is done with it");

    ring.emit()
        .expect_err("the only set is bound by a recorded draw");
    assert_eq!(ring.state(dirty.set()), Some(SetState::Bound));
    assert_eq!(ring.bound(), 1);
    assert_eq!(ring.in_flight(), 0);
    assert!(!ring.resettable(), "a recorded draw will read it");

    ring.submitted(TimelinePoint(9));
    assert_eq!(
        ring.state(dirty.set()),
        Some(SetState::Submitted(TimelinePoint(9)))
    );
}

#[test]
fn a_recycled_set_is_writable_in_place_again_and_only_then() {
    let mut ring = SetRing::new(3);
    let first = ring.emit().expect("a free set");
    ring.submitted(at(4));
    assert_eq!(ring.recycle(at(4)), 1);
    assert_eq!(ring.state(first.set()), Some(SetState::Live));

    let second = ring.emit().expect("the live set");
    assert_eq!(second.set(), first.set());
    assert!(second.partial(), "nothing erased the contents");
    assert_eq!(ring.state(first.set()), Some(SetState::Bound));
}

#[test]
fn a_clean_draw_closes_the_set_it_binds_to_the_next_draws_write() {
    let mut ring = SetRing::new(3);
    let first = ring.emit().expect("a free set");
    ring.submitted(at(4));
    assert_eq!(ring.recycle(at(4)), 1);

    assert_eq!(ring.bind(), Some(first.set()));
    assert_eq!(ring.state(first.set()), Some(SetState::Bound));

    let second = ring.emit().expect("a free set");
    assert_ne!(second.set(), first.set(), "the clean draw's set was rewritten");
    assert!(second.whole());
}

#[test]
fn a_submitted_set_is_never_written_again_before_the_timeline() {
    let mut ring = SetRing::new(3);
    let first = ring.emit().expect("a free set");
    ring.submitted(at(7));
    assert_eq!(ring.state(first.set()), Some(SetState::Submitted(at(7))));

    let second = ring.emit().expect("a second free set");
    assert_ne!(second.set(), first.set(), "the submitted set was rewritten");
    assert!(
        second.whole(),
        "a fresh set is empty, so the emission owes the whole table"
    );

    assert_eq!(ring.recycle(at(6)), 0);
    assert_eq!(ring.recycle(at(7)), 1);
    assert_eq!(ring.state(first.set()), Some(SetState::Free));
}

#[test]
fn exhaustion_refuses_rather_than_recycling_the_oldest() {
    let mut ring = SetRing::new(2);
    for point in [1u64, 2] {
        assert!(ring.emit().expect("a free set").whole());
        ring.submitted(at(point));
    }
    let refused = ring.emit().expect_err("every set is in flight");
    assert_eq!(refused.depth, 2);
    assert_eq!(refused.in_flight, 2);
    assert_eq!(refused.slug(), "vk_descriptor_no_free_set");
    assert_eq!(ring.in_flight(), 2);
    assert_eq!(ring.census().refused, 1);
    assert!(!ring.resettable());
}

#[test]
fn submitting_with_nothing_live_is_not_a_state_change() {
    let mut ring = SetRing::new(2);
    ring.submitted(at(4));
    assert!(ring.resettable());
    assert_eq!(ring.free(), 2);
}

/// The whole point, end to end: a steady-state draw on the push rung writes
/// nothing, and the same steady state on the pooled rung writes nothing
/// too — the fresh-set cost is paid only when a submission intervened.
#[test]
fn a_steady_state_draw_writes_no_descriptors_on_either_rung() {
    let mut table = BindingTable::new(4, 4, 4);
    let binding = BufferBinding {
        buffer: Some(res(9)),
        offset: 0,
        stride: None,
    };
    assert!(table.bind_buffer(0, Some(binding)));

    let mut ring = SetRing::new(2);
    let slots = table.take_dirty();
    assert_eq!(slots.len(), 1);
    let emission = ring.emit().expect("a free set");
    assert!(emission.whole());

    assert!(table.is_clean());
    assert_eq!(ring.census().whole, 1);
    assert_eq!(ring.census().partial, 0);

    assert!(!table.bind_buffer(0, Some(binding)));
    assert!(table.is_clean());
}

/// After a submission, a rebind must land in a set the GPU is not reading,
/// and that set owes the whole bound table rather than the one slot that
/// changed.
#[test]
fn a_fresh_set_after_a_submission_carries_every_bound_slot() {
    let mut table = BindingTable::new(4, 4, 4);
    for slot in 0..3 {
        table.bind_texture(
            slot,
            Some(ObjectBinding {
                object: Some(res(slot as u32 + 1)),
                lod_clamps: None,
            }),
        );
    }
    let mut ring = SetRing::new(3);
    let first = ring.emit().expect("a free set");
    assert!(first.whole());
    let written = table.take_dirty();
    assert_eq!(written.textures.len(), 3);
    ring.submitted(at(5));

    assert!(table.bind_texture(
        1,
        Some(ObjectBinding {
            object: Some(res(42)),
            lod_clamps: None,
        })
    ));
    let next = ring.emit().expect("a second set");
    assert!(next.whole(), "the previous set is in flight");
    table.disturb_all();
    let owed = table.take_dirty();
    assert_eq!(owed.textures.len(), 3, "one changed, three owed");
    assert_eq!(ring.census().whole, 2);
}

/// The claim the holder exists for: across frames that change nothing, no
/// descriptor is ever written a second time.
#[test]
fn an_unchanged_table_across_submissions_never_rewrites_a_set() {
    let mut ring = SetRing::new(2);
    let first = ring.emit().expect("a free set");
    assert!(first.whole());

    for frame in 1..=8u64 {
        assert_eq!(ring.holder(), Some(first.set()));
        ring.submitted(at(frame));
    }

    assert_eq!(
        ring.census().whole,
        1,
        "the table was rewritten after a submission"
    );
    assert_eq!(ring.census().partial, 0);
    assert_eq!(ring.free(), 1, "no second set was ever taken");
}

/// The command buffer this ring is written around: two dirty draws, two
/// sets, one submission. Both sets are the GPU's until the timeline says
/// otherwise, and both come back.
#[test]
fn a_submission_ends_the_span_of_every_set_the_command_buffer_bound() {
    let mut ring = SetRing::new(2);
    let first = ring.emit().expect("a free set");
    let second = ring.emit().expect("a second free set");
    assert_ne!(first.set(), second.set());
    assert_eq!(ring.bound(), 2);

    ring.submitted(at(7));
    assert_eq!(ring.bound(), 0, "the command buffer bound both of them");
    assert_eq!(ring.in_flight(), 2);
    assert_eq!(ring.state(first.set()), Some(SetState::Submitted(at(7))));

    assert_eq!(ring.recycle(at(7)), 2, "and the timeline frees both");
    assert_eq!(
        ring.state(first.set()),
        Some(SetState::Free),
        "the set no draw holds is reusable"
    );
    assert_eq!(
        ring.state(second.set()),
        Some(SetState::Live),
        "and the holder keeps its contents"
    );
    assert!(
        ring.resettable(),
        "nothing is left that only a receipt frees"
    );
}

#[test]
fn a_recycled_holder_keeps_its_contents_so_the_next_change_is_partial() {
    let mut ring = SetRing::new(2);
    let first = ring.emit().expect("a free set");
    ring.submitted(at(5));
    assert_eq!(ring.recycle(at(5)), 1);
    assert_eq!(
        ring.state(first.set()),
        Some(SetState::Live),
        "a recycled holder is writable again and still holds its contents"
    );

    let next = ring.emit().expect("the holder");
    assert_eq!(next.set(), first.set());
    assert!(next.partial(), "nothing erased the contents");
    assert_eq!(ring.census().whole, 1);
    assert_eq!(ring.census().partial, 1);
}

#[test]
fn a_second_submission_of_one_set_extends_its_point_and_never_shortens_it() {
    let mut ring = SetRing::new(2);
    let first = ring.emit().expect("a free set");
    ring.submitted(at(9));
    ring.submitted(at(12));
    assert_eq!(ring.state(first.set()), Some(SetState::Submitted(at(12))));
    assert_eq!(
        ring.recycle(at(11)),
        0,
        "the later submission is still running"
    );

    ring.submitted(at(4));
    assert_eq!(ring.state(first.set()), Some(SetState::Submitted(at(12))));
    assert_eq!(ring.recycle(at(12)), 1);
}

#[test]
fn a_pool_reset_leaves_nothing_describing_the_bindings() {
    let mut ring = SetRing::new(2);
    let taken = ring.emit().expect("a free set");
    assert!(taken.whole());
    ring.submitted(at(3));
    assert!(!ring.resettable());
    assert_eq!(ring.recycle(at(3)), 1);

    assert!(ring.resettable(), "a live holder is not in flight");
    ring.reset();
    assert_eq!(ring.holder(), None);
    assert_eq!(ring.free(), 2);
    assert!(ring.emit().expect("a free set").whole());
}


/// `plan` end to end on each rung: what it takes, what it owes, and the
/// three answers that differ.
#[test]
fn plan_applies_the_tier_rule_the_caller_would_get_wrong() {
    let mut table = BindingTable::new(4, 4, 4);
    let mut ring = SetRing::new(2);

    assert_eq!(plan(LayoutCarrier::Push, &mut ring, &mut table), Ok(None));
    assert_eq!(ring.holder(), None);

    for slot in 0..3 {
        assert!(table.bind_texture(
            slot,
            Some(ObjectBinding {
                object: Some(res(slot as u32 + 1)),
                lod_clamps: None,
            })
        ));
    }

    let pushed = plan(LayoutCarrier::Push, &mut ring, &mut table)
        .expect("pushing needs no set")
        .expect("three slots moved");
    assert_eq!(pushed.slots().textures.len(), 3);
    assert_eq!(pushed.set(), None);
    assert!(!pushed.whole());
    assert_eq!(ring.holder(), None, "pushing allocates nothing");

    assert!(table.bind_texture(
        0,
        Some(ObjectBinding {
            object: Some(res(99)),
            lod_clamps: None,
        })
    ));
    let carrier = LayoutCarrier::PooledSet {
        over_push_limit: false,
    };
    let written = plan(carrier, &mut ring, &mut table)
        .expect("a free set")
        .expect("one slot moved");
    assert!(written.whole());
    assert_eq!(written.slots().textures.len(), 3, "a fresh set is empty");
    assert_eq!(written.set(), ring.holder());

    ring.submitted(at(3));
    assert_eq!(ring.recycle(at(3)), 1);
    assert!(table.bind_texture(
        1,
        Some(ObjectBinding {
            object: Some(res(100)),
            lod_clamps: None,
        })
    ));
    let again = plan(carrier, &mut ring, &mut table)
        .expect("the holder is live")
        .expect("one slot moved");
    assert!(!again.whole());
    assert_eq!(again.slots().textures.len(), 1);
    assert_eq!(again.set(), written.set());
}

/// A refused plan leaves the dirty set intact, so the caller can park the
/// draw and plan it again once the timeline has released a set.
#[test]
fn a_refused_plan_takes_nothing_from_the_table() {
    let mut table = BindingTable::new(4, 4, 4);
    let mut ring = SetRing::new(1);
    let carrier = LayoutCarrier::PooledSet {
        over_push_limit: false,
    };

    assert!(table.bind_buffer(
        0,
        Some(BufferBinding {
            buffer: Some(res(1)),
            offset: 0,
            stride: None,
        })
    ));
    assert!(plan(carrier, &mut ring, &mut table)
        .expect("a free set")
        .is_some());
    ring.submitted(at(4));

    assert!(table.bind_buffer(
        1,
        Some(BufferBinding {
            buffer: Some(res(2)),
            offset: 0,
            stride: None,
        })
    ));
    let refused = plan(carrier, &mut ring, &mut table).expect_err("the only set is in flight");
    assert_eq!(refused.depth, 1);
    assert!(!table.is_clean(), "the refused draw still owes its slots");

    assert_eq!(ring.recycle(at(4)), 1);
    let retried = plan(carrier, &mut ring, &mut table)
        .expect("the holder came back")
        .expect("the slots were still owed");
    assert!(!retried.whole(), "the holder kept its contents");
    assert_eq!(retried.slots().buffers.len(), 1);
}

/// The descriptor-buffer rung goes through the same ring, and says so.
#[test]
fn a_descriptor_buffer_region_is_no_more_writable_than_a_set() {
    let mut table = BindingTable::new(4, 4, 4);
    let mut ring = SetRing::new(2);
    assert!(table.bind_buffer(
        0,
        Some(BufferBinding {
            buffer: Some(res(1)),
            offset: 0,
            stride: None,
        })
    ));
    let written = plan(LayoutCarrier::DescriptorBuffer, &mut ring, &mut table)
        .expect("a free region")
        .expect("one slot moved");
    assert!(matches!(written, Emission::Buffer { .. }));
    assert!(written.whole());
}

#[test]
fn only_pushing_is_unconditionally_partial() {
    assert!(Tier::PushDescriptor { max: 8 }.partial_is_always_legal());
    assert!(!Tier::PooledSets.partial_is_always_legal());
    assert!(!Tier::DescriptorBuffer.partial_is_always_legal());
}


#[test]
fn every_declined_and_tier_names_itself() {
    for d in [
        Declined::Unsupported,
        Declined::Unqualified,
        Declined::NarrowedByOperator,
        Declined::LimitIsZero,
    ] {
        assert!(!d.name().is_empty());
    }
    for t in [
        Tier::DescriptorBuffer,
        Tier::PushDescriptor { max: 1 },
        Tier::PooledSets,
    ] {
        assert!(!t.name().is_empty());
    }
}

/// What the shadow says one set is, derived only from the calls made.
#[derive(Clone, Copy, Debug, PartialEq, Eq)]
enum Shadow {
    Free,
    Live,
    Bound,
    Submitted(u64),
    SubmittedAndBound(u64),
}

/// What the *history* says about one set, arrived at without restating the
/// ring's state machine.
#[derive(Clone, Copy, Debug, Default, PartialEq, Eq)]
struct Reads {
    bound: bool,
    until: Option<u64>,
}

/// A driven history of the ring against a shadow built only from what the
/// calls said.
#[test]
fn a_driven_history_never_hands_out_a_set_anything_may_be_reading() {
    let mut rng: u64 = 0x9e37_79b9_7f4a_7c15;
    let mut next = move || {
        rng ^= rng << 13;
        rng ^= rng >> 7;
        rng ^= rng << 17;
        rng
    };

    let (mut whole, mut partial_emits, mut exhausted) = (0u64, 0u64, 0u64);
    let (mut submissions, mut recycled, mut abandons, mut resets) = (0u64, 0u64, 0u64, 0u64);
    let (mut binds, mut binds_that_closed) = (0u64, 0u64);
    let (mut emit_under_flight, mut emit_under_bound) = (0u64, 0u64);

    for depth in [1usize, 2, 3, 5] {
        for _ in 0..750 {
            let mut ring = SetRing::new(depth);
            let mut shadow: Vec<Shadow> = vec![Shadow::Free; depth];
            let mut reads: Vec<Reads> = vec![Reads::default(); depth];
            let mut holder: Option<usize> = None;
            let mut clock = 1u64;

            for _ in 0..50 {
                match next() % 16 {
                    0..=4 => {
                        let outstanding = shadow
                            .iter()
                            .filter(|s| {
                                matches!(s, Shadow::Submitted(_) | Shadow::SubmittedAndBound(_))
                            })
                            .count();
                        let bound = shadow
                            .iter()
                            .filter(|s| {
                                matches!(s, Shadow::Bound | Shadow::SubmittedAndBound(_))
                            })
                            .count();
                        let expect_partial = holder.is_some_and(|h| shadow[h] == Shadow::Live);
                        match ring.emit() {
                            Ok(emission) => {
                                let set = emission.set();
                                assert!(
                                    !matches!(
                                        shadow[set],
                                        Shadow::Submitted(_) | Shadow::SubmittedAndBound(_)
                                    ),
                                    "emitted set {set} is named by a submission: {:?}",
                                    shadow[set]
                                );
                                assert!(
                                    !matches!(
                                        shadow[set],
                                        Shadow::Bound | Shadow::SubmittedAndBound(_)
                                    ),
                                    "emitted set {set} is bound by a recorded draw"
                                );
                                assert_eq!(
                                    emission.partial(),
                                    expect_partial,
                                    "the partial flag disagrees with the holder's history"
                                );
                                if expect_partial {
                                    assert_eq!(Some(set), holder);
                                    partial_emits += 1;
                                } else {
                                    assert_eq!(shadow[set], Shadow::Free);
                                    whole += 1;
                                }
                                if outstanding > 0 {
                                    emit_under_flight += 1;
                                }
                                if bound > 0 {
                                    emit_under_bound += 1;
                                }
                                assert!(
                                    !reads[set].bound,
                                    "set {set} was emitted while a recorded draw holds it"
                                );
                                assert_eq!(
                                    reads[set].until, None,
                                    "set {set} was emitted while a submission may read it"
                                );
                                shadow[set] = Shadow::Bound;
                                reads[set].bound = true;
                                holder = Some(set);
                            }
                            Err(refusal) => {
                                exhausted += 1;
                                assert_eq!(refusal.depth, depth);
                                assert_eq!(refusal.in_flight, outstanding);
                            }
                        }
                    }
                    5..=6 => {
                        assert_eq!(ring.bind(), holder);
                        if let Some(h) = holder {
                            binds += 1;
                            reads[h].bound = true;
                            match shadow[h] {
                                Shadow::Live => {
                                    binds_that_closed += 1;
                                    shadow[h] = Shadow::Bound;
                                }
                                Shadow::Submitted(at) => {
                                    binds_that_closed += 1;
                                    shadow[h] = Shadow::SubmittedAndBound(at);
                                }
                                _ => {}
                            }
                        }
                    }
                    7..=8 => {
                        let at = if next() % 3 == 0 {
                            TimelinePoint(clock.saturating_sub(next() % 4))
                        } else {
                            clock += 1;
                            TimelinePoint(clock)
                        };
                        ring.submitted(at);
                        if holder.is_some() {
                            submissions += 1;
                        }
                        for (set, slot) in shadow.iter_mut().enumerate() {
                            *slot = match *slot {
                                Shadow::Bound => Shadow::Submitted(at.0),
                                Shadow::Live if holder == Some(set) => Shadow::Submitted(at.0),
                                Shadow::Submitted(previous)
                                    if holder == Some(set) && at.0 > previous =>
                                {
                                    Shadow::Submitted(at.0)
                                }
                                Shadow::SubmittedAndBound(previous) => {
                                    Shadow::Submitted(previous.max(at.0))
                                }
                                unchanged => unchanged,
                            };
                        }
                        for (set, r) in reads.iter_mut().enumerate() {
                            if r.bound || holder == Some(set) {
                                r.until = Some(r.until.map_or(at.0, |p| p.max(at.0)));
                                r.bound = false;
                            }
                        }
                        assert_eq!(
                            ring.bound(),
                            0,
                            "a set bound by the submitted command buffer stayed bound"
                        );
                    }
                    9..=13 => {
                        let reached = TimelinePoint(clock.saturating_sub(next() % 5));
                        let freed = ring.recycle(reached);
                        let mut expected = 0;
                        for (set, slot) in shadow.iter_mut().enumerate() {
                            match *slot {
                                Shadow::Submitted(at) if reached.reached(TimelinePoint(at)) => {
                                    *slot = if holder == Some(set) {
                                        Shadow::Live
                                    } else {
                                        Shadow::Free
                                    };
                                    expected += 1;
                                }
                                Shadow::SubmittedAndBound(at)
                                    if reached.reached(TimelinePoint(at)) =>
                                {
                                    *slot = Shadow::Bound;
                                    expected += 1;
                                }
                                _ => {}
                            }
                        }
                        assert_eq!(freed, expected, "recycle freed the wrong count");
                        let mut released = 0;
                        for r in &mut reads {
                            if r.until.is_some_and(|p| reached.reached(TimelinePoint(p))) {
                                r.until = None;
                                released += 1;
                            }
                        }
                        assert_eq!(
                            freed, released,
                            "the ring recycled a different set of sets than the history says \
                             the timeline has passed"
                        );
                        recycled += freed as u64;
                    }
                    14 => {
                        if let Some(h) = holder {
                            ring.abandoned(SetEmission::forged(h, true));
                            shadow[h] = match shadow[h] {
                                Shadow::Submitted(at) | Shadow::SubmittedAndBound(at) => {
                                    Shadow::Submitted(at)
                                }
                                _ => Shadow::Free,
                            };
                            reads[h].bound = false;
                            holder = None;
                            abandons += 1;
                        }
                    }
                    _ => {
                        let idle = shadow
                            .iter()
                            .all(|s| matches!(s, Shadow::Free | Shadow::Live));
                        assert_eq!(ring.resettable(), idle);
                        if idle {
                            ring.reset();
                            resets += 1;
                            shadow.iter_mut().for_each(|s| *s = Shadow::Free);
                            reads.iter_mut().for_each(|r| *r = Reads::default());
                            holder = None;
                        }
                    }
                }

                for (set, expected) in shadow.iter().enumerate() {
                    let state = ring.state(set).expect("a set inside the ring");
                    let same = match (state, expected) {
                        (SetState::Free, Shadow::Free) => true,
                        (SetState::Live, Shadow::Live) => true,
                        (SetState::Bound, Shadow::Bound) => true,
                        (SetState::Submitted(at), Shadow::Submitted(want)) => at.0 == *want,
                        (SetState::SubmittedAndBound(at), Shadow::SubmittedAndBound(want)) => {
                            at.0 == *want
                        }
                        _ => false,
                    };
                    assert!(
                        same,
                        "set {set} is {state:?} and the shadow says {expected:?}"
                    );
                }
                assert_eq!(
                    ring.in_flight(),
                    shadow
                        .iter()
                        .filter(|s| {
                            matches!(s, Shadow::Submitted(_) | Shadow::SubmittedAndBound(_))
                        })
                        .count()
                );
                assert_eq!(
                    ring.bound(),
                    shadow.iter().filter(|s| **s == Shadow::Bound).count()
                );

                let live: Vec<usize> = (0..depth)
                    .filter(|s| ring.state(*s) == Some(SetState::Live))
                    .collect();
                assert_eq!(
                    ring.free() + live.len() + ring.bound() + ring.in_flight(),
                    depth
                );
                assert!(live.len() <= 1, "two sets describe the bindings: {live:?}");
                if let Some(only) = live.first() {
                    assert_eq!(ring.holder(), Some(*only), "a live set nobody holds");
                }
            }
        }
    }

    assert!(whole > 10_000, "whole={whole}");
    assert!(partial_emits > 1_000, "partial={partial_emits}");
    assert!(exhausted > 20_000, "exhausted={exhausted}");
    assert!(submissions > 9_000, "submissions={submissions}");
    assert!(recycled > 4_000, "recycled={recycled}");
    assert!(abandons > 4_000, "abandons={abandons}");
    assert!(resets > 600, "resets={resets}");
    assert!(binds > 9_000, "binds={binds}");
    assert!(
        binds_that_closed > 400,
        "binds_that_closed={binds_that_closed}"
    );
    assert!(
        emit_under_flight > 2_000,
        "emit_under_flight={emit_under_flight}"
    );
    assert!(
        emit_under_bound > 8_000,
        "emit_under_bound={emit_under_bound}"
    );
}

#[test]
fn an_abandoned_fresh_emission_frees_its_set_and_gives_up_the_holder() {
    let mut ring = SetRing::new(2);
    let first = ring.emit().expect("a free set");
    let set = first.set();
    assert_eq!(ring.holder(), Some(set));

    ring.abandoned(first);

    assert_eq!(ring.state(set), Some(SetState::Free));
    assert_eq!(ring.free(), 2);
    assert_eq!(ring.holder(), None);
    assert_eq!(ring.census().abandoned, 1);
}

#[test]
fn the_emission_after_an_abandoned_one_writes_the_whole_table() {
    let mut ring = SetRing::new(2);
    let first = ring.emit().expect("a free set");
    ring.abandoned(first);

    let second = ring.emit().expect("a free set");
    assert!(second.whole());
}

#[test]
fn abandoning_a_submitted_holder_gives_up_the_holder_and_frees_nothing() {
    let mut ring = SetRing::new(2);
    let first = ring.emit().expect("a free set");
    let set = first.set();
    ring.submitted(at(3));
    assert_eq!(ring.recycle(at(3)), 1);
    let partial = ring.emit().expect("the live holder");
    assert_eq!(partial.set(), set);
    ring.submitted(at(7));

    ring.abandoned(partial);

    assert_eq!(ring.state(set), Some(SetState::Submitted(at(7))));
    assert_eq!(ring.holder(), None);
    assert_eq!(ring.recycle(at(7)), 1);
    assert_eq!(ring.state(set), Some(SetState::Free));
}

#[test]
fn abandoning_an_emission_for_a_set_outside_the_ring_changes_nothing() {
    let mut ring = SetRing::new(1);
    let before = ring.clone();
    ring.abandoned(SetEmission::forged(9, false));
    assert_eq!(ring, before);
}
