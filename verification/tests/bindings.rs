//! A binding table emits what changed and nothing else.

use reims_vgpu_vulkan::bindings::{BindingTable, SlotMask};
use reims_vgpu_vulkan::guest::{
    BufferBinding, ObjectBinding, ObjectListRef, ResourceId, SlotGeneration,
};

#[derive(Clone, PartialEq, Eq, Debug)]
struct Shadow {
    buffers: Vec<Option<BufferBinding>>,
    textures: Vec<Option<ObjectBinding>>,
    samplers: Vec<Option<ObjectBinding>>,
}

impl Shadow {
    fn new(b: usize, t: usize, s: usize) -> Self {
        Self {
            buffers: vec![None; b],
            textures: vec![None; t],
            samplers: vec![None; s],
        }
    }
}

/// Consume an emission whose contents this test is not asserting about.
/// `Dirty` is `#[must_use]` because slots reported and not written leave the
/// descriptor stale, so a test drops one deliberately or not at all.
fn emit(t: &mut BindingTable) -> usize {
    t.take_dirty().len()
}

fn res(slot: u32, generation: u64) -> ResourceId {
    ResourceId {
        slot: ObjectListRef(slot),
        generation: SlotGeneration(generation),
    }
}

fn buffer(slot: u32, offset: u64) -> Option<BufferBinding> {
    Some(BufferBinding {
        buffer: Some(res(slot, 1)),
        offset,
        stride: None,
    })
}

fn texture(slot: u32) -> Option<ObjectBinding> {
    Some(ObjectBinding {
        object: Some(res(slot, 1)),
        lod_clamps: None,
    })
}

fn object(slot: u32, generation: u64) -> Option<ObjectBinding> {
    Some(ObjectBinding {
        object: Some(res(slot, generation)),
        lod_clamps: None,
    })
}

fn table() -> BindingTable {
    BindingTable::new(32, 128, 16)
}

/// The rule: a guest that binds the same things every draw emits nothing
/// after the first.
#[test]
fn a_steady_state_draw_emits_nothing() {
    let mut t = table();
    for slot in 0..40 {
        t.bind_texture(slot, texture(slot as u32));
    }
    assert_eq!(t.take_dirty().len(), 40, "the first draw writes them all");
    for _ in 0..100 {
        for slot in 0..40 {
            assert!(
                !t.bind_texture(slot, texture(slot as u32)),
                "rebinding the same value is not a change"
            );
        }
        assert!(t.is_clean());
        assert!(t.take_dirty().is_empty());
    }
    assert_eq!(
        t.census().emitted,
        40,
        "forty writes across a hundred draws"
    );
    assert_eq!(t.census().redundant, 4000);
}

/// Only what moved.
#[test]
fn only_the_slots_that_changed_are_emitted() {
    let mut t = table();
    for slot in 0..8 {
        t.bind_buffer(slot, buffer(slot as u32, 0));
    }
    emit(&mut t);
    t.bind_buffer(3, buffer(3, 256));
    t.bind_buffer(5, buffer(99, 0));
    let dirty = t.take_dirty();
    assert_eq!(dirty.buffers.slots(), vec![3, 5]);
    assert!(dirty.textures.is_empty());
}

/// A slot's offset is part of its binding, so the same resource at a
/// different offset is a different binding.
#[test]
fn a_different_window_of_one_buffer_is_a_change() {
    let mut t = table();
    t.bind_buffer(0, buffer(1, 0));
    emit(&mut t);
    assert!(t.bind_buffer(0, buffer(1, 64)));
    assert_eq!(t.take_dirty().buffers.slots(), vec![0]);
}

/// Two different resources may occupy one native handle across a retire and
/// a recreate. Comparing by identity is what stops a slot reading clean
/// while pointing at somebody else's memory.
#[test]
fn a_reused_slot_at_a_new_generation_is_a_change() {
    let mut t = table();
    t.bind_texture(0, object(7, 1));
    emit(&mut t);
    assert!(
        t.bind_texture(0, object(7, 2)),
        "the same object-list slot at a later generation is a different resource"
    );
}

/// A tracker that read `None` as "no news" would leave a descriptor
/// pointing at a resource the guest has released.
#[test]
fn unbinding_a_slot_is_a_change_and_binding_nothing_twice_is_not() {
    let mut t = table();
    t.bind_texture(4, texture(1));
    emit(&mut t);
    assert!(t.bind_texture(4, None));
    assert_eq!(t.take_dirty().textures.slots(), vec![4]);
    assert!(t.texture(4).is_none());
    assert!(!t.bind_texture(4, None), "it was already unbound");
}

/// A fresh command buffer has no bindings, so everything bound has to be
/// written again — and nothing unbound does.
#[test]
fn a_disturbance_dirties_the_bound_slots_and_only_those() {
    let mut t = table();
    t.bind_buffer(0, buffer(1, 0));
    t.bind_buffer(7, buffer(2, 0));
    t.bind_texture(31, texture(3));
    t.bind_texture(64, texture(4));
    emit(&mut t);
    assert!(t.is_clean());

    t.disturb_all();
    let dirty = t.take_dirty();
    assert_eq!(dirty.buffers.slots(), vec![0, 7]);
    assert_eq!(
        dirty.textures.slots(),
        vec![31, 64],
        "and the mask spans more than one word"
    );
    assert!(dirty.samplers.is_empty(), "nothing was bound to a sampler");
    assert_eq!(t.census().disturbances, 1);
}

/// A fresh table's first draw writes nothing: an unbound slot has no
/// descriptor to write, and marking them all would make every command
/// buffer start by emitting a full table.
#[test]
fn a_fresh_table_is_clean() {
    let mut t = table();
    assert!(t.is_clean());
    t.disturb_all();
    assert!(t.is_clean(), "nothing is bound, so nothing is stale");
}

/// A reset is the guest's objects going away, not the driver's belief.
#[test]
fn a_reset_forgets_the_bindings_and_a_disturbance_does_not() {
    let mut t = table();
    t.bind_buffer(1, buffer(1, 0));
    emit(&mut t);

    let mut disturbed = t.clone();
    disturbed.disturb_all();
    assert_eq!(disturbed.buffer(1), buffer(1, 0), "still bound");
    assert!(!disturbed.is_clean(), "and owed a write");

    t.reset();
    assert_eq!(t.buffer(1), None);
    assert!(t.is_clean(), "there is nothing left to write");
}

/// A driven history of the table against a shadow that knows only what the
/// *calls* said.
#[test]
fn a_driven_history_never_leaves_the_set_disagreeing_with_the_guest() {
    let mut rng: u64 = 0x243f_6a88_85a3_08d3;
    let mut next = move || {
        rng ^= rng << 13;
        rng ^= rng >> 7;
        rng ^= rng << 17;
        rng
    };

    let (mut changed, mut redundant, mut ignored) = (0u64, 0u64, 0u64);
    let (mut unbinds, mut emissions, mut disturbances, mut resets) = (0u64, 0u64, 0u64, 0u64);
    let mut stale_window = 0u64;

    for (buffers, textures, samplers) in [(6usize, 5usize, 4usize), (3, 70, 2)] {
        for _ in 0..300 {
            let mut table = BindingTable::new(buffers, textures, samplers);
            let mut held = Shadow::new(buffers, textures, samplers);
            let mut written = Shadow::new(buffers, textures, samplers);
            let mut pending_unbind = false;
            let mut binds = 0u64;

            for _ in 0..60 {
                match next() % 16 {
                    0..=8 => {
                        binds += 1;
                        let class = next() % 3;
                        let width = match class {
                            0 => buffers,
                            1 => textures,
                            _ => samplers,
                        };
                        let slot = if next() % 8 == 0 {
                            width + (next() as usize % 4)
                        } else {
                            next() as usize % width.max(1)
                        };
                        let name = (next() % 3) as u32;
                        let unbind = next() % 4 == 0;
                        let before = table.census();
                        let was_clean = table.is_clean();
                        let names_the_same;
                        match class {
                            0 => {
                                let value = if unbind { None } else { buffer(name, 0) };
                                names_the_same = held.buffers.get(slot) == Some(&value);
                                table.bind_buffer(slot, value);
                                if let Some(entry) = held.buffers.get_mut(slot) {
                                    if *entry != value && value.is_none() {
                                        pending_unbind = true;
                                    }
                                    *entry = value;
                                }
                            }
                            1 => {
                                let value = if unbind { None } else { texture(name) };
                                names_the_same = held.textures.get(slot) == Some(&value);
                                table.bind_texture(slot, value);
                                if let Some(entry) = held.textures.get_mut(slot) {
                                    if *entry != value && value.is_none() {
                                        pending_unbind = true;
                                    }
                                    *entry = value;
                                }
                            }
                            _ => {
                                let value = if unbind { None } else { texture(name) };
                                names_the_same = held.samplers.get(slot) == Some(&value);
                                table.bind_sampler(slot, value);
                                if let Some(entry) = held.samplers.get_mut(slot) {
                                    if *entry != value && value.is_none() {
                                        pending_unbind = true;
                                    }
                                    *entry = value;
                                }
                            }
                        }
                        if unbind && slot < width {
                            unbinds += 1;
                        }
                        if was_clean && names_the_same {
                            assert!(
                                table.is_clean(),
                                "a bind that changed nothing dirtied the table"
                            );
                        }
                        let after = table.census();
                        changed += (after.changed - before.changed) as u64;
                        redundant += (after.redundant - before.redundant) as u64;
                        ignored += (after.ignored - before.ignored) as u64;
                    }
                    9..=10 => {
                        if table.is_clean() {
                            assert_eq!(written, held, "clean and disagreeing");
                        }
                        let dirty = table.take_dirty();
                        emissions += 1;
                        for slot in dirty.buffers.slots() {
                            written.buffers[slot] = held.buffers[slot];
                        }
                        for slot in dirty.textures.slots() {
                            written.textures[slot] = held.textures[slot];
                        }
                        for slot in dirty.samplers.slots() {
                            written.samplers[slot] = held.samplers[slot];
                        }
                        pending_unbind = false;
                        assert_eq!(
                            written, held,
                            "the set disagrees with the guest after an emission"
                        );
                        assert!(table.is_clean(), "an emission left the table dirty");
                    }
                    11..=13 => {
                        if pending_unbind {
                            stale_window += 1;
                        }
                        table.disturb_all();
                        disturbances += 1;
                    }
                    14 if next() % 4 == 0 => {
                        table.reset();
                        resets += 1;
                        held = Shadow::new(buffers, textures, samplers);
                        written = Shadow::new(buffers, textures, samplers);
                        assert!(table.is_clean());
                    }
                    _ => {
                        if table.is_clean() {
                            assert_eq!(written, held, "clean and disagreeing");
                        }
                    }
                }
            }

            let census = table.census();
            assert_eq!(
                census.changed + census.redundant + census.ignored,
                binds as usize,
                "every bind lands in exactly one census answer"
            );
        }
    }

    assert!(changed > 2_000, "changed={changed}");
    assert!(redundant > 2_000, "redundant={redundant}");
    assert!(ignored > 200, "ignored={ignored}");
    assert!(unbinds > 1_000, "unbinds={unbinds}");
    assert!(emissions > 3_000, "emissions={emissions}");
    assert!(disturbances > 3_000, "disturbances={disturbances}");
    assert!(resets > 400, "resets={resets}");
    assert!(stale_window > 1_000, "stale_window={stale_window}");
}

/// A slot the guest unbound is a change, and a disturbance is a claim
/// about the driver's belief rather than permission to forget it. The
/// disturbance built its mask from the *bound* slots and overwrote the
/// dirty set with it, so the unbind's bit was cleared; the emission that
/// followed took a live holder, wrote every bound slot into it, and left
/// the unbound slot's descriptor naming the released resource.
#[test]
fn a_disturbance_does_not_swallow_an_unbind_that_has_not_been_emitted() {
    let mut t = table();
    t.bind_texture(5, texture(9));
    t.bind_texture(6, texture(10));
    emit(&mut t);
    assert!(t.is_clean());

    assert!(t.bind_texture(5, None), "an unbind is a change");
    t.disturb_all();

    let dirty = t.take_dirty();
    assert!(dirty.textures.contains(5), "the unbind still owes a write");
    assert!(
        dirty.textures.contains(6),
        "and so does the slot still bound"
    );
}

/// The union must not invent slots either: a disturbance still owes
/// nothing for a slot that was never bound.
#[test]
fn a_disturbance_still_marks_only_what_is_bound_or_already_dirty() {
    let mut t = BindingTable::new(4, 4, 4);
    t.bind_texture(2, texture(1));
    emit(&mut t);
    t.disturb_all();

    let dirty = t.take_dirty();
    assert_eq!(dirty.textures.slots(), vec![2]);
    assert!(dirty.buffers.is_empty());
    assert!(dirty.samplers.is_empty());
}

/// The argument-table sizes are the guest's own capacity hints. A record
/// past them names a slot no shader on this pipeline can read.
#[test]
fn a_slot_past_the_table_is_not_a_change() {
    let mut t = BindingTable::new(4, 4, 4);
    assert!(!t.bind_buffer(4, buffer(1, 0)));
    assert!(t.is_clean());
    assert_eq!(t.buffer(4), None);
}

/// Dropped and counted. A bind the table refuses is neither a change nor a
/// redundancy, so a census that did not name it would report three
/// counters that no longer add up to the binds the guest issued.
#[test]
fn a_dropped_bind_is_counted_apart_from_a_redundant_one() {
    let mut t = BindingTable::new(4, 4, 4);
    t.bind_buffer(0, buffer(1, 0));
    t.bind_buffer(0, buffer(1, 0));
    t.bind_buffer(9, buffer(1, 0));
    t.bind_texture(9, texture(1));
    t.bind_sampler(9, texture(1));

    let census = t.census();
    assert_eq!(census.changed, 1);
    assert_eq!(census.redundant, 1);
    assert_eq!(census.ignored, 3, "one per table, and none of them silent");
    assert_eq!(
        census.changed + census.redundant + census.ignored,
        5,
        "every bind is accounted to exactly one of the three"
    );
}

#[test]
fn the_mask_reports_exactly_the_slots_it_holds() {
    let mut m = SlotMask::with_capacity(8);
    assert!(m.is_empty());
    m.insert(0);
    m.insert(63);
    m.insert(64);
    m.insert(200);
    assert_eq!(m.slots(), vec![0, 63, 64, 200]);
    assert_eq!(m.len(), 4);
    assert!(m.contains(64));
    assert!(!m.contains(65));
    m.clear();
    assert!(m.is_empty());
    assert_eq!(m.slots(), Vec::<usize>::new());
}

#[test]
fn a_mask_has_room_in_whole_words() {
    assert_eq!(SlotMask::with_capacity(0), SlotMask::default());
    assert_eq!(SlotMask::with_capacity(1), SlotMask::with_capacity(64));
    assert_ne!(SlotMask::with_capacity(64), SlotMask::with_capacity(65));
    // A slot within the room does not grow it, and clearing gives none back.
    let mut m = SlotMask::with_capacity(1);
    m.insert(63);
    m.clear();
    assert_eq!(m, SlotMask::with_capacity(64));
    m.insert(64);
    m.clear();
    assert_eq!(m, SlotMask::with_capacity(128));
}

#[test]
fn a_taken_mask_is_as_wide_as_its_table() {
    let mut table = BindingTable::new(70, 0, 1);
    table.disturb_all();
    let taken = table.take_dirty();
    assert_eq!(taken.buffers, SlotMask::with_capacity(70));
    assert_eq!(taken.buffers, SlotMask::with_capacity(128));
    assert_eq!(taken.textures, SlotMask::default());
    assert_eq!(taken.samplers, SlotMask::with_capacity(64));
}
