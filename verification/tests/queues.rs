//! A queue has one owner, and the family is chosen by its flags.

use reims_vgpu_vulkan::queues::{
    families, fixtures, Decline, Family, QueueFamilyProperties, QueuePlan,
};
use reims_vgpu_vulkan::vulkan as vk;

fn one(flags: vk::QueueFlags) -> Family {
    Family {
        index: 0,
        flags,
        count: 1,
    }
}

/// The invariant the type exists for: the second claim on one queue gets
/// nothing, so there is no way to construct two submission orders on it.
#[test]
fn a_queue_has_one_owner_and_the_second_claim_gets_none() {
    let mut plan = QueuePlan::choose_from(&fixtures::discrete()).expect("draws");
    let first = plan.claim(0).expect("the family has sixteen queues");
    assert_eq!(first.family(), 0);
    assert_eq!(first.index(), 0);
    assert_eq!(plan.claim(0), None, "already owned");
    assert!(
        plan.claim(1).is_some(),
        "a different queue is a different one"
    );
    assert_eq!(plan.claimed(), 2);
    plan.release(first);
    assert_eq!(plan.claimed(), 1);
    assert!(plan.claim(0).is_some());
}

#[test]
fn a_queue_past_the_familys_count_cannot_be_claimed() {
    let mut plan = QueuePlan::choose_from(&fixtures::integrated()).expect("draws");
    assert!(plan.claim(0).is_some(), "the one queue it has");
    assert_eq!(plan.claim(1), None, "and there is no second");
    assert_eq!(plan.claimed(), 1, "a refused claim owns nothing");
}

/// A draw and a dispatch that depend on each other should be one
/// submission order, so a family that does both wins even when a
/// compute-only family exists.
#[test]
fn the_chosen_family_draws_and_dispatches() {
    let plan = QueuePlan::choose_from(&fixtures::discrete()).expect("draws");
    assert_eq!(plan.universal().index, 0);
    assert!(plan.compute());
}

/// A host whose drawing family cannot dispatch is a real arrangement. The
/// plan says so rather than routing the dispatch into a second submission
/// order where its dependency on a draw stops being a pipeline barrier.
#[test]
fn a_graphics_only_host_is_chosen_and_reports_no_compute() {
    let plan = QueuePlan::choose_from(&fixtures::graphics_without_compute()).expect("draws");
    assert_eq!(plan.universal().index, 0);
    assert!(!plan.compute());
}

#[test]
fn a_device_that_cannot_draw_is_declined_by_name() {
    let compute_only = vec![Family {
        index: 0,
        flags: vk::queue::COMPUTE | vk::queue::TRANSFER,
        count: 4,
    }];
    assert_eq!(
        QueuePlan::choose_from(&compute_only),
        Err(Decline::NoGraphicsFamily { families: 1 })
    );
    assert_eq!(
        QueuePlan::choose_from(&[]),
        Err(Decline::NoGraphicsFamily { families: 0 })
    );
}

/// The copy engine is found and reported, and nothing is routed to it. The
/// measurement behind that is in the module docs; what is testable here is
/// that the fact is not silently dropped.
#[test]
fn a_transfer_only_family_is_recorded_and_not_submitted_to() {
    let plan = QueuePlan::choose_from(&fixtures::discrete()).expect("draws");
    assert_eq!(plan.dedicated_transfer().map(|f| f.index), Some(1));
    assert_ne!(
        plan.universal().index,
        1,
        "recorded is not the same as chosen"
    );
    assert!(plan.census().contains("transfer_only_family=1"));

    let integrated = QueuePlan::choose_from(&fixtures::integrated()).expect("draws");
    assert_eq!(integrated.dedicated_transfer(), None);
    assert!(integrated.census().contains("transfer_only_family=none"));
}

/// `GRAPHICS` and `COMPUTE` both imply transfer, so a family carrying
/// either is one this rail already submits to. Video and sparse do not
/// disqualify.
#[test]
fn dedicated_means_no_graphics_and_no_compute_and_nothing_else() {
    let f = |flags| Family {
        index: 9,
        flags,
        count: 1,
    };
    assert!(f(vk::queue::TRANSFER).transfer_only());
    assert!(f(vk::queue::TRANSFER | vk::queue::SPARSE_BINDING).transfer_only());
    assert!(
        f(vk::queue::TRANSFER | vk::queue::VIDEO_DECODE).transfer_only(),
        "what else the block can do is not whether it shares the graphics engine"
    );
    assert!(!f(vk::queue::GRAPHICS | vk::queue::TRANSFER).transfer_only());
    assert!(!f(vk::queue::COMPUTE | vk::queue::TRANSFER).transfer_only());
    assert!(
        !f(vk::queue::SPARSE_BINDING).transfer_only(),
        "a family that does not transfer is not a copy engine"
    );
    let video = QueuePlan::choose_from(&fixtures::universal_and_video()).expect("draws");
    assert_eq!(
        video.dedicated_transfer(),
        None,
        "a video family carries no TRANSFER bit here"
    );
}

/// The single-owner rule is keyed on the pair, so a queue outside the
/// chosen family is subject to it too.
#[test]
fn ownership_is_exclusive_across_families() {
    let mut plan = QueuePlan::choose_from(&fixtures::discrete()).expect("draws");
    let owner = plan.claim_in(2, 0).expect("a compute family queue");
    assert_eq!(owner.family(), 2);
    assert_eq!(plan.claim_in(2, 0), None);
    assert!(
        plan.claim(0).is_some(),
        "and the chosen family's queue 0 is a different pair"
    );
}

#[test]
fn families_are_read_off_the_reported_properties_in_order() {
    let props = [
        QueueFamilyProperties {
            queue_flags: vk::queue::GRAPHICS,
            queue_count: 2,
        },
        QueueFamilyProperties {
            queue_flags: vk::queue::TRANSFER,
            queue_count: 1,
        },
    ];
    let read = families(&props);
    assert_eq!(
        read,
        vec![
            Family {
                index: 0,
                flags: vk::queue::GRAPHICS,
                count: 2
            },
            Family {
                index: 1,
                flags: vk::queue::TRANSFER,
                count: 1
            },
        ]
    );
}
/// A family that also draws or dispatches is one this rail already submits
/// to, so picking it would move nothing off the graphics engine while
/// adding an ownership transfer to every copy. Both bits disqualify, and
/// `TRANSFER` is often not even spelled on a graphics family — the spec
/// makes it implicit — so the sweep covers families that name it and
/// families that do not.
#[test]
fn a_family_that_also_draws_or_dispatches_is_not_a_copy_engine() {
    for flags in [
        vk::queue::GRAPHICS,
        vk::queue::COMPUTE,
        vk::queue::GRAPHICS | vk::queue::COMPUTE,
        vk::queue::GRAPHICS | vk::queue::TRANSFER,
        vk::queue::COMPUTE | vk::queue::TRANSFER,
        vk::queue::GRAPHICS | vk::queue::COMPUTE | vk::queue::TRANSFER | vk::queue::SPARSE_BINDING,
    ] {
        assert_eq!(
            QueuePlan::choose_from(&[one(flags)])
                .ok()
                .and_then(|p| p.dedicated_transfer()),
            None,
            "{flags:?} shares the engine this rail already submits to"
        );
    }
}

/// The bits that say what *else* a copy engine can do must not disqualify
/// it. A discrete part commonly exposes several transfer-only families that
/// differ exactly in these, and refusing them would leave a host with a copy
/// engine reading as a host without one.
#[test]
fn the_other_bits_on_a_transfer_only_family_do_not_disqualify_it() {
    for extra in [
        0,
        vk::queue::SPARSE_BINDING,
        vk::queue::VIDEO_DECODE,
        ash::vk::QueueFlags::VIDEO_ENCODE_KHR.as_raw(),
        ash::vk::QueueFlags::OPTICAL_FLOW_NV.as_raw(),
    ] {
        let plan = QueuePlan::choose_from(&[
            one(vk::queue::GRAPHICS | vk::queue::COMPUTE | vk::queue::TRANSFER),
            Family {
                index: 1,
                flags: vk::queue::TRANSFER | extra,
                count: 1,
            },
        ])
        .expect("draws");
        assert_eq!(
            plan.dedicated_transfer().map(|f| f.index),
            Some(1),
            "TRANSFER | {extra:?} is still a copy engine"
        );
    }
}

/// A family with no transfer bit at all is not one, and a host that offers
/// none answers `None` rather than falling to index zero — which would
/// submit copies to the graphics family under a name that says otherwise.
#[test]
fn a_host_with_no_copy_engine_answers_none_rather_than_the_first_family() {
    let plan = QueuePlan::choose_from(&[one(vk::queue::GRAPHICS | vk::queue::COMPUTE | vk::queue::TRANSFER)])
        .expect("the single-family host every integrated part presents");
    assert_eq!(plan.dedicated_transfer(), None);
    assert_eq!(
        QueuePlan::choose_from(&[one(vk::queue::GRAPHICS | vk::queue::SPARSE_BINDING)])
            .expect("draws")
            .dedicated_transfer(),
        None,
        "a family with no transfer bit is not a copy engine"
    );
}
