//! Frame slots keep a suspect semaphore out of use.

use reims_vgpu_vulkan::frames::{Abandon, FrameRing, Health, SlotState, Usability};
use reims_vgpu_vulkan::guest::TimelinePoint;

fn at(n: u64) -> TimelinePoint {
    TimelinePoint(n)
}

#[test]
fn a_frame_goes_round_and_the_timeline_frees_it() {
    let mut ring = FrameRing::new(3);
    let slot = ring.next_slot().expect("a free slot");
    let reservation = ring.acquired(slot, 2);
    assert_eq!(reservation.image(), 2);
    assert_eq!(ring.state(slot), Some(SlotState::Reserved { image: 2 }));
    assert_eq!(ring.reserved(), 1);

    ring.presented(reservation, at(7));
    assert_eq!(
        ring.state(slot),
        Some(SlotState::Submitted {
            image: 2,
            at: at(7)
        })
    );
    assert_eq!(ring.in_flight(), 1);
    assert!(!ring.retirable());

    assert_eq!(ring.recycle(at(6)), 0);
    assert_eq!(ring.recycle(at(7)), 1);
    assert_eq!(ring.state(slot), Some(SlotState::Free));
    assert!(ring.retirable());
    assert_eq!(ring.census().presented, 1);
}

/// The claim the module exists for, one cause at a time.
#[test]
fn each_failure_suspects_exactly_the_semaphore_it_could_have_stranded() {
    for (cause, acquire, render) in [
        (
            Abandon::SubmitRefused,
            Usability::MustRecreate,
            Usability::Usable,
        ),
        (
            Abandon::PresentRefused,
            Usability::Usable,
            Usability::MustRecreate,
        ),
        (
            Abandon::SwapchainReplaced,
            Usability::MustRecreate,
            Usability::MustRecreate,
        ),
    ] {
        let mut ring = FrameRing::new(2);
        let slot = ring.next_slot().expect("free");
        let reservation = ring.acquired(slot, 0);
        let health = ring.abandoned(reservation, cause);
        assert_eq!(health.acquire, acquire, "{}", cause.slug());
        assert_eq!(health.render, render, "{}", cause.slug());
        assert_eq!(ring.state(slot), Some(SlotState::Free));
        assert_eq!(ring.awaiting_semaphores(), 1);
        assert_eq!(ring.quarantined(), vec![slot]);
    }
}

/// A refused acquire signalled nothing, which is the one failure that costs
/// no semaphore.
#[test]
fn a_refused_acquire_leaves_both_semaphores_usable() {
    let mut ring = FrameRing::new(2);
    let slot = ring.next_slot().expect("free");
    ring.acquire_refused(slot);
    assert_eq!(ring.health(slot), Some(Health::default()));
    assert!(ring.quarantined().is_empty());
    assert_eq!(ring.next_slot(), Ok(slot));
}

/// A free slot with a suspect semaphore is not a slot, and the refusal says
/// which of the two situations it is.
#[test]
fn a_suspect_slot_is_refused_and_the_refusal_says_what_to_do_about_it() {
    let mut ring = FrameRing::new(1);
    let slot = ring.next_slot().expect("free");
    let reservation = ring.acquired(slot, 0);
    ring.abandoned(reservation, Abandon::SubmitRefused);

    let refused = ring.next_slot().expect_err("nothing acquirable");
    assert_eq!(refused.depth, 1);
    assert_eq!(refused.in_flight, 0, "nothing was ever submitted");
    assert_eq!(
        refused.awaiting_semaphores, 1,
        "the caller's next move is recreation, not a wait"
    );
    assert!(refused.message().contains("awaiting_semaphores=1"));

    ring.recreated(slot);
    assert_eq!(ring.next_slot(), Ok(slot));
    assert_eq!(ring.census().recreated, 1);
    assert!(ring.quarantined().is_empty());
}

/// A slot cannot collect two causes: it stops being acquirable the moment
/// the first one lands. That is what makes `abandoned` an assignment rather
/// than an accumulation — and the two failures below therefore land on two
/// different slots and owe two different semaphores.
#[test]
fn a_suspect_slot_cannot_take_a_second_cause_on_top_of_the_first() {
    let mut ring = FrameRing::new(2);
    let first_slot = ring.next_slot().expect("free");
    let first = ring.acquired(first_slot, 0);
    ring.abandoned(first, Abandon::SubmitRefused);
    assert_eq!(
        ring.health(first_slot).unwrap().acquire,
        Usability::MustRecreate
    );

    let second_slot = ring.next_slot().expect("the other slot");
    assert_ne!(
        second_slot, first_slot,
        "a suspect slot is not handed out again"
    );
    let second = ring.acquired(second_slot, 1);
    ring.abandoned(second, Abandon::PresentRefused);

    assert_eq!(ring.health(first_slot).unwrap().render, Usability::Usable);
    assert_eq!(ring.health(second_slot).unwrap().acquire, Usability::Usable);
    assert_eq!(ring.quarantined(), vec![0, 1]);
    assert_eq!(ring.next_slot().unwrap_err().awaiting_semaphores, 2);

    ring.recreated(first_slot);
    assert_eq!(ring.next_slot(), Ok(first_slot));
    assert_eq!(ring.quarantined(), vec![second_slot]);
}

#[test]
fn a_recreated_healthy_slot_is_not_counted_as_a_recreation() {
    let mut ring = FrameRing::new(1);
    ring.recreated(0);
    assert_eq!(
        ring.census().recreated,
        0,
        "nothing was owed, so nothing was replaced"
    );
}

#[test]
fn a_full_ring_refuses_rather_than_waiting() {
    let mut ring = FrameRing::new(2);
    for (image, point) in [(0u32, 1u64), (1, 2)] {
        let slot = ring.next_slot().expect("free");
        let reservation = ring.acquired(slot, image);
        ring.presented(reservation, at(point));
    }
    let refused = ring.next_slot().expect_err("every image is in flight");
    assert_eq!(refused.in_flight, 2);
    assert_eq!(refused.awaiting_semaphores, 0);
    assert_eq!(ring.census().refused, 1);
    assert_eq!(ring.in_flight(), 2);

    assert_eq!(ring.recycle(at(1)), 1);
    assert!(ring.next_slot().is_ok());
}

/// A reservation that is neither presented nor abandoned strands its slot,
/// which is why it is `#[must_use]` and consumed by both exits.
#[test]
fn a_reservation_has_exactly_two_exits() {
    let mut ring = FrameRing::new(1);
    let slot = ring.next_slot().expect("free");
    let reservation = ring.acquired(slot, 0);
    assert!(ring.next_slot().is_err());
    assert!(!ring.retirable(), "a reserved image is still ours");
    ring.presented(reservation, at(1));
    assert_eq!(ring.in_flight(), 1);
}




#[test]
fn quarantine_does_not_block_swapchain_teardown() {
    let mut ring = FrameRing::new(2);
    let slot = ring.next_slot().expect("free");
    let reservation = ring.acquired(slot, 0);
    ring.abandoned(reservation, Abandon::SwapchainReplaced);
    assert_eq!(ring.quarantined(), vec![slot]);
    assert!(
        ring.retirable(),
        "destroying the swapchain is what makes them destroyable"
    );
}

#[test]
fn every_cause_names_itself_and_its_effect() {
    for cause in [
        Abandon::SubmitRefused,
        Abandon::PresentRefused,
        Abandon::SwapchainReplaced,
    ] {
        assert!(cause.slug().starts_with("vk_frame_"));
        assert!(
            !cause.leaves().ready(),
            "a cause that costs nothing is not one"
        );
    }
}
