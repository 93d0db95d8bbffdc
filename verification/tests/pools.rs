//! Command-buffer slots come back when the timeline says so.

use ash::vk;
use reims_vgpu_vulkan::guest::{TimelinePoint, WorkerId};
use reims_vgpu_vulkan::pools::{BufferRing, Exhausted, SlotState, WorkerPool, WorkerPools};

fn at(n: u64) -> TimelinePoint {
    TimelinePoint(n)
}

/// The invariant the whole module exists for: a submitted slot is not
/// recordable until the timeline passes it.
#[test]
fn a_submitted_slot_is_not_free_until_the_timeline_passes_it() {
    let mut r = BufferRing::new(2);
    let first = r.begin().expect("all free");
    assert_eq!(r.state(first.slot()), Some(SlotState::Recording));
    r.submitted(first, at(7));
    assert_eq!(r.state(0), Some(SlotState::Submitted(at(7))));
    assert_eq!(r.in_flight(), 1);

    assert_eq!(r.recycle(at(6)), 0, "the host has not got there");
    assert_eq!(r.recycle(at(7)), 1, "and now it has");
    assert_eq!(r.state(0), Some(SlotState::Free));
    assert_eq!(r.census(), (1, 0));
}

/// Exhaustion refuses. It does not block, and it does not recycle the
/// oldest slot — which would be the use-after-submit with extra steps.
#[test]
fn a_full_ring_refuses_rather_than_recycling_the_oldest() {
    let mut r = BufferRing::new(2);
    let a = r.begin().expect("free");
    let b = r.begin().expect("free");
    r.submitted(a, at(1));
    r.submitted(b, at(2));
    assert_eq!(
        r.begin(),
        Err(Exhausted {
            depth: 2,
            in_flight: 2
        })
    );
    assert_eq!(
        r.state(0),
        Some(SlotState::Submitted(at(1))),
        "the oldest slot was not taken back"
    );
    assert_eq!(r.census(), (0, 1), "and the refusal is counted");
    assert_eq!(r.recycle(at(1)), 1);
    assert!(r.begin().is_ok());
}

/// A lease is exclusive, so a slot cannot be handed out twice.
#[test]
fn an_outstanding_lease_holds_its_slot() {
    let mut r = BufferRing::new(1);
    let held = r.begin().expect("free");
    assert_eq!(
        r.begin(),
        Err(Exhausted {
            depth: 1,
            in_flight: 0
        }),
        "in_flight is zero: the slot is held by a lease, not by the GPU"
    );
    assert_eq!(r.recording(), 1);
    assert_eq!(
        r.recycle(at(u64::MAX)),
        0,
        "and no timeline reading frees a slot nothing submitted"
    );
    r.abandon(held);
    assert_eq!(r.free(), 1);
}

/// A recording that was given up never reached the GPU, so there is
/// nothing to wait for.
#[test]
fn an_abandoned_recording_frees_its_slot_at_once() {
    let mut r = BufferRing::new(1);
    let lease = r.begin().expect("free");
    r.abandon(lease);
    assert!(r.resettable());
    assert!(r.begin().is_ok());
}

/// A pool reset frees every buffer at once, so it is legal only when the
/// GPU is finished with all of them.
#[test]
fn a_pool_is_resettable_only_when_nothing_is_recording_or_in_flight() {
    let mut r = BufferRing::new(2);
    assert!(r.resettable());
    let lease = r.begin().expect("free");
    assert!(!r.resettable(), "a recording is not finished with");
    r.submitted(lease, at(3));
    assert!(!r.resettable(), "and neither is a submission");
    r.recycle(at(3));
    assert!(r.resettable());
}

#[test]
fn slots_are_reused_lowest_first_so_a_ring_of_one_works() {
    let mut r = BufferRing::new(3);
    for expected in 0..3 {
        let lease = r.begin().expect("free");
        assert_eq!(lease.slot(), expected);
        r.submitted(lease, at(expected as u64 + 1));
    }
    r.recycle(at(2));
    let reused = r.begin().expect("two came back");
    assert_eq!(reused.slot(), 0);
}


/// Two workers cannot hold one pool, because `for_worker` hands out `&mut`
/// and a `VkCommandPool` is externally synchronized.
#[test]
fn each_worker_has_its_own_pool_and_its_own_ring() {
    let mut pools = WorkerPools::new();
    let a = pools.push(WorkerPool::adopt(
        vk::CommandPool::null(),
        0,
        vec![vk::CommandBuffer::null(); 2],
    ));
    let b = pools.push(WorkerPool::adopt(
        vk::CommandPool::null(),
        0,
        vec![vk::CommandBuffer::null(); 1],
    ));
    assert_eq!((a, b), (WorkerId(0), WorkerId(1)));
    assert_eq!(pools.population(), 2);

    let lease = pools
        .for_worker(b)
        .expect("worker b")
        .ring_mut()
        .begin()
        .expect("free");
    pools
        .for_worker(b)
        .expect("worker b")
        .ring_mut()
        .submitted(lease, at(5));
    assert!(pools
        .for_worker(b)
        .expect("worker b")
        .ring_mut()
        .begin()
        .is_err());
    assert_eq!(pools.of_worker(a).expect("worker a").ring().free(), 2);

    assert_eq!(pools.recycle(at(5)), 1);
    assert_eq!(pools.of_worker(b).expect("worker b").ring().free(), 1);
    assert!(pools.for_worker(WorkerId(9)).is_none());
}

/// A submission to a family other than the pool's is invalid usage, so the
/// pool carries the family rather than the caller remembering it.
#[test]
fn a_pool_names_the_family_its_buffers_may_be_submitted_to() {
    let pool = WorkerPool::adopt(vk::CommandPool::null(), 3, vec![vk::CommandBuffer::null()]);
    assert_eq!(pool.family(), 3);
    assert_eq!(pool.buffers().len(), 1);
    assert_eq!(pool.ring().depth(), 1);
}
