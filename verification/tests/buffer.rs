//! A guest buffer can be bound as anything.

use reims_vgpu_vulkan::buffer::{plan, BufferLimits, Refusal, EVERY_CLASS};
use reims_vgpu_vulkan::memory::MemoryClass;
use reims_vgpu_vulkan::placement::Route;
use reims_vgpu_vulkan::vulkan as vk;
use std::collections::BTreeSet;


fn staged() -> Route {
    Route::HostStaging {
        working: MemoryClass::DeviceLocal,
    }
}

fn unbounded() -> BufferLimits {
    BufferLimits {
        max_buffer_size: None,
    }
}

#[test]
fn every_buffer_can_be_bound_as_every_class() {
    let plan = plan(1024, staged(), unbounded()).expect("plannable");
    for class in [
        vk::buffer_usage::TRANSFER_SRC,
        vk::buffer_usage::TRANSFER_DST,
        vk::buffer_usage::UNIFORM_TEXEL_BUFFER,
        vk::buffer_usage::STORAGE_TEXEL_BUFFER,
        vk::buffer_usage::UNIFORM_BUFFER,
        vk::buffer_usage::STORAGE_BUFFER,
        vk::buffer_usage::INDEX_BUFFER,
        vk::buffer_usage::VERTEX_BUFFER,
        vk::buffer_usage::INDIRECT_BUFFER,
    ] {
        assert!(plan.usage & class == class, "{class:?}");
    }
}

#[test]
fn the_usage_does_not_depend_on_anything_about_the_allocation() {
    let first = plan(1, Route::DirectAlias, unbounded()).expect("plannable");
    let second = plan(
        1 << 30,
        Route::ImportedTransfer {
            working: MemoryClass::DeviceLocal,
        },
        unbounded(),
    )
    .expect("plannable");
    assert_eq!(first.usage, second.usage);
    assert_eq!(first.usage, EVERY_CLASS);
}

#[test]
fn the_route_is_the_only_thing_that_says_whether_the_pages_are_the_guests() {
    assert!(
        plan(16, Route::DirectAlias, unbounded())
            .expect("plannable")
            .aliased
    );
    for route in [
        staged(),
        Route::ImportedTransfer {
            working: MemoryClass::Upload,
        },
    ] {
        assert!(
            !plan(16, route, unbounded()).expect("plannable").aliased,
            "{}",
            route.name()
        );
    }
}

#[test]
fn a_zero_length_buffer_is_refused_here_rather_than_by_the_driver() {
    assert_eq!(plan(0, staged(), unbounded()), Err(Refusal::ZeroLength));
}

#[test]
fn a_device_that_reported_no_maximum_refuses_nothing_for_length() {
    assert!(plan(u64::MAX, staged(), unbounded()).is_ok());
}

#[test]
fn a_length_past_a_reported_maximum_refuses_with_both_numbers() {
    let limits = BufferLimits {
        max_buffer_size: Some(1 << 20),
    };
    assert_eq!(
        plan((1 << 20) + 1, staged(), limits),
        Err(Refusal::LengthBeyondDevice {
            declared: (1 << 20) + 1,
            max: 1 << 20,
        })
    );
    assert!(plan(1 << 20, staged(), limits).is_ok());
}

#[test]
fn a_create_info_carries_the_plan() {
    let plan = plan(4096, staged(), unbounded()).expect("plannable");
    let info = plan.create_info();
    assert_eq!(info.size, 4096);
    assert_eq!(info.usage, EVERY_CLASS);
    assert_eq!(info.sharing_mode, vk::SharingMode::Exclusive);
}

#[test]
fn buffer_every_refusal_names_itself() {
    let refusals = [
        Refusal::ZeroLength,
        Refusal::LengthBeyondDevice {
            declared: 2,
            max: 1,
        },
    ];
    let slugs: BTreeSet<&str> = refusals.iter().map(|r| r.slug()).collect();
    assert_eq!(slugs.len(), refusals.len());
    for refusal in refusals {
        assert!(refusal.message().starts_with(refusal.slug()));
        assert!(refusal.slug().starts_with("vk_buffer_"));
    }
}
