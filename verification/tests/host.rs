//! Devices are admitted by capability and ordered by class.

use ash::vk;
use reims_vgpu_vulkan::census::{extension, ApiVersion, Census, Floor, Reported};
use reims_vgpu_vulkan::host::{
    effective_api, enumerated_names, format_word, judge, questions, report, requested_api, select,
    survey, Answers, Candidate, DeviceClass, DivisorProperties, OpenFailure,
};
use reims_vgpu_vulkan::memory::MemoryTopology;
use reims_vgpu_vulkan::queues::Family;
use reims_vgpu_vulkan::vulkan;

/// An extension name as a driver writes it: terminated, in a fixed array.
fn written(name: &str) -> Vec<u8> {
    let mut bytes = vec![0u8; 256];
    bytes[..name.len()].copy_from_slice(name.as_bytes());
    bytes
}

fn families() -> Vec<Family> {
    vec![Family {
        index: 0,
        flags: vulkan::queue::GRAPHICS | vulkan::queue::COMPUTE,
        count: 1,
    }]
}

/// A device that is exactly at the floor.
fn baseline(api_version: u32) -> Reported {
    Reported {
        api_version,
        swapchain: true,
        timeline_semaphore: true,
        synchronization2: false,
        dynamic_rendering: false,
        depth_clamp: false,
        fill_mode_non_solid: false,
        wide_lines: false,
        min_line_width: 1.0f32.to_bits(),
        max_line_width: 1.0f32.to_bits(),
        multi_viewport: false,
        max_viewports: 1,
        sampler_anisotropy: false,
        max_sampler_anisotropy: 1.0f32.to_bits(),
        extended_dynamic_state: false,
        dynamic_primitive_topology_unrestricted: None,
        extended_dynamic_state3_polygon_mode: false,
        extended_dynamic_state3_depth_clamp_enable: false,
        vertex_attribute_instance_rate_divisor: false,
        vertex_attribute_instance_rate_zero_divisor: false,
        max_vertex_attrib_divisor: 0,
        vertex_formats: 0,
        dual_src_blend: false,
        independent_blend: false,
        sampler_mirror_clamp_to_edge: false,
        mesh_shader: false,
        descriptor_buffer: false,
        push_descriptor: false,
        max_push_descriptors: 0,
        max_buffer_size: None,
        host_pointer_importable: false,
        min_imported_host_pointer_alignment: 0,
        topology: MemoryTopology::Discrete,
    }
}

/// A device that says yes to everything, asked or not.
fn eager() -> Answers {
    Answers {
        timeline_semaphore: 1,
        sampler_mirror_clamp_to_edge: 1,
        depth_clamp: 1,
        fill_mode_non_solid: 1,
        wide_lines: 1,
        min_line_width: 0.5f32.to_bits(),
        max_line_width: 8.0f32.to_bits(),
        multi_viewport: 1,
        max_viewports: 16,
        sampler_anisotropy: 1,
        max_sampler_anisotropy: 16.0f32.to_bits(),
        dual_src_blend: 1,
        independent_blend: 1,
        mesh_shader: 1,
        descriptor_buffer: 1,
        synchronization2: 1,
        dynamic_rendering: 1,
        extended_dynamic_state: 1,
        extended_dynamic_state3_polygon_mode: 1,
        extended_dynamic_state3_depth_clamp_enable: 1,
        dynamic_primitive_topology_unrestricted: 1,
        vertex_attribute_instance_rate_divisor: 1,
        vertex_attribute_instance_rate_zero_divisor: 1,
        max_vertex_attrib_divisor: 7,
        max_push_descriptors: 32,
        max_buffer_size: 1 << 30,
        host_allocation_importable: true,
        min_imported_host_pointer_alignment: 4096,
        vertex_formats: 5,
        topology: MemoryTopology::Unified,
    }
}

fn v(major: u32, minor: u32) -> u32 {
    vk::make_api_version(0, major, minor, 0)
}

/// A driver that could not answer said nothing, and nothing is not "no
/// extensions".
#[test]
fn an_unreadable_extension_list_is_its_own_floor() {
    let out_of_memory = vk::Result::ERROR_OUT_OF_HOST_MEMORY.as_raw();
    assert_eq!(
        enumerated_names(Err(out_of_memory)),
        Err(Floor::Unenumerable {
            result: out_of_memory
        }),
        "the query failing is the fact, not the empty list it would have produced"
    );
    assert_ne!(
        Floor::Unenumerable {
            result: out_of_memory
        }
        .slug(),
        Floor::NoSwapchain.slug(),
        "an operator must not read a presentable device as one that cannot present"
    );
}

/// A device that genuinely enumerated nothing is judged, not refused here.
#[test]
fn an_empty_extension_list_is_an_answer() {
    assert_eq!(enumerated_names(Ok(Vec::new())), Ok(Vec::new()));
}

#[test]
fn enumerated_names_decodes_what_the_driver_wrote() {
    assert_eq!(
        enumerated_names(Ok(vec![
            written(extension::SWAPCHAIN),
            written(extension::MESH_SHADER),
        ])),
        Ok(vec![
            extension::SWAPCHAIN.to_owned(),
            extension::MESH_SHADER.to_owned(),
        ])
    );
}

/// A name that is not text is left out, and the others keep their order.
#[test]
fn a_name_that_is_not_text_is_left_out() {
    assert_eq!(
        enumerated_names(Ok(vec![
            vec![0xff, 0xfe, 0],
            written("VK_one"),
            vec![b'V', b'K', 0, b'x', b'y'],
            vec![0xc3, 0xa9, 0],
        ])),
        Ok(vec![
            "VK_one".to_owned(),
            "VK".to_owned(),
            "\u{e9}".to_owned()
        ])
    );
}

/// The names asked about are the ones Vulkan registered.
#[test]
fn extension_names_are_vulkans() {
    let pairs = [
        (extension::SWAPCHAIN, ash::khr::swapchain::NAME),
        (extension::MESH_SHADER, ash::ext::mesh_shader::NAME),
        (extension::DESCRIPTOR_BUFFER, ash::ext::descriptor_buffer::NAME),
        (extension::SYNCHRONIZATION_2, ash::khr::synchronization2::NAME),
        (extension::DYNAMIC_RENDERING, ash::khr::dynamic_rendering::NAME),
        (
            extension::EXTENDED_DYNAMIC_STATE,
            ash::ext::extended_dynamic_state::NAME,
        ),
        (
            extension::EXTENDED_DYNAMIC_STATE_3,
            ash::ext::extended_dynamic_state3::NAME,
        ),
        (
            extension::VERTEX_ATTRIBUTE_DIVISOR,
            ash::khr::vertex_attribute_divisor::NAME,
        ),
        (
            extension::VERTEX_ATTRIBUTE_DIVISOR_EXT,
            ash::ext::vertex_attribute_divisor::NAME,
        ),
        (extension::PUSH_DESCRIPTOR, ash::khr::push_descriptor::NAME),
        (extension::MAINTENANCE_4, ash::khr::maintenance4::NAME),
        (
            extension::EXTERNAL_MEMORY_HOST,
            ash::ext::external_memory_host::NAME,
        ),
    ];
    for (ours, vulkans) in pairs {
        assert_eq!(Ok(ours), vulkans.to_str());
    }
}

fn admitted(index: usize, class: DeviceClass) -> Candidate {
    let verdict = Census::take(baseline(v(1, 2)), &families());
    assert!(verdict.is_ok());
    Candidate {
        index,
        class,
        verdict,
    }
}

fn refused(index: usize, class: DeviceClass, floor: Floor) -> Candidate {
    Candidate {
        index,
        class,
        verdict: Err(floor),
    }
}

#[test]
fn a_software_rasterizer_that_enumerated_first_does_not_win() {
    let chosen = select(&[
        admitted(0, DeviceClass::Cpu),
        admitted(1, DeviceClass::Discrete),
    ])
    .expect("both are usable");
    assert_eq!(chosen.index, 1);
    assert_eq!(chosen.class, DeviceClass::Discrete);
}

#[test]
fn a_hybrid_host_prefers_the_discrete_part_wherever_it_enumerated() {
    for (discrete, integrated) in [(0usize, 1usize), (1, 0)] {
        let mut candidates = vec![
            admitted(discrete, DeviceClass::Discrete),
            admitted(integrated, DeviceClass::Integrated),
        ];
        candidates.sort_by_key(|c| c.index);
        let chosen = select(&candidates).expect("both are usable");
        assert_eq!(chosen.index, discrete);
    }
}

#[test]
fn a_rank_tie_keeps_the_first_enumerated_device() {
    let chosen = select(&[
        admitted(0, DeviceClass::Discrete),
        admitted(1, DeviceClass::Discrete),
        admitted(2, DeviceClass::Discrete),
    ])
    .expect("all usable");
    assert_eq!(chosen.index, 0, "selection has to be reproducible");
}

/// A better class that failed the floor loses to a worse class that cleared it.
#[test]
fn a_class_can_never_admit_a_device_the_floor_refused() {
    let chosen = select(&[
        refused(
            0,
            DeviceClass::Discrete,
            Floor::NoTimelineSemaphores {
                reported: ApiVersion { major: 1, minor: 3 },
            },
        ),
        admitted(1, DeviceClass::Cpu),
    ])
    .expect("the CPU device cleared the floor");
    assert_eq!(chosen.class, DeviceClass::Cpu);
}

#[test]
fn a_host_where_nothing_clears_the_floor_names_every_reason() {
    let failure = select(&[
        refused(
            0,
            DeviceClass::Discrete,
            Floor::ApiTooOld {
                reported: ApiVersion { major: 1, minor: 1 },
            },
        ),
        refused(1, DeviceClass::Integrated, Floor::NoSwapchain),
    ])
    .expect_err("nothing usable");
    assert_eq!(failure.enumerated, 2);
    assert_eq!(failure.floors.len(), 2);
    let line = failure.message();
    assert!(line.contains("vk_census_api_too_old"), "{line}");
    assert!(line.contains("vk_census_no_swapchain"), "{line}");
    assert_eq!(
        line,
        "vk_host_no_usable_device enumerated=2 [0]=vk_census_api_too_old reported=1.1 \
         [1]=vk_census_no_swapchain"
    );
}

#[test]
fn a_host_with_no_devices_at_all_is_its_own_reading() {
    let failure = select(&[]).expect_err("nothing enumerated");
    assert_eq!(failure.enumerated, 0);
    assert!(failure.floors.is_empty());
}

#[test]
fn the_class_order_is_the_one_documented() {
    let mut classes = [
        DeviceClass::Cpu,
        DeviceClass::Discrete,
        DeviceClass::Other,
        DeviceClass::Virtual,
        DeviceClass::Integrated,
    ];
    classes.sort_by_key(|c| std::cmp::Reverse(c.rank()));
    assert_eq!(
        classes,
        [
            DeviceClass::Discrete,
            DeviceClass::Integrated,
            DeviceClass::Virtual,
            DeviceClass::Other,
            DeviceClass::Cpu,
        ]
    );
    assert_eq!(
        DeviceClass::of(vk::PhysicalDeviceType::DISCRETE_GPU.as_raw()),
        DeviceClass::Discrete
    );
    assert_eq!(
        DeviceClass::of(vk::PhysicalDeviceType::from_raw(999).as_raw()),
        DeviceClass::Other
    );
    assert_eq!(
        DeviceClass::of(vk::PhysicalDeviceType::CPU.as_raw()),
        DeviceClass::Cpu
    );
    assert_eq!(
        DeviceClass::of(vk::PhysicalDeviceType::VIRTUAL_GPU.as_raw()).slug(),
        "virtual"
    );
    assert_eq!(
        DeviceClass::of(vk::PhysicalDeviceType::INTEGRATED_GPU.as_raw()).slug(),
        "integrated"
    );
}

#[test]
fn the_usable_version_is_the_lesser_of_the_device_and_the_instance() {
    assert_eq!(effective_api(v(1, 4), v(1, 2)), v(1, 2));
    assert_eq!(effective_api(v(1, 2), v(1, 4)), v(1, 2));
    assert_eq!(effective_api(v(1, 3), v(1, 3)), v(1, 3));
}

#[test]
fn a_census_taken_at_the_effective_version_does_not_admit_a_promotion() {
    let capped = Census::take(baseline(effective_api(v(1, 3), v(1, 2))), &families())
        .expect("1.2 with timeline semaphores is the baseline");
    assert!(!capped.synchronization2());
    assert_eq!(capped.api(), ApiVersion { major: 1, minor: 2 });

    let promoted = Census::take(baseline(effective_api(v(1, 3), v(1, 3))), &families())
        .expect("1.3 is above the baseline");
    assert!(promoted.synchronization2());
    assert!(promoted.passes().dynamic_rendering);
    assert!(promoted.depth_stencil().extended_dynamic_state);
}

/// Each thing a device can be missing is its own floor, outermost first.
#[test]
fn each_missing_fact_is_its_own_floor() {
    let old = baseline(v(1, 1));
    assert_eq!(
        Census::take(old, &families()),
        Err(Floor::ApiTooOld {
            reported: ApiVersion { major: 1, minor: 1 }
        })
    );
    let no_timeline = Reported {
        timeline_semaphore: false,
        swapchain: false,
        ..baseline(v(1, 3))
    };
    assert_eq!(
        Census::take(no_timeline, &families()),
        Err(Floor::NoTimelineSemaphores {
            reported: ApiVersion { major: 1, minor: 3 }
        })
    );
    let no_swapchain = Reported {
        swapchain: false,
        ..baseline(v(1, 2))
    };
    assert_eq!(
        Census::take(no_swapchain, &families()),
        Err(Floor::NoSwapchain)
    );
    assert_eq!(
        Census::take(baseline(v(1, 2)), &[]),
        Err(Floor::NoGraphicsFamily { families: 0 })
    );
}

/// The loader's own version is asked for, and a loader below the baseline is
/// refused with what it said.
#[test]
fn the_loader_is_asked_for_what_it_has() {
    assert_eq!(
        requested_api(Ok(None)),
        Err(OpenFailure::LoaderBelowBaseline {
            reported: ApiVersion { major: 1, minor: 0 }
        })
    );
    assert_eq!(
        requested_api(Ok(Some(v(1, 1)))),
        Err(OpenFailure::LoaderBelowBaseline {
            reported: ApiVersion { major: 1, minor: 1 }
        })
    );
    // The patch is dropped and the minor version kept.
    assert_eq!(
        requested_api(Ok(Some(vk::make_api_version(0, 1, 3, 281)))),
        Ok(v(1, 3))
    );
    assert_eq!(
        requested_api(Err(-1)),
        Err(OpenFailure::CreateInstance { result: -1 })
    );
}

/// A failure names itself and the result it carries.
#[test]
fn every_failure_names_itself() {
    assert_eq!(OpenFailure::NoLoader.message(), "vk_host_no_loader");
    assert_eq!(
        OpenFailure::LoaderBelowBaseline {
            reported: ApiVersion { major: 1, minor: 1 }
        }
        .message(),
        "vk_host_loader_below_baseline reported=1.1"
    );
    assert_eq!(
        OpenFailure::CreateInstance { result: -1 }.message(),
        "vk_host_create_instance result=ERROR_OUT_OF_HOST_MEMORY"
    );
    assert_eq!(
        OpenFailure::EnumerateDevices { result: -3 }.message(),
        "vk_host_enumerate_devices result=ERROR_INITIALIZATION_FAILED"
    );
    let nothing = select(&[]).expect_err("nothing enumerated");
    assert_eq!(
        OpenFailure::NoDevice(nothing.clone()).message(),
        nothing.message()
    );
    assert_eq!(
        OpenFailure::NoDevice(nothing).slug(),
        "vk_host_no_usable_device"
    );
}

/// A structure is asked about only when its extension is there, or the version
/// promoted it.
#[test]
fn a_device_is_asked_only_about_what_it_enumerated() {
    let bare = questions(ApiVersion { major: 1, minor: 2 }, &[]);
    assert!(!bare.mesh_shader && !bare.divisor && !bare.max_buffer_size && !bare.swapchain);
    assert_eq!(bare.divisor_properties, DivisorProperties::Neither);

    let promoted = questions(ApiVersion { major: 1, minor: 4 }, &[]);
    assert!(promoted.divisor && promoted.max_buffer_size);
    assert_eq!(promoted.divisor_properties, DivisorProperties::Khr);
    assert!(!promoted.dynamic_rendering, "the extension is what is asked");

    let ext = questions(
        ApiVersion { major: 1, minor: 2 },
        &[extension::VERTEX_ATTRIBUTE_DIVISOR_EXT.to_owned()],
    );
    assert!(ext.divisor);
    assert_eq!(ext.divisor_properties, DivisorProperties::Ext);

    let maintained = questions(
        ApiVersion { major: 1, minor: 2 },
        &[extension::MAINTENANCE_4.to_owned()],
    );
    assert!(maintained.max_buffer_size);
}

/// A fact that was not asked is absent, whatever its field holds.
#[test]
fn nothing_unasked_is_admitted() {
    let surveyed = survey(v(1, 2), v(1, 4), Ok(vec![written(extension::SWAPCHAIN)]))
        .expect("an answer");
    assert_eq!(surveyed.effective, v(1, 2));
    let facts = report(surveyed, eager());
    assert!(facts.swapchain && facts.timeline_semaphore && facts.depth_clamp);
    assert!(!facts.mesh_shader);
    assert!(!facts.descriptor_buffer);
    assert!(!facts.synchronization2);
    assert!(!facts.dynamic_rendering);
    assert!(!facts.extended_dynamic_state);
    assert_eq!(facts.dynamic_primitive_topology_unrestricted, None);
    assert_eq!(facts.max_vertex_attrib_divisor, 0);
    assert_eq!(facts.max_push_descriptors, 0);
    assert_eq!(facts.max_buffer_size, None);
    assert!(!facts.host_pointer_importable);

    let everything = [
        extension::SWAPCHAIN,
        extension::MESH_SHADER,
        extension::EXTENDED_DYNAMIC_STATE_3,
        extension::PUSH_DESCRIPTOR,
        extension::EXTERNAL_MEMORY_HOST,
    ];
    let surveyed = survey(
        v(1, 4),
        v(1, 3),
        Ok(everything.iter().map(|name| written(name)).collect()),
    )
    .expect("an answer");
    assert_eq!(surveyed.effective, v(1, 3));
    let facts = report(surveyed, eager());
    assert!(facts.mesh_shader);
    assert_eq!(facts.dynamic_primitive_topology_unrestricted, Some(true));
    assert_eq!(facts.max_push_descriptors, 32);
    assert_eq!(facts.max_buffer_size, Some(1 << 30));
    assert!(facts.host_pointer_importable);
    assert_eq!(facts.max_vertex_attrib_divisor, 0, "no divisor route below 1.4");
}

/// Judging keeps the position and the class, and the census decides the rest.
#[test]
fn a_judged_device_carries_its_class_and_its_verdict() {
    let integrated = vk::PhysicalDeviceType::INTEGRATED_GPU.as_raw();
    let failed = survey(v(1, 3), v(1, 3), Err(-1));
    let candidate = judge(4, integrated, failed.map(|survey| (survey, eager())), &families());
    assert_eq!(candidate.index, 4);
    assert_eq!(candidate.class, DeviceClass::Integrated);
    assert_eq!(candidate.verdict, Err(Floor::Unenumerable { result: -1 }));

    let surveyed = survey(v(1, 3), v(1, 3), Ok(vec![written(extension::SWAPCHAIN)]));
    let census = judge(0, integrated, surveyed.map(|survey| (survey, eager())), &families())
        .verdict
        .expect("admitted");
    assert!(census.can_present());
    assert!(census.queues().universal().graphics());
    assert_eq!(census.queues().family_count(), families().len());
    assert_eq!(census.queues().dedicated_transfer(), None);
    let copies = Family { index: 1, flags: vulkan::queue::TRANSFER, count: 2 };
    let mut wider = families();
    wider.push(copies);
    let offered = judge(0, integrated, surveyed.map(|survey| (survey, eager())), &wider)
        .verdict
        .expect("admitted");
    assert_eq!(offered.queues().family_count(), 2);
    assert_eq!(offered.queues().dedicated_transfer(), Some(copies));
    assert!(!census.descriptors().descriptor_buffer_qualified);
    assert_eq!(census.viewports().max_viewports, 16);
    assert_eq!(
        census.line_widths().range,
        [0.5f32.to_bits(), 8.0f32.to_bits()]
    );
    assert!(census.blending().dual_source);
    assert_eq!(census.buffers().max_buffer_size, Some(1 << 30));
    assert_eq!(census.host_cell().topology, MemoryTopology::Unified);
    assert!(!census.host_cell().host_pointer_import);
    assert!(!census.stages().mesh_shader);
    assert!(census.raster().dynamic_cull_and_winding);
    assert_eq!(
        census.report_line(),
        "vk_census api=1.3 topology=unified universal_family=0"
    );
}

#[test]
fn formats_are_packed_in_order() {
    assert_eq!(format_word(&[]), 0);
    assert_eq!(format_word(&[true, false, true]), 5);
    assert_eq!(format_word(&[true; 64]), u64::MAX);
}
