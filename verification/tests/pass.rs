//! Render-pass descriptors become attachments, or a refusal by name.

use reims_vgpu_vulkan::guest::{
    AttachmentSlot, LoadAction, ObjectListRef, PassDescriptor, RenderTargetExtent, ResourceId,
    SlotGeneration, StoreAction,
};
use reims_vgpu_vulkan::pass::{
    load_op, plan, select, store_op, Carrier, ClearColor, Declined, Narrowing, Ops, PassCell,
    Refusal, Resolve,
};
use reims_vgpu_vulkan::pixel::{
    MTL_FORMAT_DEPTH32_FLOAT, MTL_FORMAT_RGBA8_SINT, MTL_FORMAT_RGBA8_UINT, MTL_FORMAT_RGBA8_UNORM,
};
use reims_vgpu_vulkan::vulkan as vk;
use std::collections::BTreeSet;


fn id(slot: u32) -> ResourceId {
    ResourceId {
        slot: ObjectListRef(slot),
        generation: SlotGeneration(1),
    }
}

fn colour() -> impl Fn(ResourceId) -> u16 {
    |_| MTL_FORMAT_RGBA8_UNORM
}

fn empty() -> PassDescriptor {
    let mut descriptor = PassDescriptor::empty();
    descriptor.extent = RenderTargetExtent {
        width: 128,
        height: 64,
        array_length: 1,
    };
    descriptor
}

fn attach(descriptor: &mut PassDescriptor, index: usize, texture: ResourceId) {
    descriptor.color[index].texture = Some(texture);
    descriptor.color[index].load = LoadAction::Load;
    descriptor.color[index].store = StoreAction::Store;
}

#[test]
fn pass_the_ladder_is_total_and_the_bottom_rung_needs_nothing() {
    let bare = select(PassCell::default(), Narrowing::default());
    assert_eq!(bare.carrier, Carrier::RenderPassObject);
    assert_eq!(bare.dynamic_rendering, Some(Declined::Unsupported));

    let modern = select(
        PassCell {
            dynamic_rendering: true,
        },
        Narrowing::default(),
    );
    assert_eq!(modern.carrier, Carrier::DynamicRendering);
    assert_eq!(modern.dynamic_rendering, None);
}

#[test]
fn no_narrowing_can_widen_the_carrier() {
    for dynamic_rendering in [false, true] {
        for no_dynamic_rendering in [false, true] {
            let cell = PassCell { dynamic_rendering };
            let narrowed = select(
                cell,
                Narrowing {
                    no_dynamic_rendering,
                },
            );
            let open = select(cell, Narrowing::default());
            if open.carrier == Carrier::RenderPassObject {
                assert_eq!(narrowed.carrier, Carrier::RenderPassObject);
            }
            if no_dynamic_rendering {
                assert_eq!(narrowed.carrier, Carrier::RenderPassObject);
            }
        }
    }
    let cell = PassCell {
        dynamic_rendering: true,
    };
    assert_ne!(
        select(cell, Narrowing::default()).carrier,
        select(
            cell,
            Narrowing {
                no_dynamic_rendering: true
            }
        )
        .carrier
    );
    assert_eq!(
        select(
            cell,
            Narrowing {
                no_dynamic_rendering: true
            }
        )
        .dynamic_rendering,
        Some(Declined::Narrowed)
    );
}

/// The array slice and the depth plane are one axis, and the model says so
/// by adding them. Both non-zero contradicts every texture there is — a
/// volume has no array slices, an array has no depth planes — so the sum
/// would name a third slice and the pass would render into it. Refused on
/// the attachment and on its resolve target, which are two subresources
/// and two chances to say it.
#[test]
fn an_attachment_that_names_both_a_slice_and_a_depth_plane_is_refused() {
    let mut descriptor = empty();
    attach(&mut descriptor, 0, id(10));
    descriptor.color[0].slice = 1;
    descriptor.color[0].depth_plane = 2;
    assert_eq!(
        plan(&descriptor, colour()),
        Err(Refusal::SliceAndDepthPlane {
            slot: AttachmentSlot::Color(0),
            which: "attachment",
            slice: 1,
            depth_plane: 2,
        })
    );

    descriptor.color[0].depth_plane = 0;
    assert_eq!(
        plan(&descriptor, colour()).expect("plannable").color[0].slice,
        1
    );
    descriptor.color[0].slice = 0;
    descriptor.color[0].depth_plane = 2;
    assert_eq!(
        plan(&descriptor, colour()).expect("plannable").color[0].slice,
        2
    );

    descriptor.color[0].depth_plane = 0;
    descriptor.color[0].store = StoreAction::StoreAndMultisampleResolve;
    descriptor.color[0].resolve_texture = Some(id(11));
    descriptor.color[0].resolve_slice = 3;
    descriptor.color[0].resolve_depth_plane = 4;
    assert_eq!(
        plan(&descriptor, colour()),
        Err(Refusal::SliceAndDepthPlane {
            slot: AttachmentSlot::Color(0),
            which: "resolve",
            slice: 3,
            depth_plane: 4,
        })
    );
}

/// One derivation, not two: the subresources this plan carries are the
/// model's own answer for the same attachment.
#[test]
fn the_plans_subresources_are_the_models_own() {
    let mut descriptor = empty();
    attach(&mut descriptor, 0, id(10));
    descriptor.color[0].level = 3;
    descriptor.color[0].depth_plane = 5;
    descriptor.color[0].store = StoreAction::StoreAndMultisampleResolve;
    descriptor.color[0].resolve_texture = Some(id(11));
    descriptor.color[0].resolve_level = 2;
    descriptor.color[0].resolve_slice = 6;

    let plan = plan(&descriptor, colour()).expect("plannable");
    let model = descriptor.color[0].subresource();
    assert_eq!(plan.color[0].level, model.base_level);
    assert_eq!(plan.color[0].slice, model.base_slice);
    let resolve = plan.color[0].resolve.expect("a resolve target");
    let model = descriptor.color[0].resolve_subresource();
    assert_eq!(resolve.level, model.base_level);
    assert_eq!(resolve.slice, model.base_slice);
}

#[test]
fn attached_colour_slots_renumber_to_their_position() {
    let mut descriptor = empty();
    attach(&mut descriptor, 2, id(10));
    attach(&mut descriptor, 5, id(11));

    let plan = plan(&descriptor, colour()).expect("plannable");
    assert_eq!(plan.color.len(), 2);
    assert_eq!(plan.color[0].texture, id(10));
    assert_eq!(plan.color[0].slot, AttachmentSlot::Color(2));
    assert_eq!(plan.color[1].texture, id(11));
    assert_eq!(plan.color[1].slot, AttachmentSlot::Color(5));
    assert_eq!(
        plan.extent,
        vk::Extent2D {
            width: 128,
            height: 64
        }
    );
    assert_eq!(plan.layers, 1);
}

#[test]
fn each_load_and_store_action_becomes_its_own_operation() {
    for (action, expected) in [
        (LoadAction::DontCare, vk::AttachmentLoadOp::DontCare),
        (LoadAction::Load, vk::AttachmentLoadOp::Load),
        (LoadAction::Clear, vk::AttachmentLoadOp::Clear),
    ] {
        assert_eq!(load_op(action), expected);
    }
    assert_eq!(
        store_op(StoreAction::MultisampleResolve),
        vk::AttachmentStoreOp::DontCare
    );
    assert_eq!(
        store_op(StoreAction::StoreAndMultisampleResolve),
        vk::AttachmentStoreOp::Store
    );
    assert_eq!(store_op(StoreAction::Store), vk::AttachmentStoreOp::Store);
    assert_eq!(
        store_op(StoreAction::DontCare),
        vk::AttachmentStoreOp::DontCare
    );
}

#[test]
fn a_clear_colour_lands_in_the_member_the_format_names() {
    let mut descriptor = empty();
    attach(&mut descriptor, 0, id(1));
    descriptor.color[0].load = LoadAction::Clear;
    descriptor.color[0].clear_bits = [4.0f64.to_bits(); 4];

    let float = plan(&descriptor, |_| MTL_FORMAT_RGBA8_UNORM).expect("plannable");
    assert_eq!(float.color[0].clear, Some(ClearColor::Float([4.0f32.to_bits(); 4])));

    let unsigned = plan(&descriptor, |_| MTL_FORMAT_RGBA8_UINT).expect("plannable");
    assert_eq!(unsigned.color[0].clear, Some(ClearColor::Uint([4; 4])));

    let signed = plan(&descriptor, |_| MTL_FORMAT_RGBA8_SINT).expect("plannable");
    assert_eq!(signed.color[0].clear, Some(ClearColor::Sint([4; 4])));
}

#[test]
fn a_clear_value_exists_only_where_the_load_action_clears() {
    let mut descriptor = empty();
    attach(&mut descriptor, 0, id(1));
    descriptor.color[0].clear_bits = [1.0f64.to_bits(); 4];
    let plan = plan(&descriptor, colour()).expect("plannable");
    assert_eq!(plan.color[0].clear, None);
    assert_eq!(plan.color[0].load, vk::AttachmentLoadOp::Load);
}

#[test]
fn a_resolve_needs_a_target_and_refuses_without_one() {
    let mut descriptor = empty();
    attach(&mut descriptor, 0, id(1));
    descriptor.color[0].store = StoreAction::MultisampleResolve;

    assert_eq!(
        plan(&descriptor, colour()).err(),
        Some(Refusal::ResolveWithoutTarget {
            slot: AttachmentSlot::Color(0),
        })
    );

    descriptor.color[0].resolve_texture = Some(id(2));
    descriptor.color[0].resolve_level = 1;
    descriptor.color[0].resolve_slice = 3;
    let plan = plan(&descriptor, colour()).expect("plannable");
    assert_eq!(
        plan.color[0].resolve,
        Some(Resolve {
            texture: id(2),
            level: 1,
            slice: 3,
        })
    );
}

#[test]
fn a_store_that_does_not_resolve_names_no_target_even_when_one_is_set() {
    let mut descriptor = empty();
    attach(&mut descriptor, 0, id(1));
    descriptor.color[0].resolve_texture = Some(id(2));
    let plan = plan(&descriptor, colour()).expect("plannable");
    assert_eq!(plan.color[0].resolve, None);
}

#[test]
fn depth_and_stencil_on_one_texture_are_one_attachment_with_two_ops() {
    let mut descriptor = empty();
    attach(&mut descriptor, 0, id(1));
    descriptor.depth.texture = Some(id(9));
    descriptor.depth.load = LoadAction::Clear;
    descriptor.depth.store = StoreAction::Store;
    descriptor.depth.clear_bits = [0.5f64.to_bits(), 0, 0, 0];
    descriptor.stencil.texture = Some(id(9));
    descriptor.stencil.load = LoadAction::DontCare;
    descriptor.stencil.store = StoreAction::DontCare;
    descriptor.stencil.clear_bits = [7, 0, 0, 0];

    let plan = plan(&descriptor, |_| MTL_FORMAT_DEPTH32_FLOAT).expect("plannable");
    let ds = plan.depth_stencil.expect("a depth-stencil attachment");
    assert_eq!(ds.texture, id(9));
    assert_eq!(
        ds.depth,
        Some(Ops {
            load: vk::AttachmentLoadOp::Clear,
            store: vk::AttachmentStoreOp::Store,
        })
    );
    assert_eq!(
        ds.stencil,
        Some(Ops {
            load: vk::AttachmentLoadOp::DontCare,
            store: vk::AttachmentStoreOp::DontCare,
        })
    );
    assert!((f32::from_bits(ds.clear_depth) - 0.5).abs() < f32::EPSILON);
    assert_eq!(ds.clear_stencil, 0);
}

/// The stencil clear is the guest's low word, asserted where the slot
/// actually clears.
#[test]
fn a_clearing_stencil_slot_takes_the_low_word_of_its_bits() {
    let mut descriptor = empty();
    descriptor.stencil.texture = Some(id(9));
    descriptor.stencil.load = LoadAction::Clear;
    descriptor.stencil.store = StoreAction::Store;
    descriptor.stencil.clear_bits = [0x1_0000_0007, 0, 0, 0];
    let plan = plan(&descriptor, |_| MTL_FORMAT_DEPTH32_FLOAT).expect("plannable");
    assert_eq!(
        plan.depth_stencil.expect("attached").clear_stencil,
        7,
        "the low word, not the whole 64-bit value"
    );
}

/// A depth clear that is not a number reaches `VkClearDepthStencilValue`
/// as one, and every fragment's depth test in the pass is against it.
#[test]
fn a_depth_clear_that_is_not_a_number_refuses() {
    for bits in [
        f64::NAN.to_bits(),
        f64::INFINITY.to_bits(),
        1.0e300f64.to_bits(),
    ] {
        let mut descriptor = empty();
        descriptor.depth.texture = Some(id(9));
        descriptor.depth.load = LoadAction::Clear;
        descriptor.depth.clear_bits = [bits, 0, 0, 0];
        assert_eq!(
            plan(&descriptor, |_| MTL_FORMAT_DEPTH32_FLOAT).err(),
            Some(Refusal::NonFiniteDepthClear { value: bits }),
            "{bits:#x}"
        );

        descriptor.depth.load = LoadAction::Load;
        let planned = plan(&descriptor, |_| MTL_FORMAT_DEPTH32_FLOAT).expect("plannable");
        assert_eq!(
            f32::from_bits(planned.depth_stencil.expect("attached").clear_depth),
            0.0
        );
    }
}

#[test]
fn one_aspect_attached_alone_leaves_the_other_absent() {
    let mut descriptor = empty();
    descriptor.depth.texture = Some(id(9));
    descriptor.depth.load = LoadAction::Clear;
    let depth_only = plan(&descriptor, |_| MTL_FORMAT_DEPTH32_FLOAT).expect("plannable");
    let ds = depth_only.depth_stencil.expect("depth");
    assert!(ds.depth.is_some());
    assert_eq!(ds.stencil, None);

    let mut descriptor = empty();
    descriptor.stencil.texture = Some(id(9));
    descriptor.stencil.level = 2;
    let stencil_only = plan(&descriptor, |_| MTL_FORMAT_DEPTH32_FLOAT).expect("plannable");
    let ds = stencil_only.depth_stencil.expect("stencil");
    assert_eq!(ds.depth, None);
    assert!(ds.stencil.is_some());
    assert_eq!(ds.level, 2);
}

#[test]
fn depth_and_stencil_on_two_textures_refuse_rather_than_picking_one() {
    let mut descriptor = empty();
    descriptor.depth.texture = Some(id(9));
    descriptor.stencil.texture = Some(id(10));
    assert_eq!(
        plan(&descriptor, colour()).err(),
        Some(Refusal::SplitDepthStencil {
            depth: id(9),
            stencil: id(10),
        })
    );
}

#[test]
fn a_depth_only_pass_is_a_pass() {
    let mut descriptor = empty();
    descriptor.depth.texture = Some(id(9));
    let plan = plan(&descriptor, |_| MTL_FORMAT_DEPTH32_FLOAT).expect("plannable");
    assert!(plan.color.is_empty());
    assert!(plan.depth_stencil.is_some());
}

#[test]
fn a_pass_with_nothing_attached_refuses() {
    assert_eq!(plan(&empty(), colour()).err(), Some(Refusal::NoAttachments));
}

#[test]
fn an_extent_of_no_texels_refuses_rather_than_rendering_nowhere() {
    let mut descriptor = empty();
    attach(&mut descriptor, 0, id(1));
    descriptor.extent.height = 0;
    assert_eq!(
        plan(&descriptor, colour()).err(),
        Some(Refusal::ZeroExtent {
            width: 128,
            height: 0,
        })
    );
}

#[test]
fn an_extent_wider_than_a_native_field_refuses_rather_than_truncating() {
    let mut descriptor = empty();
    attach(&mut descriptor, 0, id(1));
    descriptor.extent.width = u64::from(u32::MAX) + 1;
    assert_eq!(
        plan(&descriptor, colour()).err(),
        Some(Refusal::ExtentTooLarge {
            axis: "width",
            value: u64::from(u32::MAX) + 1,
        })
    );
}

#[test]
fn a_layerless_render_target_still_has_one_layer() {
    let mut descriptor = empty();
    attach(&mut descriptor, 0, id(1));
    descriptor.extent.array_length = 0;
    assert_eq!(plan(&descriptor, colour()).expect("plannable").layers, 1);
    descriptor.extent.array_length = 6;
    assert_eq!(plan(&descriptor, colour()).expect("plannable").layers, 6);
}

#[test]
fn a_depth_plane_and_an_array_slice_are_the_same_axis() {
    let mut descriptor = empty();
    attach(&mut descriptor, 0, id(1));
    descriptor.color[0].depth_plane = 3;
    assert_eq!(
        plan(&descriptor, colour()).expect("plannable").color[0].slice,
        3
    );
    descriptor.color[0].depth_plane = 0;
    descriptor.color[0].slice = 3;
    assert_eq!(
        plan(&descriptor, colour()).expect("plannable").color[0].slice,
        3
    );
}

#[test]
fn pass_every_refusal_names_itself() {
    let refusals = [
        Refusal::NoAttachments,
        Refusal::SplitDepthStencil {
            depth: id(1),
            stencil: id(2),
        },
        Refusal::ResolveWithoutTarget {
            slot: AttachmentSlot::Depth,
        },
        Refusal::ExtentTooLarge {
            axis: "width",
            value: 1,
        },
        Refusal::ZeroExtent {
            width: 0,
            height: 0,
        },
        Refusal::DepthStencilDisagree { field: "level" },
        Refusal::NonFiniteDepthClear { value: 1 },
        Refusal::SliceAndDepthPlane {
            slot: AttachmentSlot::Depth,
            which: "attachment",
            slice: 1,
            depth_plane: 2,
        },
    ];
    let slugs: BTreeSet<&str> = refusals.iter().map(|r| r.slug()).collect();
    assert_eq!(slugs.len(), refusals.len());
    for refusal in refusals {
        assert!(refusal.message().starts_with(refusal.slug()));
        assert!(refusal.slug().starts_with("vk_pass_"));
    }
    assert!(Refusal::ResolveWithoutTarget {
        slot: AttachmentSlot::Color(3)
    }
    .message()
    .contains("color3"));
}

/// The failure this exists to prevent: one Vulkan depth-stencil attachment
/// has one subresource and one resolve target, and taking the depth slot's
/// answers ran the pass with the stencil slot's silently dropped.
#[test]
fn depth_and_stencil_on_one_texture_must_agree_about_which_part_of_it() {
    let both = || {
        let mut descriptor = empty();
        for slot in [&mut descriptor.depth, &mut descriptor.stencil] {
            slot.texture = Some(id(9));
            slot.load = LoadAction::Load;
            slot.store = StoreAction::Store;
            slot.level = 2;
            slot.slice = 1;
            slot.depth_plane = 0;
        }
        descriptor
    };
    let agreed = plan(&both(), colour()).expect("plannable");
    let attachment = agreed.depth_stencil.expect("one attachment");
    assert_eq!((attachment.level, attachment.slice), (2, 1));
    assert!(attachment.depth.is_some() && attachment.stencil.is_some());

    for (field, break_it) in [
        (
            "level",
            (|d: &mut PassDescriptor| d.stencil.level = 3) as fn(&mut PassDescriptor),
        ),
        ("slice", |d: &mut PassDescriptor| d.stencil.slice = 0),
        ("depth_plane", |d: &mut PassDescriptor| {
            d.stencil.depth_plane = 1
        }),
    ] {
        let mut descriptor = both();
        break_it(&mut descriptor);
        assert_eq!(
            plan(&descriptor, colour()).err(),
            Some(Refusal::DepthStencilDisagree { field }),
        );
    }
}

/// A resolve named on only one of the two slots, or named differently on
/// each, has nowhere to go. This is `ResolveWithoutTarget`'s failure
/// reached from the other side: the pass runs and the guest's resolved
/// stencil image is never written.
#[test]
fn depth_and_stencil_on_one_texture_must_agree_about_where_it_resolves() {
    let mut descriptor = empty();
    for slot in [&mut descriptor.depth, &mut descriptor.stencil] {
        slot.texture = Some(id(9));
        slot.load = LoadAction::Load;
        slot.store = StoreAction::Store;
    }
    descriptor.stencil.store = StoreAction::StoreAndMultisampleResolve;
    descriptor.stencil.resolve_texture = Some(id(10));
    assert_eq!(
        plan(&descriptor, colour()).err(),
        Some(Refusal::DepthStencilDisagree { field: "resolve" })
    );

    descriptor.depth.store = StoreAction::StoreAndMultisampleResolve;
    descriptor.depth.resolve_texture = Some(id(11));
    assert_eq!(
        plan(&descriptor, colour()).err(),
        Some(Refusal::DepthStencilDisagree { field: "resolve" })
    );

    descriptor.depth.resolve_texture = Some(id(10));
    let planned = plan(&descriptor, colour()).expect("plannable");
    assert_eq!(
        planned.depth_stencil.expect("one attachment").resolve,
        Some(Resolve {
            texture: id(10),
            level: 0,
            slice: 0,
        })
    );

    descriptor.stencil.resolve_texture = None;
    assert_eq!(
        plan(&descriptor, colour()).err(),
        Some(Refusal::ResolveWithoutTarget {
            slot: AttachmentSlot::Stencil,
        })
    );
}

#[test]
fn a_format_is_asked_only_where_a_slot_clears() {
    let asked = std::cell::RefCell::new(Vec::new());
    let ask = |texture: ResourceId| {
        asked.borrow_mut().push(texture);
        MTL_FORMAT_RGBA8_UNORM
    };
    let mut d = empty();
    attach(&mut d, 0, id(1));
    attach(&mut d, 2, id(2));
    d.color[0].load = LoadAction::Load;
    d.color[2].load = LoadAction::Clear;
    // Unattached, so what it would do does not matter.
    d.color[3].load = LoadAction::Clear;
    assert!(plan(&d, &ask).is_ok());
    assert_eq!(*asked.borrow(), vec![id(2)]);

    asked.borrow_mut().clear();
    d.extent.width = 0;
    assert!(plan(&d, &ask).is_err());
    assert!(asked.borrow().is_empty(), "nothing is asked after a refusal");
}
