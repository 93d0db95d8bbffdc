//! Barriers keep what the guest asked for, in both vocabularies.

use reims_vgpu_vulkan::barrier::{
    access_within, access_without_carrier, scope_access, translate, BarrierPlan, Decline,
    StageSupport,
};
use reims_vgpu_vulkan::guest::{
    BarrierOp, BarrierScope, BarrierTarget, RenderStages, ResourceSpan,
};
use reims_vgpu_vulkan::layout::Use;
use reims_vgpu_vulkan::vulkan as vk;

/// Whether `set` holds every bit of `bits`.
fn contains(set: u64, bits: u64) -> bool {
    set & bits == bits
}

/// Whether `set` holds every bit of `bits`.
fn older_contains(set: u32, bits: u32) -> bool {
    set & bits == bits
}

fn scope(bits: u32, after: Option<u32>, before: Option<u32>) -> BarrierOp {
    BarrierOp {
        target: BarrierTarget::Scope(BarrierScope(bits)),
        after_stages: after.map(RenderStages),
        before_stages: before.map(RenderStages),
    }
}

const RENDER: StageSupport = StageSupport { mesh_shader: false };
const MESH: StageSupport = StageSupport { mesh_shader: true };

/// A compute barrier's selectors carry no stages, and the compute stage is
/// what its records execute in — not an empty mask, which would order
/// nothing.
#[test]
fn a_stageless_barrier_is_the_compute_stage_and_not_an_empty_mask() {
    let plan = translate(
        &scope(BarrierScope::BUFFERS | BarrierScope::TEXTURES, None, None),
        RENDER,
    )
    .expect("declared bits only");
    assert_eq!(plan.src_stages, vk::stage2::COMPUTE_SHADER);
    assert_eq!(plan.dst_stages, vk::stage2::COMPUTE_SHADER);
    assert!(plan.orders_anything());
    assert!(contains(plan.src_access, vk::access2::SHADER_STORAGE_WRITE));
    assert!(contains(plan.dst_access, vk::access2::SHADER_SAMPLED_READ));
}

/// `MTLRenderStageFragment` is four Vulkan stages, and it has to be: the
/// colour write it names happens at `COLOR_ATTACHMENT_OUTPUT`, so a plan
/// sourced only at `FRAGMENT_SHADER` would not wait for it.
const FRAGMENT_STAGES: u64 = vk::stage2::FRAGMENT_SHADER
    | vk::stage2::EARLY_FRAGMENT_TESTS
    | vk::stage2::LATE_FRAGMENT_TESTS
    | vk::stage2::COLOR_ATTACHMENT_OUTPUT;

#[test]
fn a_render_barrier_carries_the_stages_the_record_declared() {
    let plan = translate(
        &scope(
            BarrierScope::RENDER_TARGETS,
            Some(RenderStages::FRAGMENT),
            Some(RenderStages::VERTEX | RenderStages::FRAGMENT),
        ),
        RENDER,
    )
    .expect("declared bits only");
    assert_eq!(plan.src_stages, FRAGMENT_STAGES);
    assert_eq!(
        plan.dst_stages,
        vk::stage2::VERTEX_SHADER | FRAGMENT_STAGES
    );
    assert!(contains(plan.src_access, vk::access2::COLOR_ATTACHMENT_WRITE));
}

/// The rule the whole table serves: every access in a half is one the
/// stages of that same half perform. Asserted over every combination of
/// scope and declared stages, not over the handful of cases below.
#[test]
fn no_half_of_any_plan_names_an_access_its_own_stages_cannot_perform() {
    let declared = [
        RenderStages::VERTEX,
        RenderStages::FRAGMENT,
        RenderStages::OBJECT,
        RenderStages::MESH,
    ];
    let mut seen_attachment = false;
    let mut seen_shader = false;
    for scope_bits in
        0..=(BarrierScope::BUFFERS | BarrierScope::TEXTURES | BarrierScope::RENDER_TARGETS)
    {
        for after in 0..(1u32 << declared.len()) {
            for before in 0..(1u32 << declared.len()) {
                let mask = |set: u32| {
                    declared
                        .iter()
                        .enumerate()
                        .filter(|(i, _)| set & (1 << i) != 0)
                        .fold(0, |acc, (_, bit)| acc | bit)
                };
                let op = scope(scope_bits, Some(mask(after)), Some(mask(before)));
                let Ok(plan) = translate(&op, MESH) else {
                    continue;
                };
                for (access, stages) in [
                    (plan.src_access, plan.src_stages),
                    (plan.dst_access, plan.dst_stages),
                ] {
                    assert_eq!(
                        access_within(access, stages),
                        access,
                        "{op:?} names {access:?} at {stages:?}"
                    );
                    seen_attachment |=
                        contains(access, vk::access2::COLOR_ATTACHMENT_WRITE);
                    seen_shader |= contains(access, vk::access2::SHADER_SAMPLED_READ);
                }
            }
        }
    }
    assert!(seen_attachment && seen_shader);
}

/// A guest may order render-target memory against the vertex stage. No
/// attachment access happens there, so what it asked for is an execution
/// dependency and no memory one — the plan says exactly that instead of
/// naming an access the stage cannot perform.
#[test]
fn a_scope_no_stage_in_the_mask_touches_becomes_an_execution_dependency() {
    let plan = translate(
        &scope(
            BarrierScope::RENDER_TARGETS,
            Some(RenderStages::VERTEX),
            Some(RenderStages::VERTEX),
        ),
        RENDER,
    )
    .expect("declared bits only");
    assert_eq!(plan.src_stages, vk::stage2::VERTEX_SHADER);
    assert_eq!(plan.src_access, 0u64);
    assert_eq!(plan.dst_access, 0u64);
    assert!(
        plan.orders_anything(),
        "an execution dependency is still an ordering"
    );
}

/// A row missing from the table is not a compile error and not a refusal:
/// the intersection would drop the access whatever the stages were. So
/// every access this module can produce is checked against the table.
#[test]
fn every_access_this_module_emits_has_a_carrier() {
    let mut every = 0u64;
    for bits in
        0..=(BarrierScope::BUFFERS | BarrierScope::TEXTURES | BarrierScope::RENDER_TARGETS)
    {
        every |= scope_access(BarrierScope(bits));
    }
    every |= vk::access2::MEMORY_READ
        | vk::access2::MEMORY_WRITE
        | vk::access2::COLOR_ATTACHMENT_WRITE
        | vk::access2::SHADER_SAMPLED_READ
        | vk::access2::INPUT_ATTACHMENT_READ;
    assert_eq!(access_without_carrier(every), 0);
    assert_ne!(access_without_carrier(vk::access2::HOST_WRITE), 0);
}

/// A barrier over nothing is legal to send and orders nothing. It must not
/// come back as stages with no access, which a caller would emit.
#[test]
fn an_empty_scope_orders_nothing() {
    let plan = translate(&scope(0, Some(RenderStages::FRAGMENT), None), RENDER)
        .expect("zero is a declared value");
    assert_eq!(plan, BarrierPlan::default());
    assert!(!plan.orders_anything());
}

#[test]
fn an_empty_resource_list_orders_nothing() {
    let op = BarrierOp {
        target: BarrierTarget::Resources(ResourceSpan { start: 0, len: 0 }),
        after_stages: Some(RenderStages(RenderStages::FRAGMENT)),
        before_stages: Some(RenderStages(RenderStages::VERTEX)),
    };
    assert_eq!(translate(&op, RENDER), Ok(BarrierPlan::default()));
}

/// The record names resources and no usage, so the direction is not
/// established. Too strong costs throughput; too weak is a race.
#[test]
fn a_resource_list_with_no_usage_is_ordered_conservatively() {
    let op = BarrierOp {
        target: BarrierTarget::Resources(ResourceSpan { start: 4, len: 3 }),
        after_stages: None,
        before_stages: None,
    };
    let plan = translate(&op, RENDER).expect("no stage bits to be wrong");
    assert_eq!(plan.src_access, vk::access2::MEMORY_WRITE);
    assert_eq!(
        plan.dst_access,
        vk::access2::MEMORY_READ | vk::access2::MEMORY_WRITE
    );
}

/// Masking a bit down to its declared neighbours reports a guest request
/// the device is sure it understood.
#[test]
fn an_undeclared_bit_is_refused_and_not_masked() {
    assert_eq!(
        translate(&scope(BarrierScope::BUFFERS | 0x80, None, None), RENDER),
        Err(Decline::UndeclaredScopeBits { bits: 0x80 })
    );
    assert_eq!(
        translate(&scope(BarrierScope::BUFFERS, Some(0x40), None), RENDER),
        Err(Decline::UndeclaredStageBits { bits: 0x40 })
    );
}

/// Folding the tile stage into the fragment stage would execute a barrier
/// the guest did not ask for and drop the ordering it did.
#[test]
fn the_tile_stage_is_refused_by_name() {
    assert_eq!(
        translate(
            &scope(
                BarrierScope::TEXTURES,
                Some(RenderStages::FRAGMENT | RenderStages::TILE),
                Some(RenderStages::FRAGMENT)
            ),
            MESH
        ),
        Err(Decline::TileStage),
        "and mesh support does not make a tile stage expressible"
    );
}

/// Gated on the capability, not on a device.
#[test]
fn the_mesh_stages_follow_the_capability() {
    let op = scope(
        BarrierScope::TEXTURES,
        Some(RenderStages::OBJECT | RenderStages::MESH),
        Some(RenderStages::FRAGMENT),
    );
    assert_eq!(
        translate(&op, RENDER),
        Err(Decline::MeshStagesUnavailable {
            stages: RenderStages::OBJECT | RenderStages::MESH
        })
    );
    let plan = translate(&op, MESH).expect("the capability is present");
    assert_eq!(
        plan.src_stages,
        vk::stage2::TASK_SHADER | vk::stage2::MESH_SHADER
    );
}

/// Every barrier this module can translate, over the whole closed input
/// space, and the two claims the older path rests on.
#[test]
fn every_barrier_this_module_can_translate_survives_the_older_vocabulary() {
    const DECLARED_STAGES: u32 = RenderStages::VERTEX
        | RenderStages::FRAGMENT
        | RenderStages::TILE
        | RenderStages::OBJECT
        | RenderStages::MESH;

    let mut translated = 0_u32;
    for support in [RENDER, MESH] {
        for after in (0..=DECLARED_STAGES).map(Some).chain([None]) {
            for before in (0..=DECLARED_STAGES).map(Some).chain([None]) {
                let targets = [
                    BarrierTarget::Texture,
                    BarrierTarget::Resources(ResourceSpan { start: 0, len: 1 }),
                ]
                .into_iter()
                .chain(
                    (0..=(BarrierScope::BUFFERS
                        | BarrierScope::TEXTURES
                        | BarrierScope::RENDER_TARGETS))
                        .map(|bits| BarrierTarget::Scope(BarrierScope(bits))),
                );
                for target in targets {
                    let op = BarrierOp {
                        target,
                        after_stages: after.map(RenderStages),
                        before_stages: before.map(RenderStages),
                    };
                    let Ok(plan) = translate(&op, support) else {
                        continue;
                    };
                    translated += 1;
                    assert_eq!(
                        plan.unmapped_bits(),
                        (0, 0),
                        "a bit with no older equivalent reached the plan for {op:?}"
                    );
                    let legacy = plan.legacy();
                    assert_eq!(
                        plan.src_access == 0,
                        legacy.src_access == 0,
                        "the map emptied a source access for {op:?}"
                    );
                    assert_eq!(
                        plan.dst_access == 0,
                        legacy.dst_access == 0,
                        "the map emptied a destination access for {op:?}"
                    );
                    assert_eq!(
                        plan.src_stages == 0,
                        legacy.src_stages == 0,
                        "the map emptied a source stage for {op:?}"
                    );
                    assert_eq!(
                        plan.dst_stages == 0,
                        legacy.dst_stages == 0,
                        "the map emptied a destination stage for {op:?}"
                    );
                }
            }
        }
    }
    assert_eq!(translated, 3140, "the swept space changed shape");
}

/// The legacy path consumes the same plan. A map that dropped a bit would
/// ask the host on the older path for less ordering than the guest wrote.
#[test]
fn the_legacy_map_covers_everything_this_module_emits() {
    let cases = [
        scope(BarrierScope::BUFFERS, None, None),
        scope(BarrierScope::TEXTURES, None, None),
        scope(
            BarrierScope::RENDER_TARGETS,
            Some(RenderStages::FRAGMENT),
            Some(RenderStages::VERTEX),
        ),
        scope(
            BarrierScope::BUFFERS | BarrierScope::TEXTURES | BarrierScope::RENDER_TARGETS,
            Some(RenderStages::VERTEX | RenderStages::FRAGMENT),
            Some(RenderStages::FRAGMENT),
        ),
        BarrierOp {
            target: BarrierTarget::Texture,
            after_stages: Some(RenderStages(RenderStages::FRAGMENT)),
            before_stages: Some(RenderStages(RenderStages::FRAGMENT)),
        },
        BarrierOp {
            target: BarrierTarget::Resources(ResourceSpan { start: 0, len: 1 }),
            after_stages: None,
            before_stages: None,
        },
        scope(
            BarrierScope::TEXTURES,
            Some(RenderStages::OBJECT | RenderStages::MESH),
            Some(RenderStages::FRAGMENT),
        ),
    ];
    for op in cases {
        let plan = translate(&op, MESH).expect("declared bits only");
        assert_eq!(
            plan.unmapped_bits(),
            (0, 0),
            "a bit with no older equivalent reached the plan for {op:?}"
        );
    }
}

/// A layout transition's four words come from the uses it stands between, so
/// the map has to cover that vocabulary as much as the barriers'.
#[test]
fn every_layout_transition_survives_the_older_vocabulary() {
    const USES: &[Use] = &[
        Use::ColorAttachment,
        Use::DepthStencilAttachment,
        Use::DepthStencilRead,
        Use::SampledRead,
        Use::Storage,
        Use::TransferSrc,
        Use::TransferDst,
        Use::Present,
    ];
    for from in USES {
        for to in USES {
            let plan = BarrierPlan {
                src_stages: from.stages(),
                dst_stages: to.stages(),
                src_access: from.access(),
                dst_access: to.access(),
            };
            assert_eq!(
                plan.unmapped_bits(),
                (0, 0),
                "no row for the transition {from:?} -> {to:?}"
            );
            let legacy = plan.legacy();
            assert_eq!(
                plan.src_access == 0,
                legacy.src_access == 0,
                "{from:?} -> {to:?} lost its source access on the older path"
            );
            assert_eq!(
                plan.dst_access == 0,
                legacy.dst_access == 0,
                "{from:?} -> {to:?} lost its destination access on the older path"
            );
            assert_eq!(
                plan.src_stages == 0,
                legacy.src_stages == 0,
                "{from:?} -> {to:?} lost its source stages on the older path"
            );
            assert_eq!(
                plan.dst_stages == 0,
                legacy.dst_stages == 0,
                "{from:?} -> {to:?} lost its destination stages on the older path"
            );
        }
    }
}

/// The concrete one: a staging upload becoming a sampled read. With no
/// rows for it, both halves came back empty --- and [`crate::record`] reads
/// an empty stage mask as `TOP_OF_PIPE` to `BOTTOM_OF_PIPE`, so a legacy
/// host recorded a layout change with no memory dependency at all and the
/// sample read whatever was in the image.
#[test]
fn a_staging_upload_still_orders_the_sample_that_reads_it() {
    let legacy = BarrierPlan {
        src_stages: Use::TransferDst.stages(),
        dst_stages: Use::SampledRead.stages(),
        src_access: Use::TransferDst.access(),
        dst_access: Use::SampledRead.access(),
    }
    .legacy();
    assert_eq!(legacy.src_stages, vk::stage::TRANSFER);
    assert_eq!(legacy.src_access, vk::access::TRANSFER_WRITE);
    assert_eq!(
        legacy.dst_stages,
        vk::stage::ALL_GRAPHICS | vk::stage::COMPUTE_SHADER
    );
    assert_eq!(legacy.dst_access, vk::access::SHADER_READ);
}

/// A bit with no row is coarser on the older path, never absent --- and
/// only its own half is coarsened.
#[test]
fn a_bit_with_no_row_widens_rather_than_vanishing() {
    let plan = BarrierPlan {
        src_stages: vk::stage2::HOST,
        dst_stages: vk::stage2::VERTEX_SHADER,
        src_access: vk::access2::HOST_WRITE,
        dst_access: vk::access2::UNIFORM_READ,
    };
    assert_ne!(
        plan.unmapped_bits(),
        (0, 0),
        "and the check still reports the missing rows"
    );
    let legacy = plan.legacy();
    assert!(older_contains(legacy.src_stages, vk::stage::ALL_COMMANDS));
    assert!(older_contains(legacy.src_access, vk::access::MEMORY_WRITE));
    assert!(older_contains(legacy.src_access, vk::access::MEMORY_READ));
    assert_eq!(
        legacy.dst_stages,
        vk::stage::VERTEX_SHADER,
        "the half whose bits all have rows is not widened"
    );
    assert_eq!(legacy.dst_access, vk::access::UNIFORM_READ);
}

/// The coarsening the older vocabulary forces, stated rather than
/// discovered: two distinct reads become one.
#[test]
fn the_two_shader_reads_become_one_in_the_older_vocabulary() {
    let plan = translate(&scope(BarrierScope::TEXTURES, None, None), RENDER)
        .expect("declared bits only");
    assert!(contains(plan.src_access, vk::access2::SHADER_SAMPLED_READ));
    assert!(contains(plan.src_access, vk::access2::SHADER_STORAGE_READ));
    let legacy = plan.legacy();
    assert!(older_contains(legacy.src_access, vk::access::SHADER_READ));
    assert!(older_contains(legacy.src_access, vk::access::SHADER_WRITE));
    assert_eq!(
        legacy.src_stages,
        vk::stage::COMPUTE_SHADER,
        "and the stage maps one-to-one"
    );
}

/// A mesh-stage barrier maps onto the extension's own older stage bits, so
/// a host with mesh shading and no `synchronization2` is still served.
#[test]
fn the_mesh_stages_have_an_older_equivalent() {
    let plan = translate(
        &scope(
            BarrierScope::TEXTURES,
            Some(RenderStages::MESH),
            Some(RenderStages::FRAGMENT),
        ),
        MESH,
    )
    .expect("the capability is present");
    assert_eq!(plan.unmapped_bits(), (0, 0));
    assert_eq!(
        plan.legacy().src_stages,
        vk::stage::MESH_SHADER
    );
}

#[test]
fn a_texture_barrier_orders_the_passes_own_attachments() {
    let plan = translate(
        &BarrierOp {
            target: BarrierTarget::Texture,
            after_stages: Some(RenderStages(RenderStages::FRAGMENT)),
            before_stages: Some(RenderStages(RenderStages::FRAGMENT)),
        },
        RENDER,
    )
    .expect("declared bits only");
    assert_eq!(plan.src_access, vk::access2::COLOR_ATTACHMENT_WRITE);
    assert!(contains(plan.dst_access, vk::access2::SHADER_SAMPLED_READ));
    assert!(
        plan.orders_anything(),
        "it names nothing and orders its pass"
    );
    assert!(contains(plan.src_stages, vk::stage2::COLOR_ATTACHMENT_OUTPUT));
}

#[test]
fn barrier_every_decline_has_its_own_slug() {
    let all = [
        Decline::UndeclaredScopeBits { bits: 1 },
        Decline::UndeclaredStageBits { bits: 1 },
        Decline::TileStage,
        Decline::MeshStagesUnavailable { stages: 1 },
    ];
    let mut slugs: Vec<&str> = all.iter().map(|d| d.slug()).collect();
    slugs.sort_unstable();
    let count = slugs.len();
    slugs.dedup();
    assert_eq!(slugs.len(), count);
    assert!(Decline::TileStage.message().contains("tile_stage"));
}
