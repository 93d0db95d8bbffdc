//! Depth and stencil state, baked or supplied per draw.

use reims_vgpu_vulkan::depth_stencil::{
    compare_op, placeholder, plan, stencil_op, DepthStencilCell, DepthStencilPlan, FacePlan, Plan,
};
use reims_vgpu_vulkan::guest::{
    CompareFunction, DepthStencilState, StencilFace, StencilOperation as GuestOp,
};
use reims_vgpu_vulkan::vulkan as vk;
use std::collections::BTreeSet;

const OPERATIONS: [GuestOp; 8] = [
    GuestOp::Keep,
    GuestOp::Zero,
    GuestOp::Replace,
    GuestOp::IncrementClamp,
    GuestOp::DecrementClamp,
    GuestOp::Invert,
    GuestOp::IncrementWrap,
    GuestOp::DecrementWrap,
];

const COMPARISONS: [CompareFunction; 8] = [
    CompareFunction::Never,
    CompareFunction::Less,
    CompareFunction::Equal,
    CompareFunction::LessEqual,
    CompareFunction::Greater,
    CompareFunction::NotEqual,
    CompareFunction::GreaterEqual,
    CompareFunction::Always,
];

/// One face as the guest declares it.
#[derive(Clone, Copy)]
struct StencilFaceShape {
    compare_function: CompareFunction,
    stencil_failure_operation: GuestOp,
    depth_failure_operation: GuestOp,
    depth_stencil_pass_operation: GuestOp,
    read_mask: u32,
    write_mask: u32,
}

impl StencilFaceShape {
    /// The guest's defaults.
    fn default() -> Self {
        StencilFaceShape {
            compare_function: CompareFunction::Always,
            stencil_failure_operation: GuestOp::Keep,
            depth_failure_operation: GuestOp::Keep,
            depth_stencil_pass_operation: GuestOp::Keep,
            read_mask: u32::MAX,
            write_mask: u32::MAX,
        }
    }

    fn face(self) -> StencilFace {
        StencilFace {
            compare: self.compare_function,
            stencil_failure: self.stencil_failure_operation,
            depth_failure: self.depth_failure_operation,
            depth_stencil_pass: self.depth_stencil_pass_operation,
            read_mask: self.read_mask,
            write_mask: self.write_mask,
        }
    }
}

/// A state as the guest declares it, each face behind its enable bit.
#[derive(Clone, Copy)]
struct DepthStencilShape {
    depth_compare_function: CompareFunction,
    depth_write_enabled: bool,
    front_stencil_enabled: bool,
    back_stencil_enabled: bool,
    front: StencilFaceShape,
    back: StencilFaceShape,
}

impl DepthStencilShape {
    fn checked(self) -> Option<DepthStencilState> {
        Some(DepthStencilState {
            depth_compare: self.depth_compare_function,
            depth_write: self.depth_write_enabled,
            front: self.front_stencil_enabled.then_some(self.front.face()),
            back: self.back_stencil_enabled.then_some(self.back.face()),
        })
    }
}

/// The Vulkan spelling of a guest name: the same words, in Vulkan's vocabulary.
fn vulkan_spelling(name: &str) -> String {
    let mut words: Vec<String> = Vec::new();
    for letter in name.chars() {
        if letter.is_uppercase() {
            words.push(String::new());
        }
        if let Some(word) = words.last_mut() {
            word.extend(letter.to_uppercase());
        }
    }
    words
        .iter()
        .map(|word| match word.as_str() {
            "SOURCE" => "SRC".to_string(),
            "SOURCE1" => "SRC1".to_string(),
            "DESTINATION" => "DST".to_string(),
            "BLEND" => "CONSTANT".to_string(),
            "SATURATED" => "SATURATE".to_string(),
            "CLAMP" => "AND_CLAMP".to_string(),
            "WRAP" => "AND_WRAP".to_string(),
            other => other.to_string(),
        })
        .collect::<Vec<String>>()
        .join("_")
}


fn face_shape() -> StencilFaceShape {
    StencilFaceShape {
        compare_function: CompareFunction::Greater,
        stencil_failure_operation: GuestOp::Zero,
        depth_failure_operation: GuestOp::IncrementWrap,
        depth_stencil_pass_operation: GuestOp::Replace,
        read_mask: 0xf0,
        write_mask: 0x0f,
    }
}

fn shape() -> DepthStencilShape {
    DepthStencilShape {
        depth_compare_function: CompareFunction::LessEqual,
        depth_write_enabled: true,
        front_stencil_enabled: false,
        back_stencil_enabled: false,
        front: StencilFaceShape::default(),
        back: StencilFaceShape::default(),
    }
}

/// A host that bakes the whole state, which is the rung every one of the
/// mapping tests below is about: the mapping is the same either way, and
/// this is where it lands in the pipeline.
const BAKED: DepthStencilCell = DepthStencilCell {
    extended_dynamic_state: false,
};
/// A host that supplies it per draw, with a pass that has somewhere to put
/// it.
const DYNAMIC: DepthStencilCell = DepthStencilCell {
    extended_dynamic_state: true,
};

fn planned(shape: DepthStencilShape) -> DepthStencilPlan {
    plan(
        &shape.checked().expect("a declaration the guest API admits"),
        BAKED,
        true,
    )
    .state
}

fn planned_dynamic(shape: DepthStencilShape) -> Plan {
    plan(
        &shape.checked().expect("a declaration the guest API admits"),
        DYNAMIC,
        true,
    )
}

#[test]
fn every_stencil_operation_maps_to_a_distinct_one() {
    let mapped: BTreeSet<i32> = OPERATIONS
        .iter()
        .map(|o| stencil_op(*o).as_raw())
        .collect();
    assert_eq!(mapped.len(), OPERATIONS.len());
    assert_eq!(
        stencil_op(GuestOp::IncrementWrap),
        vk::StencilOp::IncrementAndWrap
    );
    assert_eq!(
        stencil_op(GuestOp::IncrementClamp),
        vk::StencilOp::IncrementAndClamp
    );
    assert_eq!(stencil_op(GuestOp::Keep), vk::StencilOp::Keep);
}

/// The claim the module doc makes about `depthTestEnable`: it is on for
/// every state, so `Always` with writes on keeps the write that a cleared
/// enable would have dropped.
#[test]
fn the_depth_test_is_always_enabled_so_a_write_is_never_dropped() {
    for compare in [CompareFunction::Always, CompareFunction::LessEqual] {
        for write in [false, true] {
            let plan = planned(DepthStencilShape {
                depth_compare_function: compare,
                depth_write_enabled: write,
                ..shape()
            });
            assert!(plan.depth_test_enable);
            assert_eq!(plan.depth_write_enable, write);
            assert!(!plan.depth_bounds_test_enable);
        }
    }
    let always_writing = planned(DepthStencilShape {
        depth_compare_function: CompareFunction::Always,
        depth_write_enabled: true,
        ..shape()
    });
    assert!(always_writing.depth_test_enable);
    assert!(always_writing.depth_write_enable);
    assert_eq!(always_writing.depth_compare_op, vk::CompareOp::Always);
}

#[test]
fn a_state_with_no_face_leaves_the_stencil_test_off() {
    let plan = planned(shape());
    assert!(!plan.stencil_test_enable);
    assert_eq!(plan.front, FacePlan::pass_through());
    assert_eq!(plan.back, FacePlan::pass_through());
}

/// One Vulkan enable for two Metal faces: the test runs when either face
/// is bound, and the unbound one changes nothing.
#[test]
fn one_bound_face_engages_the_test_and_the_other_passes_through() {
    for (front_on, back_on) in [(true, false), (false, true), (true, true)] {
        let plan = planned(DepthStencilShape {
            front_stencil_enabled: front_on,
            back_stencil_enabled: back_on,
            front: face_shape(),
            back: face_shape(),
            ..shape()
        });
        assert!(plan.stencil_test_enable);

        let bound = FacePlan {
            fail_op: vk::StencilOp::Zero,
            pass_op: vk::StencilOp::Replace,
            depth_fail_op: vk::StencilOp::IncrementAndWrap,
            compare_op: vk::CompareOp::Greater,
            compare_mask: 0xf0,
            write_mask: 0x0f,
        };
        assert_eq!(
            plan.front,
            if front_on {
                bound
            } else {
                FacePlan::pass_through()
            }
        );
        assert_eq!(
            plan.back,
            if back_on {
                bound
            } else {
                FacePlan::pass_through()
            }
        );
    }
}

/// The pass-through is a face that reads and changes nothing, which is
/// what makes it a safe substitute for one the guest never declared.
#[test]
fn the_pass_through_face_writes_nothing_whatever_the_test_does() {
    let face = FacePlan::pass_through();
    assert_eq!(face.compare_op, vk::CompareOp::Always);
    for op in [face.fail_op, face.pass_op, face.depth_fail_op] {
        assert_eq!(op, vk::StencilOp::Keep);
    }
}

/// Two states that behave identically must plan identically, or a pipeline
/// cache keyed on the plan compiles the same pipeline twice.
#[test]
fn a_disengaged_test_plans_the_same_whatever_the_faces_held() {
    let bare = planned(shape());
    let with_bytes = planned(DepthStencilShape {
        front: face_shape(),
        back: face_shape(),
        ..shape()
    });
    assert_eq!(bare, with_bytes);
    assert!(!bare.stencil_test_enable);
}

#[test]
fn every_comparison_reaches_the_depth_test_and_the_faces_alike() {
    let mut seen: BTreeSet<i32> = BTreeSet::new();
    for guest in COMPARISONS {
        let plan = planned(DepthStencilShape {
            depth_compare_function: guest,
            front_stencil_enabled: true,
            front: StencilFaceShape {
                compare_function: guest,
                ..face_shape()
            },
            ..shape()
        });
        assert_eq!(plan.depth_compare_op, compare_op(guest));
        assert_eq!(plan.front.compare_op, compare_op(guest));
        assert!(seen.insert(plan.depth_compare_op.as_raw()));
    }
    assert_eq!(seen.len(), COMPARISONS.len());
}

/// The reference is dynamic state, so nothing a plan holds carries one.
#[test]
fn the_native_face_leaves_the_reference_for_the_draw() {
    let plan = planned(DepthStencilShape {
        front_stencil_enabled: true,
        front: face_shape(),
        ..shape()
    });
    let native = plan.front.native();
    assert_eq!(native.reference, 0);
    assert_eq!(native.compare_mask, 0xf0);
    assert_eq!(native.write_mask, 0x0f);
}

#[test]
fn depth_stencil_the_native_state_carries_the_plan() {
    let plan = planned(DepthStencilShape {
        front_stencil_enabled: true,
        front: face_shape(),
        ..shape()
    });
    let native = plan.native();
    assert_eq!(native.depth_test_enable, vk::TRUE);
    assert_eq!(native.depth_write_enable, vk::TRUE);
    assert_eq!(native.depth_compare_op, vk::CompareOp::LessOrEqual);
    assert_eq!(native.depth_bounds_test_enable, vk::FALSE);
    assert_eq!(native.stencil_test_enable, vk::TRUE);
    assert_eq!(native.front.compare_op, vk::CompareOp::Greater);
    assert_eq!(native.back.compare_op, vk::CompareOp::Always);
}

/// The claim the whole rung rests on: on a host that supplies this state
/// per draw, every depth-stencil state the guest can declare builds the
/// *same* pipeline — so the whole space compiles once instead of once per
/// bound `MTLDepthStencilState`.
#[test]
fn every_guest_state_collapses_to_one_pipeline_where_the_host_is_dynamic() {
    let mut dynamic_states = BTreeSet::new();
    let mut baked_states = BTreeSet::new();
    let mut count = 0;
    for depth_write_enabled in [false, true] {
        for depth_compare in [
            CompareFunction::Never,
            CompareFunction::Less,
            CompareFunction::Always,
        ] {
            for stencil in [false, true] {
                for op in [
                    GuestOp::Keep,
                    GuestOp::Replace,
                    GuestOp::Invert,
                ] {
                    let face = StencilFaceShape {
                        compare_function: CompareFunction::Equal,
                        stencil_failure_operation: op,
                        depth_failure_operation: op,
                        depth_stencil_pass_operation: op,
                        read_mask: 0x0f,
                        write_mask: op.ordinal() + 1,
                    };
                    let shape = DepthStencilShape {
                        depth_compare_function: depth_compare,
                        depth_write_enabled,
                        front_stencil_enabled: stencil,
                        back_stencil_enabled: stencil,
                        front: face,
                        back: face,
                    };
                    dynamic_states.insert(format!("{:?}", planned_dynamic(shape).state));
                    baked_states.insert(format!("{:?}", planned(shape)));
                    count += 1;
                }
            }
        }
    }
    assert_eq!(count, 36, "the whole product was walked");
    assert!(
        baked_states.len() > 6,
        "baking must not collapse these: {}",
        baked_states.len()
    );
    assert_eq!(
        dynamic_states.len(),
        1,
        "one pipeline serves every depth-stencil state"
    );
}

/// A member is in exactly one half. The pipeline carries the guest's state
/// or the encoder does, and the placeholder is never the guest's value by
/// accident.
#[test]
fn the_guests_state_is_in_exactly_one_half() {
    let shape = DepthStencilShape {
        depth_compare_function: CompareFunction::Greater,
        depth_write_enabled: true,
        front_stencil_enabled: true,
        back_stencil_enabled: true,
        front: StencilFaceShape {
            compare_function: CompareFunction::Equal,
            stencil_failure_operation: GuestOp::Zero,
            depth_failure_operation: GuestOp::Invert,
            depth_stencil_pass_operation: GuestOp::Replace,
            read_mask: 0x0f,
            write_mask: 0xf0,
        },
        back: StencilFaceShape::default(),
    };
    let baked = planned(shape);
    let split = planned_dynamic(shape);

    let recorded = split.dynamic.expect("a dynamic host supplies the state");
    assert_eq!(recorded.depth_write_enable, baked.depth_write_enable);
    assert_eq!(recorded.depth_compare_op, baked.depth_compare_op);
    assert_eq!(recorded.stencil_test_enable, baked.stencil_test_enable);
    assert_eq!(recorded.front, baked.front);
    assert_eq!(recorded.back, baked.back);

    assert_eq!(split.state, placeholder());
    assert_ne!(split.state, baked);
    assert_eq!(split.state.dynamic, split.dynamic.is_some());
    assert!(!baked.dynamic);
}

/// A pass with no depth attachment has nowhere to put a depth-stencil
/// state, so nothing is dynamic there however capable the host is — and a
/// dynamic state declared for a structure Vulkan will not read is one
/// nothing would ever set.
#[test]
fn an_unattached_pass_makes_nothing_dynamic() {
    let shape = shape();
    let state = shape.checked().expect("the default is admissible");
    for cell in [BAKED, DYNAMIC] {
        let unattached = plan(&state, cell, false);
        assert!(unattached.dynamic.is_none());
        assert_eq!(unattached.state, plan(&state, BAKED, true).state);
        assert!(
            unattached.state.states().is_empty(),
            "the default shape has no stencil test, so not even the reference"
        );
    }
}

/// The state list and the placeholder are two readings of one decision.
/// Every member the placeholder stands in for must appear in the list, or
/// the pipeline rasterizes the placeholder.
#[test]
fn every_member_the_placeholder_stands_in_for_is_declared_dynamic() {
    let split = planned_dynamic(shape());
    let declared: BTreeSet<i32> = split.state.states().iter().map(|s| s.as_raw()).collect();
    for required in [
        vk::DynamicState::DepthTestEnable,
        vk::DynamicState::DepthWriteEnable,
        vk::DynamicState::DepthCompareOp,
        vk::DynamicState::DepthBoundsTestEnable,
        vk::DynamicState::StencilTestEnable,
        vk::DynamicState::StencilOp,
        vk::DynamicState::StencilCompareMask,
        vk::DynamicState::StencilWriteMask,
        vk::DynamicState::StencilReference,
    ] {
        assert!(
            declared.contains(&required.as_raw()),
            "{required:?} is a placeholder nobody replaces"
        );
    }
    assert_eq!(
        declared.len(),
        split.state.states().len(),
        "no state listed twice"
    );

    let mut with_stencil = shape();
    with_stencil.front_stencil_enabled = true;
    with_stencil.front = face_shape();
    assert_eq!(
        plan(&with_stencil.checked().expect("admissible"), BAKED, true)
            .state
            .states(),
        vec![vk::DynamicState::StencilReference]
    );
    assert!(plan(&shape().checked().expect("admissible"), BAKED, true)
        .state
        .states()
        .is_empty());
}

/// `FacePlan::pass_through()` is written out as a constant so a placeholder
/// pipeline state can be one. It must be the same face `of` produces from
/// the same default, or the two spellings drift.
#[test]
fn the_constant_pass_through_face_is_the_one_the_mapping_produces() {
    assert_eq!(FacePlan::pass_through(), FacePlan::of(StencilFace::default()));
    assert_eq!(FacePlan::pass_through(), FacePlan::pass_through());
}

/// Every stencil operation lands on the Vulkan operation of the same name.
#[test]
fn every_stencil_operation_lands_on_the_operation_of_the_same_name() {
    for guest in OPERATIONS {
        assert_eq!(
            format!(
                "{:?}",
                ash::vk::StencilOp::from_raw(stencil_op(guest).as_raw())
            ),
            vulkan_spelling(&format!("{guest:?}")),
            "{guest:?}"
        );
    }
}

/// And no two of them collapse onto one, which a name check alone would
/// miss if two guest spellings ever normalised alike.
#[test]
fn the_eight_stencil_operations_stay_eight() {
    let mapped: std::collections::BTreeSet<i32> = OPERATIONS
        .iter()
        .map(|op| stencil_op(*op).as_raw())
        .collect();
    assert_eq!(mapped.len(), OPERATIONS.len());
}
