//! Colour attachments, their factors and their write masks.

use reims_vgpu_vulkan::blend::{
    factor, independent, operation, plan, reads_blend_color, write_mask, BlendCell, Refusal,
};
use reims_vgpu_vulkan::guest::{
    Blend, BlendFactor, BlendOperation, ColorAttachmentState, ColorWriteMask,
};
use reims_vgpu_vulkan::vulkan as vk;
use std::collections::BTreeSet;

const FACTORS: [BlendFactor; 19] = [
    BlendFactor::Zero,
    BlendFactor::One,
    BlendFactor::SourceColor,
    BlendFactor::OneMinusSourceColor,
    BlendFactor::SourceAlpha,
    BlendFactor::OneMinusSourceAlpha,
    BlendFactor::DestinationColor,
    BlendFactor::OneMinusDestinationColor,
    BlendFactor::DestinationAlpha,
    BlendFactor::OneMinusDestinationAlpha,
    BlendFactor::SourceAlphaSaturated,
    BlendFactor::BlendColor,
    BlendFactor::OneMinusBlendColor,
    BlendFactor::BlendAlpha,
    BlendFactor::OneMinusBlendAlpha,
    BlendFactor::Source1Color,
    BlendFactor::OneMinusSource1Color,
    BlendFactor::Source1Alpha,
    BlendFactor::OneMinusSource1Alpha,
];

const OPERATIONS: [BlendOperation; 5] = [
    BlendOperation::Add,
    BlendOperation::Subtract,
    BlendOperation::ReverseSubtract,
    BlendOperation::Min,
    BlendOperation::Max,
];

/// An attachment as the guest declares it, before blending is read as on or
/// off.
#[derive(Clone, Copy)]
struct Declared {
    blending_enabled: bool,
    src_rgb: BlendFactor,
    dst_rgb: BlendFactor,
    op_rgb: BlendOperation,
    src_alpha: BlendFactor,
    dst_alpha: BlendFactor,
    op_alpha: BlendOperation,
    write_mask: ColorWriteMask,
}

impl Declared {
    /// The guest's defaults.
    fn plain() -> Self {
        Declared {
            blending_enabled: false,
            src_rgb: BlendFactor::One,
            dst_rgb: BlendFactor::Zero,
            op_rgb: BlendOperation::Add,
            src_alpha: BlendFactor::One,
            dst_alpha: BlendFactor::Zero,
            op_alpha: BlendOperation::Add,
            write_mask: ColorWriteMask::all(),
        }
    }
}

/// The Vulkan spelling of a guest name: the same words, in Vulkan's vocabulary.
fn vulkan_spelling(name: &str) -> String {
    let mut words: Vec<String> = Vec::new();
    for letter in name.chars() {
        if letter.is_uppercase() {
            words.push(String::new());
        }
        if let Some(word) = words.last_mut() {
            word.extend(letter.to_uppercase());
        }
    }
    words
        .iter()
        .map(|word| match word.as_str() {
            "SOURCE" => "SRC".to_string(),
            "SOURCE1" => "SRC1".to_string(),
            "DESTINATION" => "DST".to_string(),
            "BLEND" => "CONSTANT".to_string(),
            "SATURATED" => "SATURATE".to_string(),
            "CLAMP" => "AND_CLAMP".to_string(),
            "WRAP" => "AND_WRAP".to_string(),
            other => other.to_string(),
        })
        .collect::<Vec<String>>()
        .join("_")
}


const ALL: BlendCell = BlendCell {
    dual_source: true,
    independent: true,
};
const NEITHER: BlendCell = BlendCell {
    dual_source: false,
    independent: false,
};

fn shape() -> Declared {
    Declared {
        blending_enabled: true,
        src_rgb: BlendFactor::SourceAlpha,
        dst_rgb: BlendFactor::OneMinusSourceAlpha,
        op_rgb: BlendOperation::Add,
        src_alpha: BlendFactor::One,
        dst_alpha: BlendFactor::Zero,
        op_alpha: BlendOperation::ReverseSubtract,
        write_mask: ColorWriteMask::all(),
    }
}

fn state(shape: Declared) -> ColorAttachmentState {
    ColorAttachmentState {
        write_mask: shape.write_mask,
        blend: shape.blending_enabled.then_some(Blend {
            src_color: shape.src_rgb,
            dst_color: shape.dst_rgb,
            color_operation: shape.op_rgb,
            src_alpha: shape.src_alpha,
            dst_alpha: shape.dst_alpha,
            alpha_operation: shape.op_alpha,
        }),
    }
}

#[test]
fn every_factor_and_operation_maps_to_a_distinct_one() {
    let factors: BTreeSet<i32> = FACTORS
        .iter()
        .map(|f| factor(*f).as_raw())
        .collect();
    assert_eq!(factors.len(), FACTORS.len());
    let ops: BTreeSet<i32> = OPERATIONS
        .iter()
        .map(|o| operation(*o).as_raw())
        .collect();
    assert_eq!(ops.len(), OPERATIONS.len());

    assert_eq!(
        factor(BlendFactor::BlendColor),
        vk::BlendFactor::ConstantColor
    );
    assert_eq!(
        factor(BlendFactor::Source1Color),
        vk::BlendFactor::Src1Color
    );
    assert_eq!(
        operation(BlendOperation::ReverseSubtract),
        vk::BlendOp::ReverseSubtract
    );
}

/// The bit orders are reversed over four bits, so a cast would turn an
/// alpha-only mask into a red-only one.
#[test]
fn the_write_mask_is_reordered_rather_than_passed_through() {
    let red = write_mask(ColorWriteMask::new(ColorWriteMask::RED).expect("in range"));
    assert_eq!(red, vk::color_component::R);
    let alpha = write_mask(ColorWriteMask::new(ColorWriteMask::ALPHA).expect("in range"));
    assert_eq!(alpha, vk::color_component::A);
    assert_ne!(red, alpha);
    assert_eq!(
        write_mask(ColorWriteMask::all()),
        vk::color_component::R
            | vk::color_component::G
            | vk::color_component::B
            | vk::color_component::A
    );
    assert_eq!(
        write_mask(ColorWriteMask::none()),
        0
    );
}

#[test]
fn a_blending_attachment_carries_both_equations() {
    let plan = plan(&state(shape()), ALL).expect("no dual-source factor");
    assert!(plan.blend_enable);
    assert_eq!(plan.src_color_blend_factor, vk::BlendFactor::SrcAlpha);
    assert_eq!(
        plan.dst_color_blend_factor,
        vk::BlendFactor::OneMinusSrcAlpha
    );
    assert_eq!(plan.color_blend_op, vk::BlendOp::Add);
    assert_eq!(plan.src_alpha_blend_factor, vk::BlendFactor::One);
    assert_eq!(plan.dst_alpha_blend_factor, vk::BlendFactor::Zero);
    assert_eq!(plan.alpha_blend_op, vk::BlendOp::ReverseSubtract);
}

/// Vulkan ignores every factor with `blendEnable` clear, so two
/// attachments that behave identically must plan identically.
#[test]
fn a_disabled_attachment_plans_the_same_whatever_it_declared() {
    let bare = plan(
        &state(Declared {
            blending_enabled: false,
            ..Declared::plain()
        }),
        NEITHER,
    )
    .expect("nothing to refuse");
    let with_bytes = plan(
        &state(Declared {
            blending_enabled: false,
            ..shape()
        }),
        NEITHER,
    )
    .expect("nothing to refuse");
    assert_eq!(bare, with_bytes);
    assert!(!bare.blend_enable);
    assert_eq!(bare.src_color_blend_factor, vk::BlendFactor::One);
    assert_eq!(bare.dst_color_blend_factor, vk::BlendFactor::Zero);

    let masked = plan(
        &state(Declared {
            blending_enabled: false,
            write_mask: ColorWriteMask::none(),
            ..shape()
        }),
        NEITHER,
    )
    .expect("nothing to refuse");
    assert_ne!(masked, bare);
    assert_eq!(masked.color_write_mask, 0);
}

/// A capability gap is a refusal naming the factor, not a parse failure —
/// and the same declaration succeeds where the device reports the feature.
#[test]
fn each_dual_source_factor_refuses_by_name_without_the_feature() {
    let mut seen: BTreeSet<u32> = BTreeSet::new();
    for (index, ordinal) in [
        BlendFactor::Source1Color,
        BlendFactor::OneMinusSource1Alpha,
    ]
    .into_iter()
    .enumerate()
    {
        for slot in 0..4 {
            let mut bad = shape();
            match slot {
                0 => bad.src_rgb = ordinal,
                1 => bad.dst_rgb = ordinal,
                2 => bad.src_alpha = ordinal,
                _ => bad.dst_alpha = ordinal,
            }
            let refused = plan(&state(bad), NEITHER).expect_err("no dualSrcBlend here");
            let Refusal::NoDualSource { factor } = refused else {
                panic!("wrong refusal: {refused:?}");
            };
            assert_eq!(factor.ordinal(), ordinal.ordinal());
            seen.insert(ordinal.ordinal());
            assert_eq!(refused.slug(), "vk_blend_no_dual_source");
            assert!(plan(&state(bad), ALL).is_ok());
            let _ = index;
        }
    }
    assert_eq!(seen.len(), 2);

    assert_eq!(
        plan(&state(shape()), NEITHER).expect("no dual-source factor"),
        plan(&state(shape()), ALL).expect("no dual-source factor")
    );
}

/// Nothing is refused for a factor that cannot be evaluated: with
/// blending off, a `SRC1_*` ordinal never reaches a pipeline.
#[test]
fn a_dual_source_factor_behind_a_clear_flag_refuses_nothing() {
    let off = state(Declared {
        blending_enabled: false,
        src_rgb: BlendFactor::Source1Color,
        ..shape()
    });
    assert!(plan(&off, NEITHER).is_ok());
}

#[test]
fn independent_blend_is_a_property_of_the_list_and_not_of_one_attachment() {
    let a = plan(&state(shape()), ALL).expect("legal");
    let b = plan(
        &state(Declared {
            blending_enabled: false,
            ..shape()
        }),
        ALL,
    )
    .expect("legal");

    assert!(independent(&[a], NEITHER).is_ok());
    assert!(independent(&[a, a, a], NEITHER).is_ok());
    assert!(independent(&[], NEITHER).is_ok());
    let refused = independent(&[a, b], NEITHER).expect_err("no independentBlend here");
    assert_eq!(refused, Refusal::NoIndependentBlend { slots: 2 });
    assert_eq!(refused.slug(), "vk_blend_no_independent_blend");
    assert!(independent(&[a, b], ALL).is_ok());
}

/// The blend colour is dynamic state, so nothing a plan holds carries one
/// — but a caller still has to know whether to push it.
#[test]
fn the_blend_colour_is_asked_about_rather_than_planned() {
    let constant = state(Declared {
        src_rgb: BlendFactor::BlendAlpha,
        ..shape()
    });
    assert!(reads_blend_color(&[constant]));
    assert!(reads_blend_color(&[state(shape()), constant]));
    assert!(!reads_blend_color(&[state(shape())]));
    assert!(!reads_blend_color(&[]));
    assert!(!reads_blend_color(&[state(Declared {
        blending_enabled: false,
        src_rgb: BlendFactor::BlendAlpha,
        ..shape()
    })]));
}

#[test]
fn blend_the_native_state_carries_the_plan() {
    let native = plan(&state(shape()), ALL).expect("legal").native();
    assert_eq!(native.blend_enable, vk::TRUE);
    assert_eq!(native.src_color_blend_factor, vk::BlendFactor::SrcAlpha);
    assert_eq!(native.alpha_blend_op, vk::BlendOp::ReverseSubtract);
    assert_eq!(native.color_write_mask, vk::color_component::RGBA);

    let off = plan(
        &state(Declared {
            blending_enabled: false,
            ..shape()
        }),
        ALL,
    )
    .expect("legal")
    .native();
    assert_eq!(off.blend_enable, vk::FALSE);
}

/// Every blend factor and operation lands on the Vulkan value of the same
/// name.
#[test]
fn every_factor_and_operation_lands_on_the_value_of_the_same_name() {
    for guest in FACTORS {
        assert_eq!(
            format!(
                "{:?}",
                ash::vk::BlendFactor::from_raw(factor(guest).as_raw())
            ),
            vulkan_spelling(&format!("{guest:?}")),
            "{guest:?}"
        );
    }
    for guest in OPERATIONS {
        assert_eq!(
            format!(
                "{:?}",
                ash::vk::BlendOp::from_raw(operation(guest).as_raw())
            ),
            vulkan_spelling(&format!("{guest:?}")),
            "{guest:?}"
        );
    }
}

/// And neither table collapses two guest values onto one Vulkan value.
#[test]
fn the_factors_and_operations_stay_distinct() {
    let factors: std::collections::BTreeSet<i32> = FACTORS
        .iter()
        .map(|f| factor(*f).as_raw())
        .collect();
    assert_eq!(factors.len(), FACTORS.len());
    let ops: std::collections::BTreeSet<i32> = OPERATIONS
        .iter()
        .map(|o| operation(*o).as_raw())
        .collect();
    assert_eq!(ops.len(), OPERATIONS.len());
}
