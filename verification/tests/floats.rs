//! Conversions on bit patterns agree with the machine's own.

use reims_vgpu_vulkan::ieee::{at_most, is_finite_single, narrow, to_i32, to_u32};
use reims_vgpu_vulkan::ieee_sum::plus;

/// Patterns that stand on or beside every boundary a conversion has.
fn patterns() -> Vec<u64> {
    let mut out: Vec<u64> = Vec::new();
    let edges = [
        0.0f64,
        1.0,
        1.5,
        2.5,
        0.5,
        4.0,
        255.0,
        2147483647.0,
        2147483648.0,
        4294967295.0,
        4294967296.0,
        f64::from(f32::MAX),
        3.4028235677973366e38,
        f64::from(f32::MIN_POSITIVE),
        1.401298464324817e-45,
        7.006492321624085e-46,
        1e-300,
        1e300,
        f64::MAX,
        f64::MIN_POSITIVE,
        f64::INFINITY,
        5e-324,
    ];
    for edge in edges {
        for near in 0..3u64 {
            out.push(edge.to_bits().wrapping_add(near));
            out.push(edge.to_bits().wrapping_sub(near));
        }
    }
    let mut state: u64 = 0x243f_6a88_85a3_08d3;
    for _ in 0..200_000 {
        state ^= state << 13;
        state ^= state >> 7;
        state ^= state << 17;
        out.push(state);
        // And within the range where a single is finite.
        out.push(state % 0x00ff_ffff_ffff_ffff + 0x3680_0000_0000_0000);
    }
    let signed: Vec<u64> = out.iter().map(|b| b ^ (1 << 63)).collect();
    out.extend(signed);
    out
}

#[test]
fn narrowing_rounds_as_the_machine_does() {
    for bits in patterns() {
        let machine = f64::from_bits(bits) as f32;
        let ours = f32::from_bits(narrow(bits));
        if machine.is_nan() {
            assert!(ours.is_nan(), "{bits:#x}");
        } else {
            assert_eq!(ours.to_bits(), machine.to_bits(), "{bits:#x}");
        }
        assert_eq!(is_finite_single(narrow(bits)), machine.is_finite());
    }
    assert_eq!(narrow(0.1f64.to_bits()), 0.1f32.to_bits());
}

#[test]
fn integer_conversions_saturate_as_the_machine_does() {
    for bits in patterns() {
        let value = f64::from_bits(bits);
        assert_eq!(to_u32(bits), value as u32, "{bits:#x}");
        assert_eq!(to_i32(bits), value as i32, "{bits:#x}");
    }
    assert_eq!(to_u32(4.75f64.to_bits()), 4);
    assert_eq!(to_i32((-4.75f64).to_bits()), -4);
}

#[test]
fn singles_compare_as_the_machine_compares_them() {
    let values = [
        0.0f32,
        -0.0,
        1.0,
        -1.0,
        0.5,
        64.0,
        f32::MAX,
        f32::MIN,
        f32::INFINITY,
        f32::NEG_INFINITY,
        f32::NAN,
        -f32::NAN,
        f32::MIN_POSITIVE,
    ];
    for a in values {
        for b in values {
            assert_eq!(at_most(a.to_bits(), b.to_bits()), a <= b, "{a} {b}");
        }
    }
}

fn assert_sums(a: u64, b: u64) {
    let machine = f64::from_bits(a) + f64::from_bits(b);
    let ours = plus(a, b);
    if machine.is_nan() {
        assert!(f64::from_bits(ours).is_nan(), "{a:#x} {b:#x}");
    } else {
        assert_eq!(ours, machine.to_bits(), "{a:#x} {b:#x}");
    }
}

#[test]
fn sums_round_as_the_machine_rounds_them() {
    let all = patterns();
    // Every boundary against every boundary, in both signs.
    let edges: Vec<u64> = all[..132].iter().flat_map(|b| [*b, b ^ (1 << 63)]).collect();
    for a in &edges {
        for b in &edges {
            assert_sums(*a, *b);
        }
    }
    for (a, b) in all.iter().zip(all.iter().skip(1)) {
        assert_sums(*a, *b);
        // And with the exponents close enough to interact.
        let near = (a & 0xfff0_0000_0000_0000) | (b & 0x000f_ffff_ffff_ffff);
        assert_sums(*a, near);
        assert_sums(*a, near ^ (1 << 63));
        assert_sums(near, b ^ ((b ^ near) & 0x7f80_0000_0000_0000));
    }
    assert_eq!(plus(0.1f64.to_bits(), 0.2f64.to_bits()), 0x3fd3_3333_3333_3334);
    assert_eq!(plus(1080.5f64.to_bits(), (-80.25f64).to_bits()), 1000.25f64.to_bits());
    assert_eq!(plus((-0.0f64).to_bits(), (-0.0f64).to_bits()), (-0.0f64).to_bits());
    assert_eq!(plus(1.0f64.to_bits(), (-1.0f64).to_bits()), 0);
}
