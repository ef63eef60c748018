use rsmf::ternary::{f16_bits_to_f32_bits, f32_bits_to_f16_bits, TernaryCodes, TernarySign};

fn f32_to_f16_bits(value: f32) -> u16 {
    f32_bits_to_f16_bits(value.to_bits())
}

fn f16_bits_to_f32(bits: u16) -> f32 {
    f32::from_bits(f16_bits_to_f32_bits(bits))
}

#[test]
fn fp16_roundtrip_normal_values() {
    let test_vals = [0.0f32, 1.0, -1.0, 0.5, -0.5, 3.14, -2.718, 0.001, 100.0];
    for &v in &test_vals {
        let bits = f32_to_f16_bits(v);
        let back = f16_bits_to_f32(bits);
        // FP16 has ~3 decimal digits of precision
        let rel_err = if v.abs() > 1e-6 { (back - v).abs() / v.abs() } else { (back - v).abs() };
        assert!(rel_err < 0.01, "FP16 roundtrip failed for {}: got {}, rel_err={}", v, back, rel_err);
    }
}

#[test]
fn fp16_special_values() {
    // Zero
    assert_eq!(f16_bits_to_f32(f32_to_f16_bits(0.0)), 0.0);
    // Negative zero
    assert_eq!(f16_bits_to_f32(f32_to_f16_bits(-0.0)).to_bits(), (-0.0f32).to_bits());
    // Infinity
    assert!(f16_bits_to_f32(f32_to_f16_bits(f32::INFINITY)).is_infinite());
    assert!(f16_bits_to_f32(f32_to_f16_bits(f32::NEG_INFINITY)).is_infinite());
}

#[test]
fn codec_exact_normal_values() {
    assert_eq!(f32_to_f16_bits(1.0), 0x3C00);
    assert_eq!(f32_to_f16_bits(-2.0), 0xC000);
    assert_eq!(f16_bits_to_f32_bits(0x3C00), 0x3F80_0000);
    assert_eq!(f16_bits_to_f32_bits(0xC000), 0xC000_0000);
    // 65504 is the largest half.
    assert_eq!(f32_to_f16_bits(65504.0), 0x7BFF);
}

#[test]
fn codec_truncates_mantissa() {
    // 1 + 2^-11 is below half precision: the extra bit is dropped.
    let v = f32::from_bits(0x3F80_1000);
    assert_eq!(f32_to_f16_bits(v), 0x3C00);
    assert_eq!(f16_bits_to_f32_bits(f32_bits_to_f16_bits(0x3F80_3FFF)), 0x3F80_2000);
}

#[test]
fn codec_overflow_and_underflow() {
    assert_eq!(f32_to_f16_bits(65536.0), 0x7C00);
    assert_eq!(f32_to_f16_bits(-1.0e10), 0xFC00);
    assert_eq!(f32_to_f16_bits(1.0e-10), 0x0000);
    assert_eq!(f32_to_f16_bits(-1.0e-10), 0x8000);
}

#[test]
fn codec_subnormals() {
    // Smallest half subnormal: 2^-24.
    assert_eq!(f16_bits_to_f32_bits(0x0001), 0x3380_0000);
    assert_eq!(f32_to_f16_bits(f32::from_bits(0x3380_0000)), 0x0001);
    // Largest half subnormal: 1023 · 2^-24.
    assert_eq!(f32_bits_to_f16_bits(f16_bits_to_f32_bits(0x03FF)), 0x03FF);
    assert_eq!(f16_bits_to_f32(0x0200), 2.0f32.powi(-15));
}

#[test]
fn codec_nan_becomes_quiet_nan() {
    assert_eq!(f32_to_f16_bits(f32::NAN) & 0x7FFF, 0x7E00);
    assert_eq!(f16_bits_to_f32_bits(0x7C01), 0x7FC0_0000);
    assert_eq!(f16_bits_to_f32_bits(0xFD00), 0xFFC0_0000);
    assert_eq!(f32_bits_to_f16_bits(f16_bits_to_f32_bits(0xFC01)), 0xFE00);
    assert!(f16_bits_to_f32(0x7C01).is_nan());
}

#[test]
fn every_non_nan_half_roundtrips() {
    for h in 0..=u16::MAX {
        let exp = (h >> 10) & 0x1F;
        let mant = h & 0x3FF;
        if exp == 0x1F && mant != 0 {
            continue;
        }
        assert_eq!(f32_bits_to_f16_bits(f16_bits_to_f32_bits(h)), h, "half {:#06x}", h);
    }
}

#[test]
fn ternary_sign_values() {
    assert_eq!(TernarySign::Neg.to_i8(), -1);
    assert_eq!(TernarySign::Zero.to_i8(), 0);
    assert_eq!(TernarySign::Pos.to_i8(), 1);
}

#[test]
fn ternary_codes_zeros() {
    let codes = TernaryCodes::zeros(256, 512);
    assert_eq!(codes.num_params(), 256 * 512);
    assert_eq!(codes.in_dim(), 256);
    assert_eq!(codes.out_dim(), 512);
    assert_eq!(codes.entry_bytes(), 256 * 512 * 3);
    assert_eq!(codes.fp32_equivalent_bytes(), 256 * 512 * 4);
    assert!(codes.entry_bytes() < codes.fp32_equivalent_bytes());
    assert_eq!(codes.nonzero_count(), 0);
    assert!(codes.residuals().iter().all(|&r| r == 0));
}

#[test]
fn ternary_codes_set_and_count() {
    let mut codes = TernaryCodes::zeros(2, 3);
    codes.set(1, TernarySign::Pos, 0x3C00);
    codes.set(4, TernarySign::Neg, 0xBC00);
    assert_eq!(codes.signs(), &vec![0, 1, 0, 0, -1, 0]);
    assert_eq!(codes.residual_at(1), 0x3C00);
    assert_eq!(codes.residual_at(4), 0xBC00);
    assert_eq!(codes.sign_at(4), -1);
    assert_eq!(codes.nonzero_count(), 2);
    codes.set(1, TernarySign::Zero, 0);
    assert_eq!(codes.nonzero_count(), 1);
    let copy = codes.duplicate();
    assert_eq!(copy.signs(), codes.signs());
    assert_eq!(copy.residuals(), codes.residuals());
}

#[test]
fn ternary_codes_from_entries() {
    let codes = TernaryCodes::from_entries(
        1,
        3,
        vec![TernarySign::Pos, TernarySign::Zero, TernarySign::Neg],
        vec![1, 2, 3],
    );
    assert_eq!(codes.signs(), &vec![1, 0, -1]);
    assert_eq!(codes.residuals(), &vec![1, 2, 3]);
    assert_eq!(codes.nonzero_count(), 2);
}
