//! Ternary weight signs and the IEEE 754 half-precision bit codec used for
//! the residual stream of ternary adapters.
//!
//! The codec works on bit patterns: a single-precision value is given by its
//! 32 bits and a half-precision value by its 16 bits.
use vstd::prelude::*;
use vstd::arithmetic::power2::{pow2, lemma_pow2_unfold, lemma_pow2_adds, lemma_pow2_pos};

verus! {

/// Ternary weight value: sign component only.
#[derive(Debug, Clone, Copy, PartialEq, Eq, Structural)]
pub enum TernarySign {
    Neg,
    Zero,
    Pos,
}

/// Numeric value of a ternary sign: -1, 0 or +1.
pub open spec fn sign_value(s: TernarySign) -> int {
    match s {
        TernarySign::Neg => -1,
        TernarySign::Zero => 0,
        TernarySign::Pos => 1,
    }
}

impl TernarySign {
    /// The sign as the signed byte that ternary adapters store: -1, 0 or 1.
    pub fn to_i8(self) -> (r: i8)
        ensures
            r == sign_value(self),
    {
        match self {
            TernarySign::Neg => -1,
            TernarySign::Zero => 0,
            TernarySign::Pos => 1,
        }
    }
}

// === Fields of the two binary formats ===

/// Sign bit of a single-precision bit pattern.
pub open spec fn f32_sign(b: u32) -> int {
    b as int / 0x8000_0000
}

/// Biased 8-bit exponent of a single-precision bit pattern.
pub open spec fn f32_exponent(b: u32) -> int {
    (b as int / 0x80_0000) % 0x100
}

/// 23-bit mantissa of a single-precision bit pattern.
pub open spec fn f32_mantissa(b: u32) -> int {
    b as int % 0x80_0000
}

/// The single-precision bit pattern with the given fields.
pub open spec fn f32_compose(sign: int, exponent: int, mantissa: int) -> int {
    sign * 0x8000_0000 + exponent * 0x80_0000 + mantissa
}

/// Sign bit of a half-precision bit pattern.
pub open spec fn f16_sign(h: u16) -> int {
    h as int / 0x8000
}

/// Biased 5-bit exponent of a half-precision bit pattern.
pub open spec fn f16_exponent(h: u16) -> int {
    (h as int / 0x400) % 0x20
}

/// 10-bit mantissa of a half-precision bit pattern.
pub open spec fn f16_mantissa(h: u16) -> int {
    h as int % 0x400
}

/// The half-precision bit pattern with the given fields.
pub open spec fn f16_compose(sign: int, exponent: int, mantissa: int) -> int {
    sign * 0x8000 + exponent * 0x400 + mantissa
}

/// Half-precision exponent and mantissa for single-precision exponent `e` and
/// mantissa `m`. The exponent is rebiased from 127 to 15; NaN becomes the
/// quiet NaN, values too large become infinity, normal values keep the top
/// ten mantissa bits (truncation), values below the normal range become
/// subnormals by shifting the mantissa with its implicit leading one, and
/// values below the subnormal range become zero.
pub open spec fn f16_fields_of(e: int, m: int) -> (int, int) {
    if e == 0xFF {
        if m == 0 {
            (0x1F, 0)
        } else {
            (0x1F, 0x200)
        }
    } else if e >= 143 {
        (0x1F, 0)
    } else if e >= 113 {
        (e - 112, m / 0x2000)
    } else if e >= 102 {
        (0, (m + 0x80_0000) / pow2((126 - e) as nat) as int)
    } else {
        (0, 0)
    }
}

/// Number of doublings that bring a subnormal half-precision mantissa `m`
/// (`0 < m < 0x400`) to its normalised position `0x400 <= m < 0x800`.
pub open spec fn subnormal_shift(m: int) -> nat
    decreases (if m < 0x400 {
        0x400 - m
    } else {
        0
    }),
{
    if 0 < m < 0x400 {
        1 + subnormal_shift(2 * m)
    } else {
        0
    }
}

/// Single-precision exponent and mantissa for half-precision exponent `e`
/// and mantissa `m`: zero stays zero, subnormals are normalised, infinity
/// stays infinity, NaN becomes the quiet NaN, and normal values are rebiased
/// with their mantissa widened.
pub open spec fn f32_fields_of(e: int, m: int) -> (int, int) {
    if e == 0 {
        if m == 0 {
            (0, 0)
        } else {
            let s = subnormal_shift(m);
            (113 - s, (m * pow2(s) - 0x400) * 0x2000)
        }
    } else if e == 0x1F {
        if m == 0 {
            (0xFF, 0)
        } else {
            (0xFF, 0x40_0000)
        }
    } else {
        (e + 112, m * 0x2000)
    }
}

/// Half-precision bit pattern of the single-precision value with bits `b`.
pub open spec fn f16_of_f32(b: u32) -> int {
    let fields = f16_fields_of(f32_exponent(b), f32_mantissa(b));
    f16_compose(f32_sign(b), fields.0, fields.1)
}

/// Single-precision bit pattern of the half-precision value with bits `h`.
pub open spec fn f32_of_f16(h: u16) -> int {
    let fields = f32_fields_of(f16_exponent(h), f16_mantissa(h));
    f32_compose(f16_sign(h), fields.0, fields.1)
}

// === Bit-level facts ===

proof fn lemma_f32_field_bits(b: u32)
    by (bit_vector)
    ensures
        (b >> 31) & 1 == b / 0x8000_0000,
        (b >> 23) & 0xFF == (b / 0x80_0000) % 0x100,
        b & 0x7F_FFFF == b % 0x80_0000,
        b / 0x8000_0000 <= 1,
{
}

proof fn lemma_f16_field_bits(h: u16)
    by (bit_vector)
    ensures
        (h >> 15) & 1 == h / 0x8000,
        (h >> 10) & 0x1F == (h / 0x400) % 0x20,
        h & 0x3FF == h % 0x400,
        h / 0x8000 <= 1,
{
}

proof fn lemma_f32_compose_bits(s: u32, e: u32, m: u32)
    by (bit_vector)
    requires
        s <= 1,
        e < 0x100,
        m < 0x80_0000,
    ensures
        (s << 31) | (e << 23) | m == s * 0x8000_0000 + e * 0x80_0000 + m,
{
}

proof fn lemma_f16_compose_bits(s: u16, e: u16, m: u16)
    by (bit_vector)
    requires
        s <= 1,
        e < 0x20,
        m < 0x400,
    ensures
        (s << 15) | (e << 10) | m == s * 0x8000 + e * 0x400 + m,
{
}

proof fn lemma_shl13(m: u32)
    by (bit_vector)
    requires
        m < 0x400,
    ensures
        m << 13 == m * 0x2000,
{
}

proof fn lemma_subnormal_bits(m: u32)
    by (bit_vector)
    requires
        0 < m < 0x800,
    ensures
        ((m & 0x400) == 0) == (m < 0x400),
        m < 0x400 ==> (m << 1) == m * 2,
        m >= 0x400 ==> (m & 0x3FF) == m - 0x400,
{
}

proof fn lemma_or_implicit_bit(m: u32)
    by (bit_vector)
    requires
        m < 0x80_0000,
    ensures
        m | 0x80_0000 == m + 0x80_0000,
{
}

/// Fields of a composed single-precision pattern are the given fields.
proof fn lemma_f32_fields_of_compose(s: u32, e: u32, m: u32)
    by (bit_vector)
    requires
        s <= 1,
        e < 0x100,
        m < 0x80_0000,
    ensures
        (s * 0x8000_0000 + e * 0x80_0000 + m) as u32 / 0x8000_0000 == s,
        ((s * 0x8000_0000 + e * 0x80_0000 + m) as u32 / 0x80_0000) % 0x100 == e,
        (s * 0x8000_0000 + e * 0x80_0000 + m) as u32 % 0x80_0000 == m,
{
}

/// A half-precision pattern is the composition of its fields.
proof fn lemma_f16_decompose(h: u16)
    by (bit_vector)
    ensures
        h == (h / 0x8000) * 0x8000 + ((h / 0x400) % 0x20) * 0x400 + h % 0x400,
        h / 0x8000 <= 1,
{
}

/// A single-precision pattern is the composition of its fields.
proof fn lemma_f32_decompose(b: u32)
    by (bit_vector)
    ensures
        b == (b / 0x8000_0000) * 0x8000_0000 + ((b / 0x80_0000) % 0x100) * 0x80_0000 + b
            % 0x80_0000,
{
}

/// Normalising a subnormal mantissa takes between one and ten doublings and
/// lands in `[0x400, 0x800)`.
pub proof fn lemma_subnormal_shift(m: int)
    requires
        0 < m < 0x400,
    ensures
        1 <= subnormal_shift(m) <= 10,
        0x400 <= m * pow2(subnormal_shift(m)) < 0x800,
    decreases 0x400 - m,
{
    lemma_pow2_unfold(1);
    assert(pow2(0) == 1) by {
        vstd::arithmetic::power2::lemma2_to64();
    }
    if m >= 0x200 {
        assert(subnormal_shift(2 * m) == 0);
        assert(subnormal_shift(m) == 1);
        assert(pow2(1) == 2);
        assert(m * pow2(1) == 2 * m);
    } else {
        lemma_subnormal_shift(2 * m);
        let t = subnormal_shift(2 * m);
        assert(subnormal_shift(m) == t + 1);
        lemma_pow2_unfold(t + 1);
        assert(m * pow2(t + 1) == (2 * m) * pow2(t)) by (nonlinear_arith)
            requires
                pow2(t + 1) == 2 * pow2(t),
        ;
        if t == 10 {
            vstd::arithmetic::power2::lemma2_to64();
            assert((2 * m) * pow2(10) >= 2 * 1024) by (nonlinear_arith)
                requires
                    m >= 1,
                    pow2(10) == 1024,
            ;
        }
    }
}

/// Fields of a composed half-precision pattern are the given fields.
proof fn lemma_f16_fields_of_compose(s: u16, e: u16, m: u16)
    by (bit_vector)
    requires
        s <= 1,
        e < 0x20,
        m < 0x400,
    ensures
        (s * 0x8000 + e * 0x400 + m) as u16 / 0x8000 == s,
        ((s * 0x8000 + e * 0x400 + m) as u16 / 0x400) % 0x20 == e,
        (s * 0x8000 + e * 0x400 + m) as u16 % 0x400 == m,
{
}

/// Clearing the low thirteen mantissa bits of a single-precision pattern.
proof fn lemma_f32_truncate13(b: u32)
    by (bit_vector)
    ensures
        (b / 0x8000_0000) * 0x8000_0000 + ((b / 0x80_0000) % 0x100) * 0x80_0000 + ((b
            % 0x80_0000) / 0x2000) * 0x2000 == b - b % 0x2000,
{
}

/// The single-precision fields produced from a half-precision value are in
/// range, and reading them back from the composed pattern gives them again.
proof fn lemma_f32_of_f16_fields(h: u16)
    ensures
        ({
            let fields = f32_fields_of(f16_exponent(h), f16_mantissa(h));
            let b = f32_of_f16(h) as u32;
            &&& 0 <= fields.0 < 0x100
            &&& 0 <= fields.1 < 0x80_0000
            &&& 0 <= f32_of_f16(h) <= u32::MAX
            &&& f32_sign(b) == f16_sign(h)
            &&& f32_exponent(b) == fields.0
            &&& f32_mantissa(b) == fields.1
        }),
{
    let e = f16_exponent(h);
    let m = f16_mantissa(h);
    lemma_f16_decompose(h);
    if e == 0 && m != 0 {
        lemma_subnormal_shift(m);
        let p = pow2(subnormal_shift(m));
        assert((m * p - 0x400) * 0x2000 < 0x80_0000 && (m * p - 0x400) * 0x2000 >= 0)
            by (nonlinear_arith)
            requires
                0x400 <= m * p < 0x800,
        ;
    }
    assert(m * 0x2000 < 0x80_0000);
    let fields = f32_fields_of(e, m);
    lemma_f32_fields_of_compose(f16_sign(h) as u32, fields.0 as u32, fields.1 as u32);
}

/// A half-precision value converted to single precision and back is itself,
/// for every value but NaN.
pub proof fn lemma_f16_roundtrip(h: u16)
    requires
        !(f16_exponent(h) == 0x1F && f16_mantissa(h) != 0),
    ensures
        f16_of_f32(f32_of_f16(h) as u32) == h,
{
    let e = f16_exponent(h);
    let m = f16_mantissa(h);
    lemma_f16_decompose(h);
    lemma_f32_of_f16_fields(h);
    if e == 0 && m != 0 {
        let sh = subnormal_shift(m);
        lemma_subnormal_shift(m);
        lemma_pow2_adds(sh, 13);
        vstd::arithmetic::power2::lemma2_to64();
        let p = pow2(sh);
        let big = pow2(sh + 13);
        assert(big == p * 0x2000);
        assert((m * p - 0x400) * 0x2000 + 0x80_0000 == m * big) by (nonlinear_arith)
            requires
                big == p * 0x2000,
        ;
        assert(126 - (113 - sh) == sh + 13);
        lemma_pow2_pos(sh + 13);
        vstd::arithmetic::div_mod::lemma_div_multiples_vanish(m, big as int);
        assert((m * big) / (big as int) == m) by (nonlinear_arith)
            requires
                big > 0,
                (big * m) / (big as int) == m,
        ;
    }
}

/// Converting a half-precision NaN to single precision and back gives the
/// quiet NaN of the same sign.
pub proof fn lemma_f16_nan_roundtrip(h: u16)
    requires
        f16_exponent(h) == 0x1F,
        f16_mantissa(h) != 0,
    ensures
        f16_of_f32(f32_of_f16(h) as u32) == f16_sign(h) * 0x8000 + 0x7E00,
{
    lemma_f32_of_f16_fields(h);
}

/// A single-precision value in the normal half-precision range converted to
/// half precision and back loses exactly the low thirteen mantissa bits.
pub proof fn lemma_f32_roundtrip_truncates(b: u32)
    requires
        113 <= f32_exponent(b) <= 142,
    ensures
        f32_of_f16(f16_of_f32(b) as u16) == b - b % 0x2000,
{
    lemma_f32_decompose(b);
    lemma_f32_truncate13(b);
    let s = f32_sign(b);
    let e = f32_exponent(b);
    let m = f32_mantissa(b);
    assert(0 <= s <= 1);
    assert(m / 0x2000 < 0x400);
    lemma_f16_fields_of_compose(s as u16, (e - 112) as u16, (m / 0x2000) as u16);
}

/// Signed zeros and infinities survive the trip to half precision and back.
pub proof fn lemma_f32_special_roundtrip(b: u32)
    requires
        f32_mantissa(b) == 0,
        f32_exponent(b) == 0 || f32_exponent(b) == 0xFF,
    ensures
        f32_of_f16(f16_of_f32(b) as u16) == b,
{
    lemma_f32_decompose(b);
    let s = f32_sign(b);
    assert(0 <= s <= 1);
    if f32_exponent(b) == 0 {
        lemma_f16_fields_of_compose(s as u16, 0, 0);
    } else {
        lemma_f16_fields_of_compose(s as u16, 0x1F, 0);
    }
}

// === The codec ===

/// Convert the bits of an `f32` to IEEE 754 half-precision bits.
///
/// Normal values keep the top ten mantissa bits (truncation); values beyond
/// the half-precision range become infinity, values below it subnormals or
/// zero, and NaN the quiet NaN, all with the sign kept.
pub fn f32_bits_to_f16_bits(bits32: u32) -> (r: u16)
    ensures
        r as int == f16_of_f32(bits32),
{
    proof {
        lemma_f32_field_bits(bits32);
    }
    let sign: u16 = ((bits32 >> 31) & 0x1) as u16;
    let exp32: i32 = ((bits32 >> 23) & 0xFF) as i32;
    let mant32: u32 = bits32 & 0x7FFFFF;
    let ghost fields = f16_fields_of(exp32 as int, mant32 as int);

    // Handle special cases
    if exp32 == 0xFF {
        // Inf or NaN
        if mant32 == 0 {
            proof {
                lemma_f16_compose_bits(sign, 0x1F, 0);
                assert((sign << 15) | 0x7C00 == (sign << 15) | (0x1Fu16 << 10) | 0u16) by (bit_vector);
            }
            return (sign << 15) | 0x7C00;
        } else {
            proof {
                lemma_f16_compose_bits(sign, 0x1F, 0x200);
                assert((sign << 15) | 0x7E00 == (sign << 15) | (0x1Fu16 << 10) | 0x200u16) by (bit_vector);
            }
            return (sign << 15) | 0x7E00;
        }
    }
    // Rebias exponent: f32 bias=127, f16 bias=15

    let exp16: i32 = exp32 - 127 + 15;

    if exp16 >= 31 {
        // Overflow -> Inf
        proof {
            lemma_f16_compose_bits(sign, 0x1F, 0);
            assert((sign << 15) | 0x7C00 == (sign << 15) | (0x1Fu16 << 10) | 0u16) by (bit_vector);
        }
        return (sign << 15) | 0x7C00;
    } else if exp16 <= 0 {
        // Underflow -> subnormal or zero
        if exp16 < -10 {
            proof {
                lemma_f16_compose_bits(sign, 0, 0);
                assert(sign << 15 == (sign << 15) | (0u16 << 10) | 0u16) by (bit_vector);
            }
            return sign << 15;
        }
        // Subnormal: shift mantissa
        let shift: u32 = (1 - exp16 + 13) as u32;
        proof {
            lemma_or_implicit_bit(mant32);
            vstd::bits::lemma_u32_shr_is_div(mant32 | 0x800000, shift);
            lemma_pow2_pos(shift as nat);
            vstd::arithmetic::power2::lemma2_to64();
            assert(pow2(14) == 0x4000);
            if shift > 14 {
                vstd::arithmetic::power2::lemma_pow2_strictly_increases(14, shift as nat);
            }
            vstd::arithmetic::div_mod::lemma_div_is_ordered(
                (mant32 + 0x80_0000) as int,
                0xFF_FFFF,
                pow2(shift as nat) as int,
            );
            vstd::arithmetic::div_mod::lemma_div_is_ordered_by_denominator(
                0xFF_FFFF,
                0x4000,
                pow2(shift as nat) as int,
            );
            assert(0xFF_FFFFint / 0x4000 == 0x3FF);
        }
        let mant_shifted: u32 = (mant32 | 0x800000) >> shift;
        proof {
            lemma_f16_compose_bits(sign, 0, mant_shifted as u16);
            assert(sign << 15 | (mant_shifted as u16) == (sign << 15) | (0u16 << 10) | (
            mant_shifted as u16)) by (bit_vector);
        }
        return (sign << 15) | (mant_shifted as u16);
    }
    // Normal case

    let mant16: u16 = (mant32 >> 13) as u16;
    proof {
        assert(mant32 >> 13 == mant32 / 0x2000 && mant32 / 0x2000 < 0x400) by (bit_vector)
            requires
                mant32 < 0x80_0000,
        ;
        lemma_f16_compose_bits(sign, exp16 as u16, mant16);
    }
    (sign << 15) | ((exp16 as u16) << 10) | mant16
}

/// Convert IEEE 754 half-precision bits back to the bits of an `f32`.
///
/// Every half-precision value is exactly representable in single precision;
/// only NaN payloads are replaced by the quiet NaN.
pub fn f16_bits_to_f32_bits(bits: u16) -> (r: u32)
    ensures
        r as int == f32_of_f16(bits),
{
    proof {
        lemma_f16_field_bits(bits);
    }
    let sign: u32 = ((bits >> 15) & 0x1) as u32;
    let exp: i32 = ((bits >> 10) & 0x1F) as i32;
    let mant: u32 = (bits & 0x3FF) as u32;

    let result_bits: u32 = if exp == 0 {
        if mant == 0 {
            // Zero
            proof {
                lemma_f32_compose_bits(sign, 0, 0);
                assert(sign << 31 == (sign << 31) | (0u32 << 23) | 0u32) by (bit_vector);
            }
            sign << 31
        } else {
            // Subnormal: normalize
            let mut e: i32 = 0;
            let mut m: u32 = mant;
            proof {
                lemma_subnormal_shift(mant as int);
                assert(pow2(0) == 1) by {
                    vstd::arithmetic::power2::lemma2_to64();
                }
                assert(mant * pow2(0) == mant);
                assert((-e) as nat == 0);
            }
            while (m & 0x400) == 0
                invariant
                    0 < mant < 0x400,
                    0 < m < 0x800,
                    -10 <= e <= 0,
                    m as int == mant * pow2((-e) as nat),
                    (-e) + subnormal_shift(m as int) == subnormal_shift(mant as int),
                    subnormal_shift(mant as int) <= 10,
                decreases 0x800 - m,
            {
                proof {
                    lemma_subnormal_bits(m);
                    lemma_pow2_unfold((-e + 1) as nat);
                    assert(subnormal_shift(m as int) == 1 + subnormal_shift(2 * m));
                    assert(mant * pow2((-e + 1) as nat) == 2 * (mant * pow2((-e) as nat)))
                        by (nonlinear_arith)
                        requires
                            pow2((-e + 1) as nat) == 2 * pow2((-e) as nat),
                    ;
                }
                m <<= 1;
                e -= 1;
            }
            proof {
                lemma_subnormal_bits(m);
            }
            m &= 0x3FF;
            let exp32: u32 = (127 - 15 + 1 + e) as u32;
            proof {
                lemma_shl13(m);
                lemma_f32_compose_bits(sign, exp32, m << 13);
            }
            (sign << 31) | (exp32 << 23) | (m << 13)
        }
    } else if exp == 31 {
        // Inf or NaN
        if mant == 0 {
            proof {
                lemma_f32_compose_bits(sign, 0xFF, 0);
                assert((sign << 31) | 0x7F80_0000 == (sign << 31) | (0xFFu32 << 23) | 0u32) by (bit_vector);
            }
            (sign << 31) | 0x7F800000
        } else {
            proof {
                lemma_f32_compose_bits(sign, 0xFF, 0x40_0000);
                assert((sign << 31) | 0x7FC0_0000 == (sign << 31) | (0xFFu32 << 23) | 0x40_0000u32)
                    by (bit_vector);
            }
            (sign << 31) | 0x7FC00000
        }
    } else {
        // Normal
        let exp32: u32 = (exp - 15 + 127) as u32;
        proof {
            lemma_shl13(mant);
            lemma_f32_compose_bits(sign, exp32, mant << 13);
        }
        (sign << 31) | (exp32 << 23) | (mant << 13)
    };
    result_bits
}

/// Number of non-zero entries of a sequence of signs.
pub open spec fn count_nonzero(s: Seq<i8>) -> int
    decreases s.len(),
{
    if s.len() == 0 {
        0
    } else {
        count_nonzero(s.drop_last()) + if s.last() != 0 {
            1int
        } else {
            0
        }
    }
}

/// Appending a sign adds one to the non-zero count exactly when the sign is
/// non-zero; no signs count none.
pub proof fn lemma_count_nonzero_push(s: Seq<i8>, x: i8)
    ensures
        count_nonzero(Seq::<i8>::empty()) == 0,
        count_nonzero(s.push(x)) == count_nonzero(s) + if x != 0 {
            1int
        } else {
            0
        },
{
    assert(s.push(x).drop_last() =~= s);
}

/// Every stored sign is -1, 0 or +1.
pub open spec fn all_ternary(s: Seq<i8>) -> bool {
    forall|i: int| 0 <= i < s.len() ==> -1 <= #[trigger] s[i] <= 1
}

/// The integer storage of a ternary adapter: an `in_dim x out_dim` matrix of
/// ternary signs (one byte each) and of FP16 residuals (their 16 bits), both
/// row-major.
///
/// The matrices always hold `in_dim * out_dim` entries each, and every sign
/// is -1, 0 or +1.
#[derive(Debug)]
pub struct TernaryCodes {
    in_dim: usize,
    out_dim: usize,
    signs: Vec<i8>,
    residuals: Vec<u16>,
}

impl TernaryCodes {
    #[verifier::type_invariant]
    spec fn well_formed(self) -> bool {
        &&& self.in_dim * self.out_dim <= usize::MAX
        &&& self.signs@.len() == self.in_dim * self.out_dim
        &&& self.residuals@.len() == self.in_dim * self.out_dim
        &&& all_ternary(self.signs@)
    }

    /// Input dimension.
    pub closed spec fn spec_in_dim(self) -> nat {
        self.in_dim as nat
    }

    /// Output dimension.
    pub closed spec fn spec_out_dim(self) -> nat {
        self.out_dim as nat
    }

    /// The signs, row-major.
    pub closed spec fn spec_signs(self) -> Seq<i8> {
        self.signs@
    }

    /// The FP16 residual bit patterns, row-major.
    pub closed spec fn spec_residuals(self) -> Seq<u16> {
        self.residuals@
    }

    /// A copy of this storage.
    pub fn duplicate(&self) -> (r: Self)
        ensures
            r.spec_in_dim() == self.spec_in_dim(),
            r.spec_out_dim() == self.spec_out_dim(),
            r.spec_signs() == self.spec_signs(),
            r.spec_residuals() == self.spec_residuals(),
    {
        proof {
            use_type_invariant(self);
        }
        let signs: Vec<i8> = self.signs.clone();
        let residuals: Vec<u16> = self.residuals.clone();
        proof {
            assert(signs@ =~= self.signs@);
            assert(residuals@ =~= self.residuals@);
        }
        TernaryCodes { in_dim: self.in_dim, out_dim: self.out_dim, signs, residuals }
    }

    /// An all-zero adapter storage: every sign zero, every residual the FP16
    /// zero `0x0000`.
    pub fn zeros(in_dim: usize, out_dim: usize) -> (r: Self)
        requires
            in_dim * out_dim <= usize::MAX,
        ensures
            r.spec_in_dim() == in_dim,
            r.spec_out_dim() == out_dim,
            r.spec_signs() == Seq::new((in_dim * out_dim) as nat, |i: int| 0i8),
            r.spec_residuals() == Seq::new((in_dim * out_dim) as nat, |i: int| 0u16),
    {
        let n: usize = in_dim * out_dim;
        let mut signs: Vec<i8> = Vec::new();
        let mut residuals: Vec<u16> = Vec::new();
        let mut i: usize = 0;
        while i < n
            invariant
                i <= n,
                signs@ == Seq::new(i as nat, |j: int| 0i8),
                residuals@ == Seq::new(i as nat, |j: int| 0u16),
            decreases n - i,
        {
            signs.push(0);
            residuals.push(0);
            i = i + 1;
            proof {
                assert(signs@ =~= Seq::new(i as nat, |j: int| 0i8));
                assert(residuals@ =~= Seq::new(i as nat, |j: int| 0u16));
            }
        }
        TernaryCodes { in_dim, out_dim, signs, residuals }
    }

    /// Storage from row-major signs and FP16 residual bits.
    pub fn from_entries(
        in_dim: usize,
        out_dim: usize,
        signs: Vec<TernarySign>,
        residuals: Vec<u16>,
    ) -> (r: Self)
        requires
            in_dim * out_dim <= usize::MAX,
            signs@.len() == in_dim * out_dim,
            residuals@.len() == in_dim * out_dim,
        ensures
            r.spec_in_dim() == in_dim,
            r.spec_out_dim() == out_dim,
            r.spec_signs().len() == signs@.len(),
            forall|i: int| 0 <= i < signs@.len() ==> r.spec_signs()[i] == sign_value(#[trigger] signs@[i]),
            r.spec_residuals() == residuals@,
    {
        let mut bytes: Vec<i8> = Vec::new();
        let mut i: usize = 0;
        while i < signs.len()
            invariant
                i <= signs@.len(),
                bytes@.len() == i,
                forall|j: int| 0 <= j < i ==> bytes@[j] == sign_value(#[trigger] signs@[j]),
            decreases signs@.len() - i,
        {
            bytes.push(signs[i].to_i8());
            i = i + 1;
        }
        proof {
            assert forall|j: int| 0 <= j < bytes@.len() implies -1 <= #[trigger] bytes@[j] <= 1 by {
                assert(bytes@[j] == sign_value(signs@[j]));
            }
        }
        TernaryCodes { in_dim, out_dim, signs: bytes, residuals }
    }

    /// Input dimension.
    pub fn in_dim(&self) -> (r: usize)
        ensures
            r == self.spec_in_dim(),
    {
        self.in_dim
    }

    /// Output dimension.
    pub fn out_dim(&self) -> (r: usize)
        ensures
            r == self.spec_out_dim(),
    {
        self.out_dim
    }

    /// Number of parameters.
    pub fn num_params(&self) -> (r: usize)
        ensures
            r == self.spec_in_dim() * self.spec_out_dim(),
    {
        proof {
            use_type_invariant(self);
        }
        self.in_dim * self.out_dim
    }

    /// The signs, row-major.
    pub fn signs(&self) -> (r: &Vec<i8>)
        ensures
            r@ == self.spec_signs(),
            r@.len() == self.spec_in_dim() * self.spec_out_dim(),
            all_ternary(r@),
    {
        proof {
            use_type_invariant(self);
        }
        &self.signs
    }

    /// The FP16 residual bit patterns, row-major.
    pub fn residuals(&self) -> (r: &Vec<u16>)
        ensures
            r@ == self.spec_residuals(),
            r@.len() == self.spec_in_dim() * self.spec_out_dim(),
    {
        proof {
            use_type_invariant(self);
        }
        &self.residuals
    }

    /// Sign stored at row-major index `idx`.
    pub fn sign_at(&self, idx: usize) -> (r: i8)
        requires
            idx < self.spec_in_dim() * self.spec_out_dim(),
        ensures
            r == self.spec_signs()[idx as int],
            -1 <= r <= 1,
    {
        proof {
            use_type_invariant(self);
        }
        self.signs[idx]
    }

    /// Residual bits stored at row-major index `idx`.
    pub fn residual_at(&self, idx: usize) -> (r: u16)
        requires
            idx < self.spec_in_dim() * self.spec_out_dim(),
        ensures
            r == self.spec_residuals()[idx as int],
    {
        proof {
            use_type_invariant(self);
        }
        self.residuals[idx]
    }

    /// Replace the entry at row-major index `idx` with a new sign and
    /// residual.
    pub fn set(&mut self, idx: usize, sign: TernarySign, residual: u16)
        requires
            idx < old(self).spec_in_dim() * old(self).spec_out_dim(),
        ensures
            final(self).spec_in_dim() == old(self).spec_in_dim(),
            final(self).spec_out_dim() == old(self).spec_out_dim(),
            final(self).spec_signs() == old(self).spec_signs().update(idx as int, sign_value(sign) as i8),
            final(self).spec_residuals() == old(self).spec_residuals().update(idx as int, residual),
    {
        proof {
            use_type_invariant(&*self);
        }
        let s: i8 = sign.to_i8();
        let mut taken = TernaryCodes { in_dim: 0, out_dim: 0, signs: Vec::new(), residuals: Vec::new() };
        std::mem::swap(self, &mut taken);
        let TernaryCodes { in_dim, out_dim, mut signs, mut residuals } = taken;
        signs.set(idx, s);
        residuals.set(idx, residual);
        proof {
            assert forall|i: int| 0 <= i < signs@.len() implies -1 <= #[trigger] signs@[i] <= 1 by {
                if i != idx {
                    assert(old(self).signs@[i] == signs@[i]);
                }
            }
        }
        *self = TernaryCodes { in_dim, out_dim, signs, residuals };
    }

    /// Number of non-zero signs.
    pub fn nonzero_count(&self) -> (r: usize)
        ensures
            r == count_nonzero(self.spec_signs()),
            r <= self.spec_in_dim() * self.spec_out_dim(),
    {
        proof {
            use_type_invariant(self);
        }
        let mut count: usize = 0;
        let mut i: usize = 0;
        while i < self.signs.len()
            invariant
                i <= self.signs@.len(),
                count == count_nonzero(self.signs@.subrange(0, i as int)),
                count <= i,
            decreases self.signs@.len() - i,
        {
            proof {
                assert(self.signs@.subrange(0, i + 1).drop_last() =~= self.signs@.subrange(
                    0,
                    i as int,
                ));
            }
            if self.signs[i] != 0 {
                count = count + 1;
            }
            i = i + 1;
        }
        proof {
            assert(self.signs@.subrange(0, i as int) =~= self.signs@);
        }
        count
    }

    /// Bytes of the sign and residual matrices: one byte per sign and two per
    /// residual.
    pub fn entry_bytes(&self) -> (r: usize)
        requires
            self.spec_in_dim() * self.spec_out_dim() * 3 <= usize::MAX,
        ensures
            r == self.spec_in_dim() * self.spec_out_dim() * 3,
    {
        proof {
            use_type_invariant(self);
        }
        let n: usize = self.in_dim * self.out_dim;
        let signs_bytes: usize = n * 1;
        let resid_bytes: usize = n * 2;
        signs_bytes + resid_bytes
    }

    /// Equivalent FP32 memory for comparison.
    pub fn fp32_equivalent_bytes(&self) -> (r: usize)
        requires
            self.spec_in_dim() * self.spec_out_dim() * 4 <= usize::MAX,
        ensures
            r == self.spec_in_dim() * self.spec_out_dim() * 4,
    {
        proof {
            use_type_invariant(self);
        }
        self.in_dim * self.out_dim * 4
    }
}

/// The sign and residual matrices of a non-empty adapter take three quarters
/// of the bytes of the same matrix in FP32.
pub proof fn lemma_entries_smaller_than_fp32(codes: TernaryCodes)
    requires
        codes.spec_in_dim() * codes.spec_out_dim() > 0,
    ensures
        codes.spec_in_dim() * codes.spec_out_dim() * 3 < codes.spec_in_dim() * codes.spec_out_dim()
            * 4,
{
}

} // verus!
