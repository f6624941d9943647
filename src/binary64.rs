//! IEEE-754 binary64 values held as their bit patterns.
//!
//! The registration's parameters and signals (outlier weight, thresholds, error change, sigma2)
//! are doubles. The library receives them as `u64` bit patterns (`f64::to_bits`) and decides on
//! them here, against an exact model of what each pattern denotes: every finite double is an
//! integer multiple of 2^-1074, so `scaled_value(b)` (the value times 2^1074) is an integer.
use vstd::arithmetic::mul::{lemma_mul_inequality, lemma_mul_strict_inequality};
use vstd::arithmetic::power2::{
    lemma2_to64,
    lemma_pow2_adds,
    lemma_pow2_pos,
    lemma_pow2_strictly_increases,
    lemma_pow2_unfold,
    pow2,
};
use vstd::prelude::*;

verus! {

/// The sign bit.
pub const SIGN_BIT: u64 = 0x8000_0000_0000_0000;

/// The bit pattern of positive infinity; above it (without the sign) lie the NaNs.
pub const INFINITY_BITS: u64 = 0x7FF0_0000_0000_0000;

/// The bit pattern of 1.0.
pub const ONE_BITS: u64 = 0x3FF0_0000_0000_0000;

/// The pattern without its sign bit.
pub open spec fn magnitude_bits(b: u64) -> nat {
    (b as nat) % 0x8000_0000_0000_0000
}

/// The sign bit is set (this includes -0.0 and the NaNs that carry it).
pub open spec fn is_negative(b: u64) -> bool {
    b >= 0x8000_0000_0000_0000
}

/// The biased exponent, bits 52 to 62.
pub open spec fn exponent_field(b: u64) -> nat {
    magnitude_bits(b) / 0x10_0000_0000_0000
}

/// The stored fraction, bits 0 to 51.
pub open spec fn fraction_field(b: u64) -> nat {
    magnitude_bits(b) % 0x10_0000_0000_0000
}

pub open spec fn is_nan(b: u64) -> bool {
    exponent_field(b) == 0x7FF && fraction_field(b) != 0
}

pub open spec fn is_infinite(b: u64) -> bool {
    exponent_field(b) == 0x7FF && fraction_field(b) == 0
}

pub open spec fn is_finite(b: u64) -> bool {
    exponent_field(b) < 0x7FF
}

/// The significand as an integer: the fraction, with the implicit leading bit of a normal
/// number.
pub open spec fn significand(b: u64) -> nat {
    if exponent_field(b) == 0 {
        fraction_field(b)
    } else {
        fraction_field(b) + 0x10_0000_0000_0000
    }
}

/// For a finite pattern, its absolute value times 2^1074.
pub open spec fn scaled_magnitude(b: u64) -> nat {
    let e = exponent_field(b);
    significand(b) * pow2(if e == 0 { 0 } else { (e - 1) as nat })
}

/// For a finite pattern, its value times 2^1074.
pub open spec fn scaled_value(b: u64) -> int {
    if is_negative(b) {
        -scaled_magnitude(b)
    } else {
        scaled_magnitude(b) as int
    }
}

/// The value 1.0, times 2^1074.
pub open spec fn scaled_one() -> nat {
    pow2(1074)
}

/// The pattern denotes a number `x` with `0 <= x <= 1`.
pub open spec fn in_unit_interval(b: u64) -> bool {
    is_finite(b) && 0 <= scaled_value(b) && scaled_value(b) <= scaled_one()
}

pub open spec fn is_negative_infinity(b: u64) -> bool {
    is_infinite(b) && is_negative(b)
}

pub open spec fn is_positive_infinity(b: u64) -> bool {
    is_infinite(b) && !is_negative(b)
}

/// `a < b` over the extended reals; false whenever either side is NaN.
pub open spec fn less(a: u64, b: u64) -> bool {
    &&& !is_nan(a)
    &&& !is_nan(b)
    &&& {
        ||| is_negative_infinity(a) && !is_negative_infinity(b)
        ||| is_positive_infinity(b) && !is_positive_infinity(a)
        ||| is_finite(a) && is_finite(b) && scaled_value(a) < scaled_value(b)
    }
}

proof fn lemma_fields(b: u64)
    ensures
        magnitude_bits(b) < 0x8000_0000_0000_0000,
        magnitude_bits(b) == exponent_field(b) * 0x10_0000_0000_0000 + fraction_field(b),
        fraction_field(b) < 0x10_0000_0000_0000,
        exponent_field(b) <= 0x7FF,
        is_negative(b) ==> magnitude_bits(b) == b - 0x8000_0000_0000_0000,
        !is_negative(b) ==> magnitude_bits(b) == b,
        is_nan(b) <==> magnitude_bits(b) > 0x7FF0_0000_0000_0000,
        is_infinite(b) <==> magnitude_bits(b) == 0x7FF0_0000_0000_0000,
        is_finite(b) <==> magnitude_bits(b) < 0x7FF0_0000_0000_0000,
{
}

/// A zero magnitude is exactly the pattern of a signed zero.
proof fn lemma_zero(b: u64)
    ensures
        scaled_magnitude(b) == 0 <==> magnitude_bits(b) == 0,
{
    lemma_fields(b);
    let e = exponent_field(b);
    let k: nat = if e == 0 { 0 } else { (e - 1) as nat };
    lemma_pow2_pos(k);
    if magnitude_bits(b) != 0 {
        assert(significand(b) > 0);
        lemma_mul_strict_inequality(0, significand(b) as int, pow2(k) as int);
        assert(0 * pow2(k) == 0);
    }
}

/// Among finite patterns without sign, a larger pattern denotes a larger number.
proof fn lemma_monotone(x: u64, y: u64)
    requires
        magnitude_bits(x) < magnitude_bits(y),
        is_finite(y),
    ensures
        scaled_magnitude(x) < scaled_magnitude(y),
{
    lemma_fields(x);
    lemma_fields(y);
    let ex = exponent_field(x);
    let ey = exponent_field(y);
    let sx = significand(x);
    let sy = significand(y);
    let kx: nat = if ex == 0 { 0 } else { (ex - 1) as nat };
    let ky: nat = if ey == 0 { 0 } else { (ey - 1) as nat };
    lemma_pow2_pos(kx);
    lemma_pow2_pos(ky);
    assert(ex < ey || (ex == ey && fraction_field(x) < fraction_field(y)));
    if ex == ey || ey == 1 {
        assert(kx == ky);
        assert(sx < sy);
        lemma_mul_strict_inequality(sx as int, sy as int, pow2(kx) as int);
    } else {
        assert(kx + 1 <= ky);
        lemma2_to64();
        lemma_pow2_adds(32, 20);
        lemma_pow2_adds(32, 21);
        assert(pow2(52) == 0x10_0000_0000_0000);
        assert(pow2(53) == 0x20_0000_0000_0000);
        assert(sx < pow2(53));
        lemma_mul_strict_inequality(sx as int, pow2(53) as int, pow2(kx) as int);
        lemma_pow2_adds(53, kx);
        lemma_pow2_adds(52, kx + 1);
        if kx + 1 < ky {
            lemma_pow2_strictly_increases(kx + 1, ky);
        }
        assert(pow2(52 + kx + 1) <= pow2(52) * pow2(ky)) by {
            lemma_mul_inequality(pow2(kx + 1) as int, pow2(ky) as int, pow2(52) as int);
        }
        assert(pow2(52) <= sy);
        lemma_mul_inequality(pow2(52) as int, sy as int, pow2(ky) as int);
    }
}

/// The pattern of 1.0 denotes 1.
proof fn lemma_one()
    ensures
        is_finite(ONE_BITS),
        scaled_magnitude(ONE_BITS) == scaled_one(),
{
    assert(exponent_field(ONE_BITS) == 1023);
    assert(fraction_field(ONE_BITS) == 0);
    lemma2_to64();
    lemma_pow2_adds(32, 20);
    lemma_pow2_adds(52, 1022);
}

/// The doubles in [0, 1] are exactly the patterns from +0.0 up to 1.0, and -0.0.
pub proof fn lemma_unit_interval_patterns(b: u64)
    ensures
        in_unit_interval(b) <==> (b <= ONE_BITS || b == SIGN_BIT),
{
    lemma_fields(b);
    lemma_fields(ONE_BITS);
    lemma_one();
    lemma_zero(b);
    if !is_negative(b) && b < ONE_BITS {
        lemma_monotone(b, ONE_BITS);
    }
    if !is_negative(b) && b > ONE_BITS && is_finite(b) {
        lemma_monotone(ONE_BITS, b);
    }
}

/// Whether the double with pattern `b` lies in [0, 1]; NaN and the infinities do not.
pub fn is_in_unit_interval(b: u64) -> (r: bool)
    ensures
        r == in_unit_interval(b),
{
    proof {
        lemma_unit_interval_patterns(b);
    }
    b <= ONE_BITS || b == SIGN_BIT
}

/// `less` on patterns: NaN compares with nothing; two non-negative patterns compare as
/// integers, two negative ones in reverse; a negative pattern lies below a non-negative one
/// unless both are zeros.
pub open spec fn less_by_patterns(a: u64, b: u64) -> bool {
    let ma = (a as nat) % 0x8000_0000_0000_0000;
    let mb = (b as nat) % 0x8000_0000_0000_0000;
    if ma > 0x7FF0_0000_0000_0000 || mb > 0x7FF0_0000_0000_0000 {
        false
    } else if !is_negative(a) && !is_negative(b) {
        ma < mb
    } else if is_negative(a) && is_negative(b) {
        mb < ma
    } else if is_negative(a) {
        !(ma == 0 && mb == 0)
    } else {
        false
    }
}

/// The order of doubles read off their bit patterns.
pub proof fn lemma_less_patterns(a: u64, b: u64)
    ensures
        less(a, b) <==> less_by_patterns(a, b),
{
    lemma_fields(a);
    lemma_fields(b);
    lemma_zero(a);
    lemma_zero(b);
    let ma = magnitude_bits(a);
    let mb = magnitude_bits(b);
    if ma < mb && mb < 0x7FF0_0000_0000_0000 {
        lemma_monotone(a, b);
    }
    if mb < ma && ma < 0x7FF0_0000_0000_0000 {
        lemma_monotone(b, a);
    }
}

/// Whether `a < b` holds of the doubles with these patterns, as `<` on `f64` decides it.
pub fn is_less(a: u64, b: u64) -> (r: bool)
    ensures
        r == less(a, b),
{
    proof {
        lemma_less_patterns(a, b);
    }
    let ma: u64 = a % SIGN_BIT;
    let mb: u64 = b % SIGN_BIT;
    let negative_a = a >= SIGN_BIT;
    let negative_b = b >= SIGN_BIT;
    if ma > INFINITY_BITS || mb > INFINITY_BITS {
        false
    } else if !negative_a && !negative_b {
        ma < mb
    } else if negative_a && negative_b {
        mb < ma
    } else if negative_a {
        !(ma == 0 && mb == 0)
    } else {
        false
    }
}

} // verus!
