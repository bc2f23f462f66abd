//! IEEE-754 binary64 numbers held by their bit pattern (`f64::to_bits`).
//!
//! The value of a finite number is represented exactly as an integer
//! multiple of 2^-1074 (the smallest subnormal), so ordering and rounding
//! are stated over integers.
use vstd::arithmetic::div_mod::*;
use vstd::arithmetic::mul::*;
use vstd::arithmetic::power2::*;
use vstd::prelude::*;

verus! {

/// The sign bit.
pub const SIGN_BIT: u64 = 0x8000_0000_0000_0000;

/// 2^52, the span of the fraction field.
pub const FRACTION_SPAN: u64 = 0x10_0000_0000_0000;

/// The biased exponent shared by infinities and NaNs.
pub const MAX_EXPONENT: u64 = 2047;

/// Bits of negative infinity.
pub const NEG_INFINITY_BITS: u64 = 0xFFF0_0000_0000_0000;

/// Bits of 70.0.
pub const SEVENTY_BITS: u64 = 0x4051_8000_0000_0000;

/// Bits of 90.0.
pub const NINETY_BITS: u64 = 0x4056_8000_0000_0000;

/// The bits without the sign.
pub open spec fn abs_bits(b: u64) -> int {
    (b as int) % 0x8000_0000_0000_0000
}

/// The biased exponent field.
pub open spec fn biased_exponent(b: u64) -> int {
    abs_bits(b) / 0x10_0000_0000_0000
}

/// The fraction field.
pub open spec fn fraction(b: u64) -> int {
    (b as int) % 0x10_0000_0000_0000
}

/// Whether the sign bit is set.
pub open spec fn is_negative(b: u64) -> bool {
    b >= 0x8000_0000_0000_0000
}

/// Not a number.
pub open spec fn is_nan(b: u64) -> bool {
    biased_exponent(b) == 2047 && fraction(b) != 0
}

/// Positive or negative infinity.
pub open spec fn is_infinite(b: u64) -> bool {
    biased_exponent(b) == 2047 && fraction(b) == 0
}

/// Neither infinite nor NaN.
pub open spec fn is_finite(b: u64) -> bool {
    biased_exponent(b) < 2047
}

/// |value| * 2^1074 of a finite number (an integer).
pub open spec fn magnitude(b: u64) -> int {
    magnitude_of(biased_exponent(b), fraction(b))
}

/// |value| * 2^1074 for a biased exponent and fraction.
pub open spec fn magnitude_of(e: int, f: int) -> int {
    if e == 0 {
        f
    } else {
        (0x10_0000_0000_0000 + f) * pow2((e - 1) as nat)
    }
}

/// value * 2^1074 of a finite number.
pub open spec fn scaled_value(b: u64) -> int {
    if is_negative(b) {
        -magnitude(b)
    } else {
        magnitude(b)
    }
}

/// The extended real line, each finite value scaled by 2^1074.
pub enum Extended {
    NegInf,
    Finite(int),
    PosInf,
}

/// The value of a number that is not NaN.
pub open spec fn extended(b: u64) -> Extended {
    if is_infinite(b) {
        if is_negative(b) {
            Extended::NegInf
        } else {
            Extended::PosInf
        }
    } else {
        Extended::Finite(scaled_value(b))
    }
}

/// Order on the extended reals.
pub open spec fn ext_le(x: Extended, y: Extended) -> bool {
    match (x, y) {
        (Extended::NegInf, _) => true,
        (_, Extended::PosInf) => true,
        (Extended::Finite(a), Extended::Finite(b)) => a <= b,
        _ => false,
    }
}

/// An integer that orders numbers that are not NaN as their values do.
pub open spec fn order_key(b: u64) -> int {
    if is_negative(b) {
        -abs_bits(b)
    } else {
        abs_bits(b)
    }
}

/// The scale 2^1074.
pub open spec fn scale() -> int {
    pow2(1074) as int
}

/// Rounds value * 2^1074 to the nearest integer value, half-way cases away
/// from zero (`f64::round`).
pub open spec fn round_half_away(s: int) -> int {
    let d = pow2(1074) as int;
    let h = pow2(1073) as int;
    if s >= 0 {
        (s + h) / d
    } else {
        -((-s + h) / d)
    }
}

/// Saturation into the `i64` range.
pub open spec fn clamp_i64(x: int) -> int {
    if x > i64::MAX {
        i64::MAX as int
    } else if x < i64::MIN {
        i64::MIN as int
    } else {
        x
    }
}

/// `x.round() as i64`: rounding half away from zero, then the saturating
/// cast that maps NaN to 0.
pub open spec fn round_to_i64(b: u64) -> int {
    if is_nan(b) {
        0
    } else if is_infinite(b) {
        if is_negative(b) {
            i64::MIN as int
        } else {
            i64::MAX as int
        }
    } else {
        clamp_i64(round_half_away(scaled_value(b)))
    }
}

/// `f64::max` as a fold step: NaN is ignored.
pub open spec fn ext_max_step(acc: Extended, b: u64) -> Extended {
    if is_nan(b) {
        acc
    } else if ext_le(acc, extended(b)) {
        extended(b)
    } else {
        acc
    }
}

/// `values.fold(f64::NEG_INFINITY, f64::max)`.
pub open spec fn fold_max(values: Seq<u64>) -> Extended
    decreases values.len(),
{
    if values.len() == 0 {
        Extended::NegInf
    } else {
        ext_max_step(fold_max(values.drop_last()), values.last())
    }
}

// ---------------------------------------------------------------------------
// Lemmas
// ---------------------------------------------------------------------------

proof fn lemma_fields(b: u64)
    ensures
        abs_bits(b) == biased_exponent(b) * 0x10_0000_0000_0000 + fraction(b),
        0 <= fraction(b) < 0x10_0000_0000_0000,
        0 <= biased_exponent(b) <= 2047,
        0 <= abs_bits(b) < 0x8000_0000_0000_0000,
        is_negative(b) ==> b as int == abs_bits(b) + 0x8000_0000_0000_0000,
        !is_negative(b) ==> b as int == abs_bits(b),
{
    let x = b as int;
    let a = abs_bits(b);
    assert(x % 0x10_0000_0000_0000 == a % 0x10_0000_0000_0000) by {
        lemma_mod_mod(x, 0x10_0000_0000_0000, 0x800);
    }
    lemma_fundamental_div_mod(a, 0x10_0000_0000_0000);
}

proof fn lemma_pow2_52()
    ensures
        pow2(52) == 0x10_0000_0000_0000,
        pow2(46) == 0x4000_0000_0000,
{
    lemma2_to64();
    lemma2_to64_rest();
}

/// The magnitude of the largest number with exponent `e` stays below the
/// smallest one with exponent `e + 1`.
proof fn lemma_magnitude_bounds(e: int, f: int)
    requires
        0 <= e <= 2046,
        0 <= f < 0x10_0000_0000_0000,
    ensures
        magnitude_of(e, f) < 0x10_0000_0000_0000 * pow2(e as nat),
        e >= 1 ==> 0x10_0000_0000_0000 * pow2((e - 1) as nat) <= magnitude_of(e, f),
        magnitude_of(e, f) >= 0,
{
    lemma_pow2_pos(e as nat);
    if e == 0 {
        lemma2_to64();
    } else {
        let p = pow2((e - 1) as nat) as int;
        lemma_pow2_pos((e - 1) as nat);
        lemma_pow2_adds((e - 1) as nat, 1);
        lemma2_to64();
        assert(pow2(e as nat) == p * 2);
        lemma_mul_strict_inequality(0x10_0000_0000_0000 + f, 0x20_0000_0000_0000, p);
        lemma_mul_inequality(0x10_0000_0000_0000, 0x10_0000_0000_0000 + f, p);
        lemma_mul_is_commutative(0x10_0000_0000_0000 + f, p);
        lemma_mul_is_commutative(0x10_0000_0000_0000, p);
        lemma_mul_is_commutative(0x20_0000_0000_0000, p);
        lemma_mul_is_associative(0x10_0000_0000_0000, p, 2);
        lemma_mul_nonnegative(0x10_0000_0000_0000 + f, p);
    }
}

/// Magnitude grows strictly with the unsigned bit pattern.
proof fn lemma_magnitude_strictly_increasing(e1: int, f1: int, e2: int, f2: int)
    requires
        0 <= e1 <= 2046,
        0 <= e2 <= 2046,
        0 <= f1 < 0x10_0000_0000_0000,
        0 <= f2 < 0x10_0000_0000_0000,
        e1 * 0x10_0000_0000_0000 + f1 < e2 * 0x10_0000_0000_0000 + f2,
    ensures
        magnitude_of(e1, f1) < magnitude_of(e2, f2),
{
    if e1 == e2 {
        if e1 != 0 {
            let p = pow2((e1 - 1) as nat) as int;
            lemma_pow2_pos((e1 - 1) as nat);
            lemma_mul_strict_inequality(0x10_0000_0000_0000 + f1, 0x10_0000_0000_0000 + f2, p);
        }
    } else {
        assert(e1 < e2) by (nonlinear_arith)
            requires
                e1 * 0x10_0000_0000_0000 + f1 < e2 * 0x10_0000_0000_0000 + f2,
                0 <= f1 < 0x10_0000_0000_0000,
                0 <= f2 < 0x10_0000_0000_0000,
                e1 != e2,
        ;
        lemma_magnitude_bounds(e1, f1);
        lemma_magnitude_bounds(e2, f2);
        if e1 < e2 - 1 {
            lemma_pow2_strictly_increases(e1 as nat, (e2 - 1) as nat);
        }
        lemma_mul_inequality(
            pow2(e1 as nat) as int,
            pow2((e2 - 1) as nat) as int,
            0x10_0000_0000_0000,
        );
        lemma_mul_is_commutative(pow2(e1 as nat) as int, 0x10_0000_0000_0000);
        lemma_mul_is_commutative(pow2((e2 - 1) as nat) as int, 0x10_0000_0000_0000);
    }
}

proof fn lemma_magnitude_zero(b: u64)
    requires
        is_finite(b),
    ensures
        magnitude(b) >= 0,
        (magnitude(b) == 0) == (abs_bits(b) == 0),
{
    lemma_fields(b);
    lemma_magnitude_bounds(biased_exponent(b), fraction(b));
    if biased_exponent(b) > 0 {
        lemma_pow2_pos((biased_exponent(b) - 1) as nat);
        lemma_mul_strictly_positive(
            0x10_0000_0000_0000 + fraction(b),
            pow2((biased_exponent(b) - 1) as nat) as int,
        );
    }
}

proof fn lemma_magnitude_order(a: u64, b: u64)
    requires
        is_finite(a),
        is_finite(b),
    ensures
        (magnitude(a) <= magnitude(b)) == (abs_bits(a) <= abs_bits(b)),
{
    lemma_fields(a);
    lemma_fields(b);
    if abs_bits(a) < abs_bits(b) {
        lemma_magnitude_strictly_increasing(
            biased_exponent(a),
            fraction(a),
            biased_exponent(b),
            fraction(b),
        );
    } else if abs_bits(b) < abs_bits(a) {
        lemma_magnitude_strictly_increasing(
            biased_exponent(b),
            fraction(b),
            biased_exponent(a),
            fraction(a),
        );
    } else {
        assert(biased_exponent(a) == biased_exponent(b) && fraction(a) == fraction(b)) by (nonlinear_arith)
            requires
                abs_bits(a) == biased_exponent(a) * 0x10_0000_0000_0000 + fraction(a),
                abs_bits(b) == biased_exponent(b) * 0x10_0000_0000_0000 + fraction(b),
                0 <= fraction(a) < 0x10_0000_0000_0000,
                0 <= fraction(b) < 0x10_0000_0000_0000,
                abs_bits(a) == abs_bits(b),
        ;
    }
}

/// For numbers that are not NaN, `order_key` orders as the values do.
pub proof fn lemma_order_key(a: u64, b: u64)
    requires
        !is_nan(a),
        !is_nan(b),
    ensures
        ext_le(extended(a), extended(b)) == (order_key(a) <= order_key(b)),
{
    lemma_fields(a);
    lemma_fields(b);
    if is_finite(a) && is_finite(b) {
        lemma_magnitude_order(a, b);
        lemma_magnitude_order(b, a);
        lemma_magnitude_zero(a);
        lemma_magnitude_zero(b);
        let ma = magnitude(a);
        let mb = magnitude(b);
        assert(extended(a) == Extended::Finite(scaled_value(a)));
        assert(extended(b) == Extended::Finite(scaled_value(b)));
        if is_negative(a) && is_negative(b) {
            assert((-ma <= -mb) == (-abs_bits(a) <= -abs_bits(b)));
        } else if is_negative(a) {
            assert(-ma <= mb);
            assert(-abs_bits(a) <= abs_bits(b));
        } else if is_negative(b) {
            assert((ma <= -mb) == (ma == 0 && mb == 0));
            assert((abs_bits(a) <= -abs_bits(b)) == (abs_bits(a) == 0 && abs_bits(b) == 0));
        } else {
        }
    } else {
        if is_finite(a) {
            assert(abs_bits(a) < 2047 * 0x10_0000_0000_0000);
        }
        if is_finite(b) {
            assert(abs_bits(b) < 2047 * 0x10_0000_0000_0000);
        }
    }
}

/// The value of the bit pattern `NINETY_BITS` is 90 and that of
/// `SEVENTY_BITS` is 70.
pub proof fn lemma_threshold_values()
    ensures
        extended(NINETY_BITS) == Extended::Finite(90 * (pow2(1074) as int)),
        extended(SEVENTY_BITS) == Extended::Finite(70 * (pow2(1074) as int)),
        !is_nan(NINETY_BITS),
        !is_nan(SEVENTY_BITS),
{
    lemma_pow2_52();
    lemma_pow2_adds(46, 1028);
    assert(biased_exponent(NINETY_BITS) == 1029);
    assert(fraction(NINETY_BITS) == 26 * 0x4000_0000_0000);
    assert(biased_exponent(SEVENTY_BITS) == 1029);
    assert(fraction(SEVENTY_BITS) == 6 * 0x4000_0000_0000);
    let p = pow2(1028) as int;
    assert((0x10_0000_0000_0000 + 26 * 0x4000_0000_0000) * p == 90 * (0x4000_0000_0000 * p)) by (nonlinear_arith);
    assert((0x10_0000_0000_0000 + 6 * 0x4000_0000_0000) * p == 70 * (0x4000_0000_0000 * p)) by (nonlinear_arith);
}

// ---------------------------------------------------------------------------
// Executable operations
// ---------------------------------------------------------------------------

/// `f64::is_nan`.
pub fn bits_is_nan(b: u64) -> (r: bool)
    ensures
        r == is_nan(b),
{
    (b % SIGN_BIT) / FRACTION_SPAN == MAX_EXPONENT && b % FRACTION_SPAN != 0
}

/// `f64::is_finite`.
pub fn bits_is_finite(b: u64) -> (r: bool)
    ensures
        r == is_finite(b),
{
    (b % SIGN_BIT) / FRACTION_SPAN < MAX_EXPONENT
}

/// `order_key`, computed.
fn bits_order_key(b: u64) -> (r: i64)
    ensures
        r == order_key(b),
{
    let a = b % SIGN_BIT;
    if b >= SIGN_BIT {
        -(a as i64)
    } else {
        a as i64
    }
}

/// Whether `a <= b` as numbers, for numbers that are not NaN.
pub fn bits_le(a: u64, b: u64) -> (r: bool)
    requires
        !is_nan(a),
        !is_nan(b),
    ensures
        r == ext_le(extended(a), extended(b)),
{
    proof {
        lemma_order_key(a, b);
    }
    bits_order_key(a) <= bits_order_key(b)
}

fn pow2_u64(k: u64) -> (r: u64)
    requires
        k < 64,
    ensures
        r == pow2(k as nat),
{
    let mut r: u64 = 1;
    let mut i: u64 = 0;
    proof {
        lemma2_to64();
    }
    while i < k
        invariant
            i <= k < 64,
            r == pow2(i as nat),
        decreases k - i,
    {
        proof {
            lemma_pow2_adds(i as nat, 1);
            lemma_pow2_strictly_increases((i + 1) as nat, 64);
            lemma2_to64();
        }
        r = r * 2;
        i = i + 1;
    }
    r
}

proof fn lemma_round_large(m: int, e: int)
    requires
        1075 <= e <= 2046,
        0x10_0000_0000_0000 <= m < 0x20_0000_0000_0000,
    ensures
        (m * pow2((e - 1) as nat) + pow2(1073)) / (pow2(1074) as int) == m * pow2((e - 1075) as nat),
{
    let sh = (e - 1075) as nat;
    lemma_pow2_adds(sh, 1074);
    lemma_pow2_adds(1073, 1);
    lemma2_to64();
    lemma_pow2_pos(1073);
    lemma_pow2_pos(sh);
    let d = pow2(1074) as int;
    let q = m * pow2(sh);
    assert(m * pow2((e - 1) as nat) == q * d) by {
        lemma_mul_is_associative(m, pow2(sh) as int, d);
    }
    lemma_fundamental_div_mod_converse(q * d + pow2(1073), d, q, pow2(1073) as int);
}

proof fn lemma_round_small(m: int, e: int)
    requires
        1 <= e < 1075,
        0 <= m < 0x20_0000_0000_0000,
    ensures
        (m * pow2((e - 1) as nat) + pow2(1073)) / (pow2(1074) as int) == (m + pow2(
            (1074 - e) as nat,
        )) / (pow2((1075 - e) as nat) as int),
{
    let c = pow2((e - 1) as nat) as int;
    let k = (1075 - e) as nat;
    lemma_pow2_adds((e - 1) as nat, k);
    lemma_pow2_adds((e - 1) as nat, (k - 1) as nat);
    lemma_pow2_pos((e - 1) as nat);
    lemma_pow2_pos(k);
    lemma_pow2_pos((k - 1) as nat);
    assert(m * c + pow2(1073) == c * (m + pow2((k - 1) as nat))) by {
        lemma_mul_is_distributive_add(c, m, pow2((k - 1) as nat) as int);
        lemma_mul_is_commutative(m, c);
    }
    lemma_div_multiples_vanish_quotient(c, m + pow2((k - 1) as nat), pow2(k) as int);
}

proof fn lemma_round_tiny(m: int, k: nat)
    requires
        54 <= k,
        0 <= m < 0x20_0000_0000_0000,
    ensures
        (m + pow2((k - 1) as nat)) / (pow2(k) as int) == 0,
{
    lemma_pow2_adds((k - 1) as nat, 1);
    lemma2_to64();
    lemma2_to64_rest();
    if k - 1 > 53 {
        lemma_pow2_strictly_increases(53, (k - 1) as nat);
    }
    lemma_pow2_pos(k);
    lemma_small_div_converse_local(m + pow2((k - 1) as nat), pow2(k) as int);
}

proof fn lemma_small_div_converse_local(x: int, d: int)
    requires
        0 <= x < d,
    ensures
        x / d == 0,
{
    lemma_fundamental_div_mod_converse(x, d, 0, x);
}

/// `x.round() as i64` for the number with bits `b`.
pub fn bits_round_to_i64(b: u64) -> (r: i64)
    ensures
        r == round_to_i64(b),
{
    proof {
        lemma_fields(b);
    }
    let neg = b >= SIGN_BIT;
    let e = (b % SIGN_BIT) / FRACTION_SPAN;
    let f = b % FRACTION_SPAN;
    if e == MAX_EXPONENT {
        if f != 0 {
            0
        } else if neg {
            i64::MIN
        } else {
            i64::MAX
        }
    } else if e == 0 {
        proof {
            lemma_pow2_adds(1073, 1);
            lemma2_to64();
            lemma_pow2_strictly_increases(52, 1073);
            lemma_pow2_52();
            lemma_small_div_converse_local(f + pow2(1073), pow2(1074) as int);
            assert(round_to_i64(b) == 0);
        }
        0
    } else {
        let m: u64 = FRACTION_SPAN + f;
        if e >= 1075 {
            let sh: u64 = e - 1075;
            proof {
                lemma_round_large(m as int, e as int);
                assert(magnitude(b) == m * pow2((e - 1) as nat));
                lemma_pow2_pos((e - 1) as nat);
                lemma_mul_strictly_positive(m as int, pow2((e - 1) as nat) as int);
                let q = m * pow2(sh as nat);
                assert(round_half_away(scaled_value(b)) == if neg { -q } else { q });
            }
            if sh >= 11 {
                proof {
                    lemma_pow2_52();
                    lemma_pow2_adds(52, 11);
                    lemma2_to64_rest();
                    if sh > 11 {
                        lemma_pow2_strictly_increases(11, sh as nat);
                    }
                    lemma_mul_inequality(0x10_0000_0000_0000, m as int, pow2(sh as nat) as int);
                    lemma_mul_inequality(pow2(11) as int, pow2(sh as nat) as int, 0x10_0000_0000_0000);
                    lemma_mul_is_commutative(pow2(11) as int, 0x10_0000_0000_0000);
                    lemma_mul_is_commutative(pow2(sh as nat) as int, 0x10_0000_0000_0000);
                    lemma2_to64();
                    assert(m * pow2(sh as nat) >= 0x8000_0000_0000_0000);
                }
                assert(round_to_i64(b) == if neg { i64::MIN as int } else { i64::MAX as int });
                if neg {
                    i64::MIN
                } else {
                    i64::MAX
                }
            } else {
                let p = pow2_u64(sh);
                proof {
                    lemma2_to64();
                    if sh < 10 {
                        lemma_pow2_strictly_increases(sh as nat, 10);
                    }
                    lemma_mul_strict_inequality(m as int, 0x20_0000_0000_0000, p as int);
                    lemma_mul_inequality(p as int, 1024, 0x20_0000_0000_0000);
                    lemma_mul_is_commutative(p as int, 0x20_0000_0000_0000);
                }
                let v: u64 = m * p;
                assert(round_to_i64(b) == if neg { -(v as int) } else { v as int });
                if neg {
                    -(v as i64)
                } else {
                    v as i64
                }
            }
        } else {
            let k: u64 = 1075 - e;
            proof {
                lemma_round_small(m as int, e as int);
                assert(magnitude(b) == m * pow2((e - 1) as nat));
                lemma_pow2_pos((e - 1) as nat);
                lemma_mul_strictly_positive(m as int, pow2((e - 1) as nat) as int);
                assert((k - 1) as nat == (1074 - e) as nat);
                let q = (m + pow2((k - 1) as nat)) / (pow2(k as nat) as int);
                assert(round_half_away(scaled_value(b)) == if neg { -q } else { q });
            }
            if k >= 54 {
                proof {
                    lemma_round_tiny(m as int, k as nat);
                    assert(round_to_i64(b) == 0);
                }
                0
            } else {
                let half = pow2_u64(k - 1);
                let d = pow2_u64(k);
                proof {
                    lemma2_to64();
                    if k - 1 < 52 {
                        lemma_pow2_strictly_increases((k - 1) as nat, 52);
                    }
                    lemma_pow2_52();
                    lemma_pow2_pos(k as nat);
                }
                let q: u64 = (m + half) / d;
                proof {
                    lemma_div_is_ordered(m + half, 0x30_0000_0000_0000, d as int);
                    lemma_div_nonincreasing_local(0x30_0000_0000_0000, d as int);
                }
                assert(round_to_i64(b) == if neg { -(q as int) } else { q as int });
                if neg {
                    -(q as i64)
                } else {
                    q as i64
                }
            }
        }
    }
}

proof fn lemma_div_nonincreasing_local(x: int, d: int)
    requires
        x >= 0,
        d >= 1,
    ensures
        x / d <= x,
{
    lemma_div_is_ordered_by_denominator(x, 1, d);
}

/// Folds `f64::max` over the given numbers from negative infinity.
pub fn bits_fold_max(values: &Vec<u64>) -> (r: u64)
    ensures
        !is_nan(r),
        extended(r) == fold_max(values@),
{
    let mut acc: u64 = NEG_INFINITY_BITS;
    let mut i: usize = 0;
    proof {
        lemma_fields(NEG_INFINITY_BITS);
        assert(values@.subrange(0, 0) =~= Seq::<u64>::empty());
    }
    while i < values.len()
        invariant
            i <= values.len(),
            !is_nan(acc),
            extended(acc) == fold_max(values@.subrange(0, i as int)),
        decreases values.len() - i,
    {
        let v = values[i];
        proof {
            assert(values@.subrange(0, i + 1).drop_last() =~= values@.subrange(0, i as int));
        }
        if !bits_is_nan(v) {
            if bits_le(acc, v) {
                acc = v;
            }
        }
        i = i + 1;
    }
    proof {
        assert(values@.subrange(0, values.len() as int) =~= values@);
    }
    acc
}

} // verus!
