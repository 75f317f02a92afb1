//! The single-precision inverse of a scalar, found and recognised on the bit
//! patterns alone.
//!
//! Numbers are taken in units of two to the power of -149, in which every
//! magnitude is whole (see [`scaled_magnitude`]). Two numbers of `a` and `b`
//! units multiply to one when `a * b` is two to the power of 298. So one over
//! the first lies at or above the point half way between two patterns, whose
//! magnitudes add up to `s`, when `s * a` is at most two to the power of 299.

use crate::scalar::encodes_nan;
use crate::scalar::encodes_zero;
use crate::scalar::exponent_field;
use crate::scalar::fraction_field;
use crate::scalar::magnitude;
use crate::scalar::magnitude_orders_values;
use crate::scalar::scaled_magnitude;
use crate::scalar::sign_set;
use crate::scalar::Scalar;
use crate::scalar::HIDDEN_BIT;
use crate::scalar::INFINITY_MAGNITUDE;
use crate::scalar::SIGN_BIT;
use vstd::arithmetic::power2::lemma2_to64;
use vstd::arithmetic::power2::lemma2_to64_rest;
use vstd::arithmetic::power2::lemma_pow2_adds;
use vstd::arithmetic::power2::lemma_pow2_pos;
use vstd::arithmetic::power2::lemma_pow2_strictly_increases;
use vstd::arithmetic::power2::lemma_pow2_unfold;
use vstd::arithmetic::power2::pow2;
use vstd::prelude::*;

verus! {

/// The sum of the pattern's magnitude and that of the pattern just below it:
/// twice the point half way between the two numbers.
pub open spec fn lower_midpoint_doubled(bits: u32) -> int {
    scaled_magnitude((bits - 1) as u32) + scaled_magnitude(bits)
}

/// The sum of the pattern's magnitude and that of the pattern just above it:
/// twice the point half way between the two numbers.
pub open spec fn upper_midpoint_doubled(bits: u32) -> int {
    scaled_magnitude(bits) + scaled_magnitude((bits + 1) as u32)
}

/// For a positive finite `step`: `inv` is the positive pattern nearest to one
/// over `step`. The exact quotient lies at or above the point half way down to
/// the pattern below `inv`, and below the point half way up to the pattern
/// above it. From the point half way between the greatest finite number and
/// the next power of two onwards, `inv` is the infinity.
pub open spec fn nearest_reciprocal(step: u32, inv: u32) -> bool {
    &&& 0 < inv <= INFINITY_MAGNITUDE
    &&& lower_midpoint_doubled(inv) * scaled_magnitude(step) <= pow2(299)
    &&& inv < INFINITY_MAGNITUDE ==> pow2(299) < upper_midpoint_doubled(inv) * scaled_magnitude(
        step,
    )
}

/// `inv` is the inverse of `step` as the cache holds it. The inverse of a
/// zero is `+0`. A NaN stands as its own inverse. Any other step has an
/// inverse of its own sign: a zero for an infinity, and for a finite step the
/// pattern nearest to one over it.
pub open spec fn inverse_cached(step: u32, inv: u32) -> bool {
    if encodes_nan(step) {
        inv == step
    } else if encodes_zero(step) {
        inv == 0
    } else if magnitude(step) == INFINITY_MAGNITUDE {
        sign_set(inv) == sign_set(step) && magnitude(inv) == 0
    } else {
        sign_set(inv) == sign_set(step) && nearest_reciprocal(
            magnitude(step) as u32,
            magnitude(inv) as u32,
        )
    }
}

/// The inverse of `step` as the cache holds it: the one pattern that
/// [`inverse_cached`] accepts for it.
pub open spec fn inverse_of(step: u32) -> u32 {
    choose|inv: u32| inverse_cached(step, inv)
}

/// The significand of a pattern: its fraction, with the hidden bit unless the
/// exponent field is zero.
spec fn significand(bits: u32) -> int {
    if exponent_field(bits) == 0 {
        fraction_field(bits)
    } else {
        HIDDEN_BIT + fraction_field(bits)
    }
}

/// How often the significand of a pattern is doubled to give its scaled
/// magnitude.
spec fn shift(bits: u32) -> nat {
    if exponent_field(bits) == 0 {
        0
    } else {
        (exponent_field(bits) - 1) as nat
    }
}

/// The scaled magnitude is the significand doubled `shift` times.
proof fn magnitude_decoded(bits: u32)
    ensures
        scaled_magnitude(bits) == significand(bits) * pow2(shift(bits)),
{
    lemma2_to64();
    if exponent_field(bits) == 0 {
        assert(fraction_field(bits) * 1 == fraction_field(bits));
    }
}

/// The coefficient of the sum of a pattern's magnitude and its lower
/// neighbour's. At the first pattern of a power of two's range, from the
/// second such range on, the neighbour below is only half as far as the one
/// above.
spec fn lower_coefficient(bits: u32) -> int {
    if fraction_field(bits) == 0 && exponent_field(bits) >= 2 {
        4 * significand(bits) - 1
    } else {
        2 * significand(bits) - 1
    }
}

/// How often the lower coefficient is doubled.
spec fn lower_shift(bits: u32) -> nat {
    if fraction_field(bits) == 0 && exponent_field(bits) >= 2 {
        (shift(bits) - 1) as nat
    } else {
        shift(bits)
    }
}

/// The significand and the shift of a pattern without sign.
fn decode(m: u32) -> (r: (u64, u32))
    requires
        m <= INFINITY_MAGNITUDE,
    ensures
        r.0 == significand(m),
        r.1 == shift(m),
        r.0 < 0x100_0000,
        r.1 <= 254,
        m > 0 ==> r.0 >= 1,
{
    let e: u32 = m / HIDDEN_BIT;
    let f: u32 = m % HIDDEN_BIT;
    if e == 0 {
        (f as u64, 0)
    } else {
        ((HIDDEN_BIT + f) as u64, e - 1)
    }
}

/// Two to the power of `k`.
fn power_of_two(k: u32) -> (r: u64)
    requires
        k < 64,
    ensures
        r == pow2(k as nat),
{
    let mut r: u64 = 1;
    let mut i: u32 = 0;
    proof {
        lemma2_to64();
    }
    while i < k
        invariant
            i <= k,
            k < 64,
            r == pow2(i as nat),
        decreases k - i,
    {
        proof {
            lemma_pow2_unfold((i + 1) as nat);
            lemma2_to64_rest();
            if i + 1 < 63 {
                lemma_pow2_strictly_increases((i + 1) as nat, 63);
            }
        }
        r = r * 2;
        i = i + 1;
    }
    r
}

/// Whether `p` doubled `s` times is at most two to the power of 299.
fn at_most_bound(p: u64, s: u32) -> (r: bool)
    requires
        p >= 1,
        s <= 1000,
    ensures
        r == (p * pow2(s as nat) <= pow2(299)),
{
    if s > 299 {
        proof {
            lemma_pow2_strictly_increases(299, s as nat);
            let q = pow2(s as nat) as int;
            assert(p * q >= q) by (nonlinear_arith)
                requires
                    p >= 1,
                    q >= 0,
            ;
        }
        false
    } else {
        let k: u32 = 299 - s;
        proof {
            lemma_pow2_adds(k as nat, s as nat);
            lemma_pow2_pos(s as nat);
        }
        if k >= 64 {
            proof {
                lemma2_to64_rest();
                if k > 64 {
                    lemma_pow2_strictly_increases(64, k as nat);
                }
                let q = pow2(s as nat) as int;
                let t = pow2(k as nat) as int;
                assert(p * q <= t * q) by (nonlinear_arith)
                    requires
                        p <= t,
                        q >= 0,
                ;
            }
            true
        } else {
            let t = power_of_two(k);
            proof {
                let q = pow2(s as nat) as int;
                assert((p <= t) == (p * q <= t * q)) by (nonlinear_arith)
                    requires
                        q > 0,
                ;
            }
            p <= t
        }
    }
}

/// The sum of a positive pattern's magnitude and its lower neighbour's is the
/// lower coefficient doubled `lower_shift` times.
proof fn lower_midpoint_decoded(bits: u32)
    requires
        0 < bits <= INFINITY_MAGNITUDE,
    ensures
        lower_midpoint_doubled(bits) == lower_coefficient(bits) * pow2(lower_shift(bits)),
{
    let e = exponent_field(bits);
    let f = fraction_field(bits);
    let below = (bits - 1) as u32;
    let h = HIDDEN_BIT as int;
    lemma2_to64();
    if f == 0 && e >= 2 {
        assert(exponent_field(below) == e - 1);
        assert(fraction_field(below) == h - 1);
        let q = pow2((e - 2) as nat) as int;
        lemma_pow2_unfold((e - 1) as nat);
        assert(pow2((e - 1) as nat) == 2 * q);
        assert(scaled_magnitude(below) == (h + (h - 1)) * q);
        assert(scaled_magnitude(bits) == (h + 0) * (2 * q));
        assert((h + (h - 1)) * q + (h + 0) * (2 * q) == (4 * (h + 0) - 1) * q)
            by (nonlinear_arith);
    } else if f == 0 && e == 1 {
        assert(exponent_field(below) == 0);
        assert(fraction_field(below) == h - 1);
        assert(scaled_magnitude(bits) == (h + 0) * 1);
        assert((2 * (h + 0) - 1) * 1 == 2 * h - 1);
    } else if e >= 1 {
        assert(exponent_field(below) == e);
        assert(fraction_field(below) == f - 1);
        let q = pow2((e - 1) as nat) as int;
        assert((h + (f - 1)) * q + (h + f) * q == (2 * (h + f) - 1) * q) by (nonlinear_arith);
    } else {
        assert(exponent_field(below) == 0);
        assert(fraction_field(below) == f - 1);
        assert((2 * f - 1) * 1 == 2 * f - 1);
    }
}

/// `(c * 2^s) * (g * 2^t)` is `(c * g) * 2^(s + t)`.
proof fn product_of_decoded(c: int, s: nat, g: int, t: nat)
    ensures
        (c * pow2(s)) * (g * pow2(t)) == (c * g) * pow2(s + t),
{
    lemma_pow2_adds(s, t);
    let a = pow2(s) as int;
    let b = pow2(t) as int;
    assert((c * a) * (g * b) == (c * g) * (a * b)) by (nonlinear_arith);
}

/// The product that decides whether one over `step` lies at or above the
/// point half way down from `inv`, as a product of whole coefficients doubled
/// a number of times.
proof fn lower_product_decoded(step: u32, inv: u32)
    requires
        0 < inv <= INFINITY_MAGNITUDE,
    ensures
        lower_midpoint_doubled(inv) * scaled_magnitude(step) == (lower_coefficient(inv)
            * significand(step)) * pow2(lower_shift(inv) + shift(step)),
{
    magnitude_decoded(step);
    lower_midpoint_decoded(inv);
    product_of_decoded(lower_coefficient(inv), lower_shift(inv), significand(step), shift(step));
}

/// No scaled magnitude is negative, and below the infinity each is less than
/// two to the power of 277.
proof fn magnitude_range(bits: u32)
    requires
        bits <= INFINITY_MAGNITUDE,
    ensures
        0 <= scaled_magnitude(bits) <= pow2(277),
{
    lemma2_to64();
    magnitude_orders_values(0, bits);
    magnitude_orders_values(bits, INFINITY_MAGNITUDE);
    assert(exponent_field(INFINITY_MAGNITUDE) == 255 && fraction_field(INFINITY_MAGNITUDE) == 0);
    lemma_pow2_adds(23, 254);
}

/// For the step nearest to a sixtieth, the pattern nearest to its inverse is
/// the one just below sixty.
pub proof fn default_inverse_is_nearest()
    ensures
        nearest_reciprocal(0x3c88_8889, 0x426f_ffff),
        inverse_cached(0x3c88_8889, 0x426f_ffff),
{
    let step: u32 = 0x3c88_8889;
    let inv: u32 = 0x426f_ffff;
    let above: u32 = 0x4270_0000;
    lower_product_decoded(step, inv);
    lower_product_decoded(step, above);
    assert(exponent_field(step) == 121 && fraction_field(step) == 0x08_8889);
    assert(exponent_field(inv) == 132 && fraction_field(inv) == 0x6f_ffff);
    assert(exponent_field(above) == 132 && fraction_field(above) == 0x70_0000);
    lemma2_to64();
    lemma2_to64_rest();
    lemma_pow2_adds(48, 251);
    lemma_pow2_pos(251);
    let q = pow2(251) as int;
    let low = lower_coefficient(inv) * significand(step);
    let up = lower_coefficient(above) * significand(step);
    assert(low == 0x1df_fffd * 0x88_8889);
    assert(up == 0x1df_ffff * 0x88_8889);
    assert(low * q <= 0x1_0000_0000_0000 * q) by (nonlinear_arith)
        requires
            low <= 0x1_0000_0000_0000,
            q >= 0,
    ;
    assert(0x1_0000_0000_0000 * q < up * q) by (nonlinear_arith)
        requires
            0x1_0000_0000_0000 < up,
            q > 0,
    ;
    assert(upper_midpoint_doubled(inv) == lower_midpoint_doubled(above));
}

/// At most one pattern is nearest to one over a step.
pub proof fn nearest_reciprocal_is_one(step: u32, a: u32, b: u32)
    requires
        step <= INFINITY_MAGNITUDE,
        nearest_reciprocal(step, a),
        nearest_reciprocal(step, b),
    ensures
        a == b,
{
    if a < b {
        midpoints_in_order(step, a, b);
    } else if b < a {
        midpoints_in_order(step, b, a);
    }
}

/// One over `step` cannot lie both below the point half way up from `a` and
/// at or above the point half way down from a greater `b`.
proof fn midpoints_in_order(step: u32, a: u32, b: u32)
    requires
        step <= INFINITY_MAGNITUDE,
        a < b <= INFINITY_MAGNITUDE,
    ensures
        upper_midpoint_doubled(a) * scaled_magnitude(step) <= lower_midpoint_doubled(b)
            * scaled_magnitude(step),
{
    magnitude_orders_values(a, (b - 1) as u32);
    magnitude_orders_values((a + 1) as u32, b);
    magnitude_range(step);
    let x = upper_midpoint_doubled(a);
    let y = lower_midpoint_doubled(b);
    let m = scaled_magnitude(step);
    assert(x * m <= y * m) by (nonlinear_arith)
        requires
            x <= y,
            m >= 0,
    ;
}

/// No step has two inverses.
pub proof fn inverse_is_one(step: u32, a: u32, b: u32)
    requires
        inverse_cached(step, a),
        inverse_cached(step, b),
    ensures
        a == b,
{
    if !encodes_nan(step) && !encodes_zero(step) && magnitude(step) != INFINITY_MAGNITUDE {
        nearest_reciprocal_is_one(magnitude(step) as u32, magnitude(a) as u32, magnitude(b) as u32);
    }
}

/// A pattern that passes as the inverse of a step is the inverse of the step.
pub proof fn inverse_found(step: u32, inv: u32)
    requires
        inverse_cached(step, inv),
    ensures
        inverse_of(step) == inv,
{
    inverse_is_one(step, inverse_of(step), inv);
}

/// Whether one over `step` lies at or above the point half way down from
/// `inv` to the pattern below it.
fn lower_holds(inv: u32, step: u32) -> (r: bool)
    requires
        0 < inv <= INFINITY_MAGNITUDE,
        0 < step <= INFINITY_MAGNITUDE,
    ensures
        r == (lower_midpoint_doubled(inv) * scaled_magnitude(step) <= pow2(299)),
{
    let (sig_v, sh_v) = decode(step);
    let (sig_i, sh_i) = decode(inv);
    let f_i: u32 = inv % HIDDEN_BIT;
    let e_i: u32 = inv / HIDDEN_BIT;
    let (c_low, s_low): (u64, u32) = if f_i == 0 && e_i >= 2 {
        (4 * sig_i - 1, sh_i - 1)
    } else {
        (2 * sig_i - 1, sh_i)
    };
    proof {
        lower_product_decoded(step, inv);
        assert(c_low == lower_coefficient(inv));
        assert(s_low == lower_shift(inv));
        assert(c_low * sig_v < 0x4_0000_0000_0000) by (nonlinear_arith)
            requires
                1 <= c_low < 0x400_0000,
                1 <= sig_v < 0x100_0000,
        ;
        assert(c_low * sig_v >= 1) by (nonlinear_arith)
            requires
                1 <= c_low,
                1 <= sig_v,
        ;
    }
    at_most_bound(c_low * sig_v, s_low + sh_v)
}

/// The pattern nearest to one over a positive finite step: the greatest
/// pattern from whose lower half-way point one over the step is not below,
/// found by halving the range of the patterns.
fn nearest_reciprocal_of(step: u32) -> (inv: u32)
    requires
        0 < step < INFINITY_MAGNITUDE,
    ensures
        nearest_reciprocal(step, inv),
{
    proof {
        lemma2_to64();
        magnitude_range(step);
        lemma_pow2_strictly_increases(277, 299);
        assert(exponent_field(0) == 0 && fraction_field(0) == 0);
        assert(exponent_field(1) == 0 && fraction_field(1) == 1);
        assert(lower_midpoint_doubled(1) == 1);
        assert(1 * scaled_magnitude(step) == scaled_magnitude(step));
    }
    let mut lo: u32 = 1;
    let mut hi: u32 = INFINITY_MAGNITUDE + 1;
    while hi - lo > 1
        invariant
            1 <= lo < hi <= INFINITY_MAGNITUDE + 1,
            0 < step < INFINITY_MAGNITUDE,
            lower_midpoint_doubled(lo) * scaled_magnitude(step) <= pow2(299),
            hi <= INFINITY_MAGNITUDE ==> pow2(299) < lower_midpoint_doubled(hi) * scaled_magnitude(
                step,
            ),
        decreases hi - lo,
    {
        let mid: u32 = lo + (hi - lo) / 2;
        if lower_holds(mid, step) {
            lo = mid;
        } else {
            hi = mid;
        }
    }
    assert(lo < INFINITY_MAGNITUDE ==> upper_midpoint_doubled(lo) == lower_midpoint_doubled(hi));
    lo
}

impl Scalar {
    /// The inverse of this scalar as the cache of a step's inverse holds it.
    /// See [`inverse_cached`].
    pub fn inverse(self) -> (inv: Scalar)
        ensures
            inverse_cached(self@, inv@),
            inv@ == inverse_of(self@),
    {
        if self.is_nan() {
            proof {
                inverse_found(self@, self@);
            }
            return self;
        }
        if self.is_zero() {
            proof {
                inverse_found(self@, 0);
            }
            return Scalar::zero();
        }
        let v: u32 = self.to_bits();
        let negative = v >= SIGN_BIT;
        let mv: u32 = if negative {
            v - SIGN_BIT
        } else {
            v
        };
        let mi: u32 = if mv == INFINITY_MAGNITUDE {
            0
        } else {
            nearest_reciprocal_of(mv)
        };
        let bits: u32 = if negative {
            mi + SIGN_BIT
        } else {
            mi
        };
        proof {
            inverse_found(self@, bits);
        }
        Scalar::from_bits(bits)
    }

    /// Whether this scalar is the inverse of `step` as the cache of a step's
    /// inverse holds it. See [`inverse_cached`].
    pub fn is_inverse_of(self, step: Scalar) -> (r: bool)
        ensures
            r == inverse_cached(step@, self@),
    {
        let v: u32 = step.to_bits();
        let i: u32 = self.to_bits();
        if step.is_nan() {
            return i == v;
        }
        if step.is_zero() {
            return i == 0;
        }
        if (v >= SIGN_BIT) != (i >= SIGN_BIT) {
            return false;
        }
        let mv: u32 = if v >= SIGN_BIT {
            v - SIGN_BIT
        } else {
            v
        };
        let mi: u32 = if i >= SIGN_BIT {
            i - SIGN_BIT
        } else {
            i
        };
        if mv == INFINITY_MAGNITUDE {
            return mi == 0;
        }
        if mi == 0 || mi > INFINITY_MAGNITUDE {
            return false;
        }
        if !lower_holds(mi, mv) {
            return false;
        }
        if mi == INFINITY_MAGNITUDE {
            return true;
        }
        assert(upper_midpoint_doubled(mi) == lower_midpoint_doubled((mi + 1) as u32));
        !lower_holds(mi + 1, mv)
    }
}

} // verus!
