//! Single-precision numbers held by their bit pattern.

use vstd::arithmetic::power2::lemma2_to64;
use vstd::arithmetic::power2::lemma_pow2_adds;
use vstd::arithmetic::power2::lemma_pow2_pos;
use vstd::arithmetic::power2::lemma_pow2_strictly_increases;
use vstd::arithmetic::power2::pow2;
use vstd::prelude::*;

verus! {

/// The bit that carries the sign.
pub const SIGN_BIT: u32 = 0x8000_0000;

/// The magnitude of positive infinity; every larger magnitude is a NaN.
pub const INFINITY_MAGNITUDE: u32 = 0x7f80_0000;

/// The magnitude of the number one.
pub const ONE_MAGNITUDE: u32 = 0x3f80_0000;

/// Two to the power of 23: the weight of the exponent field within a
/// magnitude, and the hidden bit of a normal number's significand.
pub const HIDDEN_BIT: u32 = 0x80_0000;

/// An IEEE-754 single-precision number, stored as its 32-bit pattern.
///
/// Two scalars are equal when their patterns are: `+0` and `-0` differ, and a
/// NaN equals itself.
#[derive(Clone, Copy, Debug, PartialEq, Eq, Structural, Hash)]
pub struct Scalar {
    pub bits: u32,
}

impl View for Scalar {
    type V = u32;

    open spec fn view(&self) -> u32 {
        self.bits
    }
}

/// The pattern with the sign bit cleared. Among patterns that are not NaN, a
/// larger magnitude encodes a number of larger absolute value.
pub open spec fn magnitude(bits: u32) -> int {
    if bits >= SIGN_BIT {
        bits - SIGN_BIT
    } else {
        bits as int
    }
}

/// The sign bit is set.
pub open spec fn sign_set(bits: u32) -> bool {
    bits >= SIGN_BIT
}

/// The pattern encodes no number.
pub open spec fn encodes_nan(bits: u32) -> bool {
    magnitude(bits) > INFINITY_MAGNITUDE
}

/// The pattern encodes `+0` or `-0`.
pub open spec fn encodes_zero(bits: u32) -> bool {
    magnitude(bits) == 0
}

/// The pattern encodes a number `x` with `x >= 0`: it is no NaN, and it is a
/// zero or has its sign bit clear.
pub open spec fn encodes_non_negative(bits: u32) -> bool {
    !encodes_nan(bits) && (encodes_zero(bits) || !sign_set(bits))
}

/// The pattern encodes a number `x` with `x <= 1`: it is no NaN, and it has
/// its sign bit set or a magnitude of at most that of one.
pub open spec fn encodes_at_most_one(bits: u32) -> bool {
    !encodes_nan(bits) && (sign_set(bits) || magnitude(bits) <= ONE_MAGNITUDE)
}

/// The pattern encodes a number of the closed interval from zero to one.
pub open spec fn encodes_share(bits: u32) -> bool {
    encodes_non_negative(bits) && encodes_at_most_one(bits)
}

/// The exponent field of the pattern: the eight bits below the sign.
pub open spec fn exponent_field(bits: u32) -> int {
    magnitude(bits) / (HIDDEN_BIT as int)
}

/// The fraction field of the pattern: its low 23 bits.
pub open spec fn fraction_field(bits: u32) -> int {
    magnitude(bits) % (HIDDEN_BIT as int)
}

/// The absolute value of the encoded number in units of two to the power of
/// -149, the smallest positive number of the format, so that it is whole.
/// With an exponent field of zero it is the fraction; otherwise it is the
/// fraction with the hidden bit, doubled once for each step of the exponent
/// above one. For the patterns that encode no finite number the same formula
/// gives a value above every finite one.
pub open spec fn scaled_magnitude(bits: u32) -> int {
    if exponent_field(bits) == 0 {
        fraction_field(bits)
    } else {
        (HIDDEN_BIT + fraction_field(bits)) * pow2((exponent_field(bits) - 1) as nat)
    }
}

/// The encoded number in units of two to the power of -149.
pub open spec fn scaled_value(bits: u32) -> int {
    if sign_set(bits) {
        -scaled_magnitude(bits)
    } else {
        scaled_magnitude(bits)
    }
}

/// The number one in units of two to the power of -149.
pub open spec fn scaled_one() -> int {
    pow2(149) as int
}

/// With a nonzero exponent field `e`, the scaled magnitude lies from two to
/// the `e + 22` up to, but not at, two to the `e + 23`.
proof fn normal_magnitude_bounds(bits: u32)
    requires
        exponent_field(bits) >= 1,
    ensures
        pow2((exponent_field(bits) + 22) as nat) <= scaled_magnitude(bits),
        scaled_magnitude(bits) < pow2((exponent_field(bits) + 23) as nat),
{
    let e = (exponent_field(bits) - 1) as nat;
    let p = pow2(e) as int;
    let sig = HIDDEN_BIT + fraction_field(bits);
    lemma2_to64();
    lemma_pow2_pos(e);
    lemma_pow2_adds(23, e);
    lemma_pow2_adds(24, e);
    assert(0x80_0000 * p <= sig * p) by (nonlinear_arith)
        requires
            0x80_0000 <= sig,
            p > 0,
    ;
    assert(sig * p < 0x100_0000 * p) by (nonlinear_arith)
        requires
            sig < 0x100_0000,
            p > 0,
    ;
}

/// Patterns are ordered by magnitude as the numbers they encode are ordered
/// by absolute value.
pub proof fn magnitude_orders_values(a: u32, b: u32)
    ensures
        magnitude(a) <= magnitude(b) <==> scaled_magnitude(a) <= scaled_magnitude(b),
        magnitude(a) == magnitude(b) <==> scaled_magnitude(a) == scaled_magnitude(b),
{
    let ea = exponent_field(a);
    let eb = exponent_field(b);
    lemma2_to64();
    if ea >= 1 {
        normal_magnitude_bounds(a);
    }
    if eb >= 1 {
        normal_magnitude_bounds(b);
    }
    if ea < eb {
        if ea + 23 < eb + 22 {
            lemma_pow2_strictly_increases((ea + 23) as nat, (eb + 22) as nat);
        }
        assert(scaled_magnitude(a) < scaled_magnitude(b));
    } else if eb < ea {
        if eb + 23 < ea + 22 {
            lemma_pow2_strictly_increases((eb + 23) as nat, (ea + 22) as nat);
        }
        assert(scaled_magnitude(b) < scaled_magnitude(a));
    } else if ea >= 1 {
        let p = pow2((ea - 1) as nat) as int;
        let sa = HIDDEN_BIT + fraction_field(a);
        let sb = HIDDEN_BIT + fraction_field(b);
        lemma_pow2_pos((ea - 1) as nat);
        assert(sa < sb ==> sa * p < sb * p) by (nonlinear_arith)
            requires
                p > 0,
        ;
        assert(sb < sa ==> sb * p < sa * p) by (nonlinear_arith)
            requires
                p > 0,
        ;
    }
}

/// A pattern encodes a zero exactly when the number it encodes is zero.
pub proof fn zero_has_value_zero(bits: u32)
    ensures
        encodes_zero(bits) <==> scaled_value(bits) == 0,
{
    magnitude_orders_values(bits, 0);
}

/// A pattern that is no NaN passes as non-negative exactly when the number it
/// encodes is at least zero.
pub proof fn non_negative_has_value_at_least_zero(bits: u32)
    requires
        !encodes_nan(bits),
    ensures
        encodes_non_negative(bits) <==> scaled_value(bits) >= 0,
{
    magnitude_orders_values(bits, 0);
    magnitude_orders_values(0, bits);
}

/// A pattern that is no NaN passes as at most one exactly when the number it
/// encodes is at most one.
pub proof fn at_most_one_has_value_at_most_one(bits: u32)
    requires
        !encodes_nan(bits),
    ensures
        encodes_at_most_one(bits) <==> scaled_value(bits) <= scaled_one(),
{
    lemma2_to64();
    lemma_pow2_adds(23, 126);
    assert(scaled_magnitude(ONE_MAGNITUDE) == scaled_one());
    magnitude_orders_values(bits, ONE_MAGNITUDE);
    magnitude_orders_values(0, bits);
    lemma_pow2_pos(149);
}

impl Scalar {
    /// The scalar with the given bit pattern.
    pub fn from_bits(bits: u32) -> (s: Scalar)
        ensures
            s@ == bits,
    {
        Scalar { bits }
    }

    /// The bit pattern of this scalar.
    pub fn to_bits(self) -> (bits: u32)
        ensures
            bits == self@,
    {
        self.bits
    }

    /// Positive zero.
    pub fn zero() -> (s: Scalar)
        ensures
            s@ == 0,
    {
        Scalar { bits: 0 }
    }

    /// Whether this scalar is a NaN.
    pub fn is_nan(self) -> (r: bool)
        ensures
            r == encodes_nan(self@),
    {
        if self.bits >= SIGN_BIT {
            self.bits - SIGN_BIT > INFINITY_MAGNITUDE
        } else {
            self.bits > INFINITY_MAGNITUDE
        }
    }

    /// Whether this scalar is `+0` or `-0`.
    pub fn is_zero(self) -> (r: bool)
        ensures
            r == encodes_zero(self@),
    {
        self.bits == 0 || self.bits == SIGN_BIT
    }

    /// Whether this scalar is a number that is at least zero.
    pub fn is_non_negative(self) -> (r: bool)
        ensures
            r == encodes_non_negative(self@),
    {
        self.bits <= INFINITY_MAGNITUDE || self.bits == SIGN_BIT
    }

    /// Whether this scalar is a number that is at most one.
    pub fn is_at_most_one(self) -> (r: bool)
        ensures
            r == encodes_at_most_one(self@),
    {
        if self.bits >= SIGN_BIT {
            self.bits - SIGN_BIT <= INFINITY_MAGNITUDE
        } else {
            self.bits <= ONE_MAGNITUDE
        }
    }

    /// Whether this scalar is a number of the closed interval from zero to one.
    pub fn is_share(self) -> (r: bool)
        ensures
            r == encodes_share(self@),
    {
        self.bits <= ONE_MAGNITUDE || self.bits == SIGN_BIT
    }
}

} // verus!
