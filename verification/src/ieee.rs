//! Binary floating-point values, carried by their bit patterns.
//!
//! Volumes and browser measurements are IEEE 754 values. The library never computes with them;
//! it compares them, clamps them and truncates them, which their bit patterns alone decide.

use vstd::arithmetic::power2::pow2;
use vstd::prelude::*;

verus! {

/// A 64-bit binary floating-point value.
#[derive(Debug, Clone, Copy, PartialEq, Eq, Structural)]
pub struct Binary64 {
    pub bits: u64,
}

/// The weight of the sign bit of a 64-bit value.
pub const SIGN_64: u64 = 0x8000_0000_0000_0000;

/// The weight of the lowest exponent bit of a 64-bit value.
pub const UNIT_64: u64 = 0x10_0000_0000_0000;

impl Binary64 {
    /// The sign bit is set.
    pub open spec fn negative(self) -> bool {
        self.bits >= SIGN_64
    }

    /// The biased exponent.
    pub open spec fn exponent(self) -> nat {
        ((self.bits / UNIT_64) % 2048) as nat
    }

    /// The fraction bits.
    pub open spec fn fraction(self) -> nat {
        (self.bits % UNIT_64) as nat
    }

    /// Neither an infinity nor a NaN.
    pub open spec fn finite(self) -> bool {
        self.exponent() != 2047
    }

    /// The absolute value of a finite value, counted in the smallest positive value, which is two
    /// to the power of minus 1074.
    pub open spec fn magnitude(self) -> nat {
        if self.exponent() == 0 {
            self.fraction()
        } else {
            (UNIT_64 as nat + self.fraction()) * pow2((self.exponent() - 1) as nat)
        }
    }

    /// A finite value, counted in the smallest positive value.
    pub open spec fn value(self) -> int {
        if self.negative() {
            -(self.magnitude() as int)
        } else {
            self.magnitude() as int
        }
    }

    /// A value cut to a whole number that 64 bits hold: zero for a negative value or a NaN, the
    /// largest number where the value is larger.
    pub open spec fn truncated(self) -> u64 {
        if self.negative() {
            0
        } else if !self.finite() {
            if self.fraction() == 0 {
                u64::MAX
            } else {
                0
            }
        } else if self.magnitude() / pow2(1074) >= u64::MAX {
            u64::MAX
        } else {
            (self.magnitude() / pow2(1074)) as u64
        }
    }

    fn exponent_bits(&self) -> (exponent: u64)
        ensures
            exponent == self.exponent(),
    {
        (self.bits / UNIT_64) % 2048
    }

    /// Whether the value is neither an infinity nor a NaN.
    pub fn is_finite(&self) -> (finite: bool)
        ensures
            finite == self.finite(),
    {
        self.exponent_bits() != 2047
    }

    /// The bit pattern without the sign bit.
    spec fn payload(self) -> int {
        if self.negative() {
            self.bits - SIGN_64
        } else {
            self.bits as int
        }
    }

    fn order_key(&self) -> (key: i64)
        ensures
            key == (if self.negative() {
                -self.payload()
            } else {
                self.payload()
            }),
    {
        if self.bits >= SIGN_64 {
            let payload: u64 = self.bits - SIGN_64;
            0 - payload as i64
        } else {
            self.bits as i64
        }
    }

    /// Whether one finite value is at most the other.
    pub fn at_most(&self, other: &Binary64) -> (result: bool)
        requires
            self.finite(),
            other.finite(),
        ensures
            result == (self.value() <= other.value()),
    {
        proof {
            lemma_magnitude_order(*self, *other);
            lemma_magnitude_order(*other, *self);
            lemma_magnitude_zero(*self);
            lemma_magnitude_zero(*other);
        }
        self.order_key() <= other.order_key()
    }

    /// Cuts the value to a whole number.
    pub fn truncate(&self) -> (whole: u64)
        ensures
            whole == self.truncated(),
    {
        let exponent: u64 = self.exponent_bits();
        let fraction: u64 = self.bits % UNIT_64;
        if self.bits >= SIGN_64 {
            return 0;
        }
        if exponent == 2047 {
            return if fraction == 0 {
                u64::MAX
            } else {
                0
            };
        }
        if exponent < 1023 {
            proof {
                lemma_below_one(*self);
            }
            return 0;
        }
        let significand: u64 = UNIT_64 + fraction;
        proof {
            lemma_scaled(*self);
        }
        if exponent >= 1075 {
            let shift: u64 = exponent - 1075;
            if shift >= 12 {
                proof {
                    lemma_too_large(significand, shift);
                }
                u64::MAX
            } else {
                proof {
                    lemma_fits(significand, shift);
                    vstd::bits::lemma_u64_shl_is_mul(significand, shift);
                }
                significand << shift
            }
        } else {
            let shift: u64 = 1075 - exponent;
            proof {
                vstd::bits::lemma_u64_shr_is_div(significand, shift);
                vstd::arithmetic::power2::lemma_pow2_pos(shift as nat);
                assert(significand as nat / pow2(shift as nat) <= significand as nat) by {
                    vstd::arithmetic::div_mod::lemma_div_is_ordered_by_denominator(
                        significand as int,
                        1,
                        pow2(shift as nat) as int,
                    );
                }
            }
            significand >> shift
        }
    }
}

proof fn lemma_magnitude_zero(a: Binary64)
    ensures
        a.payload() == 0 <==> a.magnitude() == 0,
        a.payload() >= 0,
{
    if a.exponent() > 0 {
        vstd::arithmetic::power2::lemma_pow2_pos((a.exponent() - 1) as nat);
        let p = pow2((a.exponent() - 1) as nat);
        let s = UNIT_64 as nat + a.fraction();
        assert(s * p > 0) by (nonlinear_arith)
            requires
                s > 0,
                p > 0,
        ;
    }
}

/// Magnitudes are ordered as the bit patterns without the sign are.
proof fn lemma_magnitude_order(a: Binary64, b: Binary64)
    requires
        a.finite(),
        b.finite(),
    ensures
        a.payload() < b.payload() ==> a.magnitude() < b.magnitude(),
        a.payload() == b.payload() ==> a.magnitude() == b.magnitude(),
{
    let ea = a.exponent();
    let eb = b.exponent();
    assert(a.payload() == ea * UNIT_64 + a.fraction());
    assert(b.payload() == eb * UNIT_64 + b.fraction());
    assert(a.payload() <= b.payload() ==> ea <= eb);
    if eb > 0 {
        vstd::arithmetic::power2::lemma_pow2_pos((eb - 1) as nat);
    }
    let pb = pow2((eb - 1) as nat);
    let sb = UNIT_64 as nat + b.fraction();
    if a.payload() >= b.payload() {
        assert(a.payload() == b.payload() ==> ea == eb);
    } else if ea == eb {
        if ea > 0 {
            let sa = UNIT_64 as nat + a.fraction();
            assert(sa * pb < sb * pb) by (nonlinear_arith)
                requires
                    sa < sb,
                    pb > 0,
            ;
        }
    } else if ea == 0 {
        assert(sb * pb >= sb) by (nonlinear_arith)
            requires
                sb > 0,
                pb > 0,
        ;
    } else {
        let pa = pow2((ea - 1) as nat);
        let sa = UNIT_64 as nat + a.fraction();
        vstd::arithmetic::power2::lemma_pow2_pos((ea - 1) as nat);
        vstd::arithmetic::power2::lemma_pow2_unfold(ea);
        assert(pow2(ea) == 2 * pa);
        if ea < eb - 1 {
            vstd::arithmetic::power2::lemma_pow2_strictly_increases(ea, (eb - 1) as nat);
        }
        assert(2 * pa <= pb);
        assert(sa * pa < sb * pb) by (nonlinear_arith)
            requires
                sa < 2 * UNIT_64,
                sb >= UNIT_64,
                pa > 0,
                2 * pa <= pb,
        ;
    }
}

proof fn lemma_below_one(a: Binary64)
    requires
        a.exponent() < 1023,
    ensures
        a.magnitude() / pow2(1074) == 0,
{
    vstd::arithmetic::power2::lemma_pow2_pos(1074);
    lemma_unit_is_pow2();
    if a.exponent() == 0 {
        vstd::arithmetic::power2::lemma_pow2_strictly_increases(52, 1074);
    } else {
        let e = (a.exponent() - 1) as nat;
        let p = pow2(e);
        let s = UNIT_64 as nat + a.fraction();
        vstd::arithmetic::power2::lemma_pow2_pos(e);
        vstd::arithmetic::power2::lemma_pow2_adds(53, e);
        vstd::arithmetic::power2::lemma_pow2_unfold(53);
        assert(s * p < pow2(53) * p) by (nonlinear_arith)
            requires
                s < pow2(53),
                p > 0,
        ;
        if e + 53 < 1074 {
            vstd::arithmetic::power2::lemma_pow2_strictly_increases(e + 53, 1074);
        }
    }
    vstd::arithmetic::div_mod::lemma_basic_div(a.magnitude() as int, pow2(1074) as int);
}

proof fn lemma_unit_is_pow2()
    ensures
        UNIT_64 == pow2(52),
{
    vstd::arithmetic::power2::lemma2_to64_rest();
}

/// From one upwards, the magnitude in whole units is the significand shifted.
proof fn lemma_scaled(a: Binary64)
    requires
        1023 <= a.exponent() < 2047,
    ensures
        a.exponent() >= 1075 ==> a.magnitude() / pow2(1074) == (UNIT_64 as nat + a.fraction())
            * pow2((a.exponent() - 1075) as nat),
        a.exponent() < 1075 ==> a.magnitude() / pow2(1074) == (UNIT_64 as nat + a.fraction())
            / pow2((1075 - a.exponent()) as nat),
{
    let e = a.exponent();
    let s = UNIT_64 as nat + a.fraction();
    let whole = pow2(1074);
    vstd::arithmetic::power2::lemma_pow2_pos(1074);
    if e >= 1075 {
        let k = pow2((e - 1075) as nat);
        vstd::arithmetic::power2::lemma_pow2_adds((e - 1075) as nat, 1074);
        assert(s * (k * whole) == (s * k) * whole) by (nonlinear_arith);
        vstd::arithmetic::div_mod::lemma_div_by_multiple((s * k) as int, whole as int);
    } else {
        let d = pow2((1075 - e) as nat);
        let p = pow2((e - 1) as nat);
        vstd::arithmetic::power2::lemma_pow2_pos((1075 - e) as nat);
        vstd::arithmetic::power2::lemma_pow2_pos((e - 1) as nat);
        vstd::arithmetic::power2::lemma_pow2_adds((1075 - e) as nat, (e - 1) as nat);
        assert(whole == d * p);
        assert(s * p == p * s) by (nonlinear_arith);
        assert(d * p == p * d) by (nonlinear_arith);
        vstd::arithmetic::div_mod::lemma_div_multiples_vanish_quotient(p as int, s as int, d as int);
    }
}

proof fn lemma_too_large(significand: u64, shift: u64)
    requires
        significand >= UNIT_64,
        shift >= 12,
    ensures
        significand as nat * pow2(shift as nat) >= u64::MAX,
{
    vstd::arithmetic::power2::lemma2_to64();
    if shift > 12 {
        vstd::arithmetic::power2::lemma_pow2_strictly_increases(12, shift as nat);
    }
    let p = pow2(shift as nat);
    assert(significand as nat * p >= 0x10_0000_0000_0000 * 4096) by (nonlinear_arith)
        requires
            significand as nat >= 0x10_0000_0000_0000,
            p >= 4096,
    ;
}

proof fn lemma_fits(significand: u64, shift: u64)
    requires
        significand < 2 * UNIT_64,
        shift < 12,
    ensures
        significand as nat * pow2(shift as nat) < u64::MAX,
        significand as nat * pow2(shift as nat) <= u64::MAX,
{
    vstd::arithmetic::power2::lemma2_to64();
    if shift < 11 {
        vstd::arithmetic::power2::lemma_pow2_strictly_increases(shift as nat, 11);
    }
    let p = pow2(shift as nat);
    assert(significand as nat * p <= (0x20_0000_0000_0000 - 1) * 2048) by (nonlinear_arith)
        requires
            significand as nat <= 0x20_0000_0000_0000 - 1,
            p <= 2048,
    ;
}

/// A 32-bit binary floating-point value.
#[derive(Debug, Clone, Copy, PartialEq, Eq, Structural)]
pub struct Binary32 {
    pub bits: u32,
}

/// The weight of the sign bit of a 32-bit value.
pub const SIGN_32: u32 = 0x8000_0000;

/// The bit pattern of a positive 32-bit infinity.
pub const INFINITY_32: u32 = 0x7f80_0000;

/// The bit pattern of the 32-bit value one.
pub const ONE_32: u32 = 0x3f80_0000;

/// The bit pattern of the 32-bit value four, the loudest gain.
pub const FOUR_32: u32 = 0x4080_0000;

impl Binary32 {
    /// The place of a value other than a NaN in the order of all such values: the bit pattern
    /// without the sign, counted downwards for a negative value.
    pub open spec fn order(self) -> int {
        if self.bits >= SIGN_32 {
            -(self.bits - SIGN_32)
        } else {
            self.bits as int
        }
    }

    /// Not a number: beyond both infinities.
    pub open spec fn nan(self) -> bool {
        self.order() > INFINITY_32 || self.order() < -(INFINITY_32 as int)
    }

    /// The value moved into the range from zero to four; a NaN stays.
    pub open spec fn as_gain(self) -> Binary32 {
        if self.nan() {
            self
        } else if self.order() < 0 {
            Binary32 { bits: 0 }
        } else if self.order() > FOUR_32 {
            Binary32 { bits: FOUR_32 }
        } else {
            self
        }
    }

    /// Moves the value into the range from zero to four.
    pub fn clamp_gain(&self) -> (gain: Binary32)
        ensures
            gain == self.as_gain(),
    {
        if self.bits > SIGN_32 {
            if self.bits - SIGN_32 > INFINITY_32 {
                *self
            } else {
                Binary32 { bits: 0 }
            }
        } else if self.bits == SIGN_32 || self.bits > INFINITY_32 {
            *self
        } else if self.bits > FOUR_32 {
            Binary32 { bits: FOUR_32 }
        } else {
            *self
        }
    }
}

/// A gain is a NaN or lies between zero and four, and moving it into that range again changes
/// nothing.
pub proof fn gain_is_bounded(value: Binary32)
    ensures
        value.as_gain().nan() || 0 <= value.as_gain().order() <= FOUR_32,
        value.as_gain().as_gain() == value.as_gain(),
{
}

/// A gain between zero and four stays as it is, a larger one becomes four, a negative one becomes
/// zero, and what is not a number stays.
pub proof fn gain_is_kept_within_its_range(value: Binary32)
    ensures
        value.bits <= 0x4080_0000 ==> value.as_gain() == value,
        0x4080_0000 < value.bits <= 0x7f80_0000 ==> value.as_gain().bits == 0x4080_0000,
        0x8000_0000 < value.bits <= 0xff80_0000 ==> value.as_gain().bits == 0,
        0x7f80_0000 < value.bits < 0x8000_0000 ==> value.as_gain() == value,
        0xff80_0000 < value.bits ==> value.as_gain() == value,
{
}

/// The bit pattern with the exponent `1023 + power` and no fraction is two to that power, counted
/// in units of two to the power of minus 1074; with the sign bit it is the negative of it.
pub proof fn powers_of_two_have_their_patterns(power: nat)
    requires
        power <= 1023,
    ensures
        (Binary64 { bits: ((1023 + power) * 0x10_0000_0000_0000) as u64 }).value() == pow2(
            1074 + power,
        ),
        (Binary64 { bits: (0x8000_0000_0000_0000 + (1023 + power) * 0x10_0000_0000_0000) as u64 })
            .value() == -(pow2(1074 + power) as int),
{
    let positive = Binary64 { bits: ((1023 + power) * 0x10_0000_0000_0000) as u64 };
    let negative = Binary64 {
        bits: (0x8000_0000_0000_0000 + (1023 + power) * 0x10_0000_0000_0000) as u64,
    };
    assert(positive.exponent() == 1023 + power && positive.fraction() == 0);
    assert(negative.exponent() == 1023 + power && negative.fraction() == 0);
    lemma_unit_is_pow2();
    vstd::arithmetic::power2::lemma_pow2_adds(52, 1022 + power);
}

/// Cutting a value gives the largest whole number that is not larger: one more would be. Negative
/// values and those that are no numbers give zero, and those beyond 64 bits the largest number.
pub proof fn values_are_cut_downwards(value: Binary64)
    ensures
        value.bits >= 0x8000_0000_0000_0000 ==> value.truncated() == 0,
        value.bits == 0x7ff0_0000_0000_0000 ==> value.truncated() == u64::MAX,
        0x7ff0_0000_0000_0000 < value.bits < 0x8000_0000_0000_0000 ==> value.truncated() == 0,
        value.bits < 0x7ff0_0000_0000_0000 && value.truncated() < u64::MAX ==> value.truncated()
            * pow2(1074) <= value.value() < (value.truncated() + 1) * pow2(1074),
        value.bits < 0x7ff0_0000_0000_0000 && value.truncated() == u64::MAX ==> u64::MAX * pow2(
            1074,
        ) <= value.value(),
{
    vstd::arithmetic::power2::lemma_pow2_pos(1074);
    let unit = pow2(1074) as int;
    let magnitude = value.magnitude() as int;
    vstd::arithmetic::div_mod::lemma_fundamental_div_mod(magnitude, unit);
    vstd::arithmetic::div_mod::lemma_mod_bound(magnitude, unit);
    let whole = magnitude / unit;
    assert(unit * whole == whole * unit) by (nonlinear_arith);
    assert((whole + 1) * unit == whole * unit + unit) by (nonlinear_arith);
    assert(whole >= u64::MAX ==> whole * unit >= u64::MAX * unit) by (nonlinear_arith)
        requires
            unit > 0,
    ;
}

} // verus!
