//! IEEE 754 double-precision numbers, held by their 64-bit patterns.
//!
//! A pattern is split into a sign bit, eleven exponent bits and fifty-two
//! fraction bits. Every finite pattern stands for an integer multiple of
//! `2^-1074`, so the value of a pattern is modelled exactly by an integer
//! numerator, and the order of two numbers is the order of two integers.

use vstd::arithmetic::power2::{
    lemma2_to64, lemma2_to64_rest, lemma_pow2_adds, lemma_pow2_pos, lemma_pow2_strictly_increases,
    lemma_pow2_unfold, pow2,
};
use vstd::prelude::*;

verus! {

/// The sign bit of a pattern.
pub const SIGN_BIT: u64 = 0x8000_0000_0000_0000;

/// The pattern of positive infinity: all exponent bits set, no fraction bit.
pub const INFINITY_BITS: u64 = 0x7ff0_0000_0000_0000;

/// The weight of the lowest exponent bit, `2^52`; for a normal number also
/// the leading bit that the pattern leaves out.
pub const HIDDEN_BIT: u64 = 0x0010_0000_0000_0000;

/// The pattern of `1.0`.
pub const ONE_BITS: u64 = 0x3ff0_0000_0000_0000;

/// The pattern of `2.0`.
pub const TWO_BITS: u64 = 0x4000_0000_0000_0000;

/// What a pattern stands for.
pub enum Extended {
    /// Not a number.
    Nan,
    /// Negative infinity.
    NegInfinity,
    /// The real number `n / 2^1074`, where `n` is the field.
    Finite(int),
    /// Positive infinity.
    Infinity,
}

impl Extended {
    /// The integer `k` as a value: the quotient `k * 2^1074 / 2^1074`.
    pub open spec fn integer(k: int) -> Extended {
        Extended::Finite(k * pow2(1074))
    }

    /// `self < other` as IEEE 754 orders numbers: false where either side is
    /// not a number.
    pub open spec fn lt(self, other: Extended) -> bool {
        match (self, other) {
            (Extended::Finite(a), Extended::Finite(b)) => a < b,
            (Extended::NegInfinity, Extended::Finite(_)) => true,
            (Extended::NegInfinity, Extended::Infinity) => true,
            (Extended::Finite(_), Extended::Infinity) => true,
            _ => false,
        }
    }

    /// `self <= other` as IEEE 754 orders numbers: false where either side is
    /// not a number.
    pub open spec fn le(self, other: Extended) -> bool {
        match (self, other) {
            (Extended::Nan, _) => false,
            (_, Extended::Nan) => false,
            (Extended::Finite(a), Extended::Finite(b)) => a <= b,
            (Extended::NegInfinity, _) => true,
            (_, Extended::Infinity) => true,
            _ => false,
        }
    }

    /// A real number greater than zero.
    pub open spec fn is_positive_real(self) -> bool {
        self matches Extended::Finite(n) && n > 0
    }

    /// A number in the closed interval from zero to one.
    pub open spec fn is_probability(self) -> bool {
        Extended::integer(0).le(self) && self.le(Extended::integer(1))
    }
}

/// The numerator, over `2^1074`, of the magnitude whose exponent and fraction
/// bits are `m`. It is meant for `m < INFINITY_BITS`.
pub open spec fn numerator(m: u64) -> int {
    let exponent: int = m as int / 0x0010_0000_0000_0000;
    let fraction: int = m as int % 0x0010_0000_0000_0000;
    if exponent == 0 {
        fraction
    } else {
        (0x0010_0000_0000_0000 + fraction) * pow2((exponent - 1) as nat)
    }
}

/// A double-precision number, by its bits.
///
/// Two values are `==` when their bits are the same. That is finer than the
/// order of the numbers: the two zeros differ, and a pattern that is not a
/// number equals itself.
#[derive(Clone, Copy, Debug, PartialEq, Eq, Structural)]
pub struct Binary64 {
    pub bits: u64,
}

impl View for Binary64 {
    type V = Extended;

    open spec fn view(&self) -> Extended {
        let m: u64 = self.magnitude();
        if m > INFINITY_BITS {
            Extended::Nan
        } else if m == INFINITY_BITS {
            if self.negative() {
                Extended::NegInfinity
            } else {
                Extended::Infinity
            }
        } else if self.negative() {
            Extended::Finite(-numerator(m))
        } else {
            Extended::Finite(numerator(m))
        }
    }
}

impl Binary64 {
    /// The exponent and fraction bits, without the sign.
    pub open spec fn magnitude(self) -> u64 {
        (self.bits % 0x8000_0000_0000_0000) as u64
    }

    /// Whether the sign bit is set.
    pub open spec fn negative(self) -> bool {
        self.bits >= SIGN_BIT
    }

    /// The number with the given bits.
    pub fn from_bits(bits: u64) -> (r: Binary64)
        ensures
            r.bits == bits,
    {
        Binary64 { bits }
    }

    /// The bits of the number.
    pub fn to_bits(self) -> (r: u64)
        ensures
            r == self.bits,
    {
        self.bits
    }

    /// Positive zero.
    pub fn zero() -> (r: Binary64)
        ensures
            r.bits == 0,
            r@ == Extended::integer(0),
    {
        Binary64 { bits: 0 }
    }

    /// The number one.
    pub fn one() -> (r: Binary64)
        ensures
            r.bits == ONE_BITS,
            r@ == Extended::integer(1),
    {
        proof {
            lemma_small_integers();
        }
        Binary64 { bits: ONE_BITS }
    }

    /// The number two.
    pub fn two() -> (r: Binary64)
        ensures
            r.bits == TWO_BITS,
            r@ == Extended::integer(2),
    {
        proof {
            lemma_small_integers();
        }
        Binary64 { bits: TWO_BITS }
    }

    /// Whether the number lies in the closed interval from zero to one.
    /// Negative zero does; what is not a number does not.
    pub fn is_probability(self) -> (r: bool)
        ensures
            r == self@.is_probability(),
    {
        Binary64::zero().le(self) && self.le(Binary64::one())
    }

    /// Whether the number is real and greater than zero.
    pub fn is_positive_real(self) -> (r: bool)
        ensures
            r == self@.is_positive_real(),
    {
        self.is_finite() && Binary64::zero().lt(self)
    }

    fn magnitude_bits(self) -> (m: u64)
        ensures
            m == self.magnitude(),
    {
        let bits: u64 = self.bits;
        assert(bits & 0x7fff_ffff_ffff_ffff == bits % 0x8000_0000_0000_0000) by (bit_vector);
        bits & 0x7fff_ffff_ffff_ffff
    }

    /// Whether the sign bit is set. It is set in negative zero too.
    pub fn is_sign_negative(self) -> (r: bool)
        ensures
            r == self.negative(),
    {
        self.bits >= SIGN_BIT
    }

    /// Whether the bits stand for no number.
    pub fn is_nan(self) -> (r: bool)
        ensures
            r == (self@ is Nan),
    {
        self.magnitude_bits() > INFINITY_BITS
    }

    /// Whether the bits stand for a real number: neither an infinity nor not
    /// a number.
    pub fn is_finite(self) -> (r: bool)
        ensures
            r == (self@ is Finite),
    {
        self.magnitude_bits() < INFINITY_BITS
    }

    /// `self < other`, false where either is not a number. The two zeros are
    /// equal, so neither is less than the other.
    pub fn lt(self, other: Binary64) -> (r: bool)
        ensures
            r == self@.lt(other@),
    {
        let a: u64 = self.magnitude_bits();
        let b: u64 = other.magnitude_bits();
        if a > INFINITY_BITS || b > INFINITY_BITS {
            return false;
        }
        proof {
            lemma_numerator_order(a, b);
        }
        if self.is_sign_negative() {
            if other.is_sign_negative() {
                b < a
            } else {
                a != 0 || b != 0
            }
        } else {
            if other.is_sign_negative() {
                false
            } else {
                a < b
            }
        }
    }

    /// `self <= other`, false where either is not a number. The two zeros
    /// are equal.
    pub fn le(self, other: Binary64) -> (r: bool)
        ensures
            r == self@.le(other@),
    {
        let a: u64 = self.magnitude_bits();
        let b: u64 = other.magnitude_bits();
        if a > INFINITY_BITS || b > INFINITY_BITS {
            return false;
        }
        proof {
            lemma_numerator_order(a, b);
        }
        if self.is_sign_negative() {
            if other.is_sign_negative() {
                b <= a
            } else {
                true
            }
        } else {
            if other.is_sign_negative() {
                a == 0 && b == 0
            } else {
                a <= b
            }
        }
    }
}

/// A magnitude with a smaller exponent lies below every magnitude with a
/// larger one.
proof fn lemma_numerator_exponent_step(a: u64, b: u64)
    requires
        a / HIDDEN_BIT < b / HIDDEN_BIT,
    ensures
        numerator(a) < numerator(b),
{
    let ea: nat = (a / HIDDEN_BIT) as nat;
    let fa: int = (a % HIDDEN_BIT) as int;
    let eb: nat = (b / HIDDEN_BIT) as nat;
    let fb: int = (b % HIDDEN_BIT) as int;
    let h: int = HIDDEN_BIT as int;
    let low: int = pow2((eb - 1) as nat) as int;
    let top: int = pow2(ea) as int;
    lemma_pow2_pos(ea);
    lemma_pow2_pos((eb - 1) as nat);
    assert(top <= low) by {
        if ea < eb - 1 {
            lemma_pow2_strictly_increases(ea, (eb - 1) as nat);
        }
    }
    assert(numerator(a) < h * top) by {
        if ea == 0 {
            lemma2_to64();
        } else {
            let half: int = pow2((ea - 1) as nat) as int;
            lemma_pow2_pos((ea - 1) as nat);
            lemma_pow2_unfold(ea);
            assert((h + fa) * half < h * (2 * half)) by (nonlinear_arith)
                requires
                    0 <= fa < h,
                    half > 0,
            ;
        }
    }
    assert(h * top <= h * low) by (nonlinear_arith)
        requires
            top <= low,
            h > 0,
    ;
    assert(h * low <= (h + fb) * low) by (nonlinear_arith)
        requires
            0 <= fb,
            low > 0,
    ;
}

/// Among magnitudes, the order of the bits is the order of the numbers.
proof fn lemma_numerator_order(a: u64, b: u64)
    ensures
        (a < b) == (numerator(a) < numerator(b)),
        (a == b) == (numerator(a) == numerator(b)),
        0 <= numerator(a),
        (a == 0) == (numerator(a) == 0),
{
    lemma_numerator_increases(0, a);
    lemma_numerator_increases(a, b);
    lemma_numerator_increases(b, a);
    assert(numerator(0) == 0);
}

/// The numerator grows strictly with the bits.
proof fn lemma_numerator_increases(a: u64, b: u64)
    ensures
        a < b ==> numerator(a) < numerator(b),
{
    if a < b {
        let ea: nat = (a / HIDDEN_BIT) as nat;
        let fa: int = (a % HIDDEN_BIT) as int;
        let eb: nat = (b / HIDDEN_BIT) as nat;
        let fb: int = (b % HIDDEN_BIT) as int;
        if ea < eb {
            lemma_numerator_exponent_step(a, b);
        } else {
            assert(ea == eb && fa < fb);
            if ea > 0 {
                let scale: int = pow2((ea - 1) as nat) as int;
                let h: int = HIDDEN_BIT as int;
                lemma_pow2_pos((ea - 1) as nat);
                assert((h + fa) * scale < (h + fb) * scale) by (nonlinear_arith)
                    requires
                        fa < fb,
                        scale > 0,
                ;
            }
        }
    }
}

/// The patterns of one and two stand for the integers one and two.
proof fn lemma_small_integers()
    ensures
        (Binary64 { bits: ONE_BITS })@ == Extended::integer(1),
        (Binary64 { bits: TWO_BITS })@ == Extended::integer(2),
{
    lemma2_to64_rest();
    lemma_pow2_adds(52, 1022);
    lemma_pow2_unfold(1023);
    lemma_pow2_unfold(1075);
    lemma_pow2_adds(52, 1023);
    assert(ONE_BITS / HIDDEN_BIT == 1023);
    assert(TWO_BITS / HIDDEN_BIT == 1024);
}

} // verus!
