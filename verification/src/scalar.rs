//! Single-precision numbers held by their IEEE 754 bit patterns.
//!
//! The scene's coordinates, distances and angles are binary32 values. This
//! module stores such a value as its 32-bit encoding and decides every
//! comparison on that encoding, so that each decision of the library is exact
//! for every input, the infinities and "not a number" included. Arithmetic on
//! these values is left to the caller.

use vstd::arithmetic::power2::{lemma_pow2_pos, lemma_pow2_strictly_increases, lemma_pow2_unfold, pow2};
use vstd::prelude::*;

verus! {

/// Encoding of positive zero.
pub const ZERO_BITS: u32 = 0x0000_0000;

/// Encoding of one.
pub const ONE_BITS: u32 = 0x3f80_0000;

/// Encoding of positive infinity.
pub const INFINITY_BITS: u32 = 0x7f80_0000;

/// Encoding of negative infinity.
pub const NEG_INFINITY_BITS: u32 = 0xff80_0000;

/// Encoding of the machine epsilon, 2^-23.
pub const EPSILON_BITS: u32 = 0x3400_0000;

/// Encoding of the negated machine epsilon.
pub const NEG_EPSILON_BITS: u32 = 0xb400_0000;

/// The sign bit of an encoding.
pub const SIGN_BIT: u32 = 0x8000_0000;

/// A single-precision number, stored as the 32 bits of its IEEE 754 encoding.
#[derive(Clone, Copy, Debug)]
pub struct Scalar {
    pub bits: u32,
}

impl Scalar {
    /// Whether the sign bit is set.
    pub open spec fn is_negative(self) -> bool {
        self.bits >= SIGN_BIT
    }

    /// The encoding with the sign bit cleared: exponent and fraction read as
    /// one integer, which grows with the absolute value.
    pub open spec fn magnitude(self) -> int {
        if self.bits >= SIGN_BIT {
            self.bits - SIGN_BIT
        } else {
            self.bits as int
        }
    }

    /// Whether the encoding stands for "not a number".
    pub open spec fn is_nan_spec(self) -> bool {
        self.magnitude() > INFINITY_BITS
    }

    /// Whether the encoding stands for positive or negative infinity.
    pub open spec fn is_infinite(self) -> bool {
        self.magnitude() == INFINITY_BITS
    }

    /// Whether the encoding stands for a number that is not infinite.
    pub open spec fn is_finite(self) -> bool {
        self.magnitude() < INFINITY_BITS
    }

    /// The eight bits of the exponent field.
    pub open spec fn exponent(self) -> int {
        self.magnitude() / 0x80_0000
    }

    /// The twenty-three bits of the fraction field.
    pub open spec fn fraction(self) -> int {
        self.magnitude() % 0x80_0000
    }

    /// The significand as a whole number: the fraction, with the implied
    /// leading bit in front unless the number is subnormal.
    pub open spec fn significand(self) -> int {
        if self.exponent() == 0 {
            self.fraction()
        } else {
            0x80_0000 + self.fraction()
        }
    }

    /// The absolute value of a finite number, counted in units of 2^-149,
    /// the least positive number: a normal number with exponent field `e` is
    /// its significand times 2^(e - 150).
    pub open spec fn units(self) -> int {
        if self.exponent() == 0 {
            self.significand()
        } else {
            self.significand() * pow2((self.exponent() - 1) as nat)
        }
    }

    /// The value of a finite number, counted in units of 2^-149.
    pub open spec fn value(self) -> int {
        if self.is_negative() {
            -self.units()
        } else {
            self.units()
        }
    }

    /// The place of a number in the order of all numbers: positive encodings
    /// count upwards from zero, negative ones downwards, and the two zeros
    /// share rank 0. Meaningless for "not a number".
    pub open spec fn rank(self) -> int {
        if self.is_negative() {
            -self.magnitude()
        } else {
            self.magnitude()
        }
    }

    /// `self < other` as IEEE 754 defines it: false whenever either side is
    /// "not a number".
    pub open spec fn lt_spec(self, other: Scalar) -> bool {
        !self.is_nan_spec() && !other.is_nan_spec() && self.rank() < other.rank()
    }

    /// `self <= other` as IEEE 754 defines it.
    pub open spec fn le_spec(self, other: Scalar) -> bool {
        !self.is_nan_spec() && !other.is_nan_spec() && self.rank() <= other.rank()
    }

    /// `self > other` as IEEE 754 defines it.
    pub open spec fn gt_spec(self, other: Scalar) -> bool {
        other.lt_spec(self)
    }

    /// `self >= other` as IEEE 754 defines it.
    pub open spec fn ge_spec(self, other: Scalar) -> bool {
        other.le_spec(self)
    }

    /// Numerical equality: both are numbers of the same rank. The two zeros
    /// are equal; "not a number" equals nothing.
    pub open spec fn same_value(self, other: Scalar) -> bool {
        !self.is_nan_spec() && !other.is_nan_spec() && self.rank() == other.rank()
    }

    /// The lesser of two numbers. If exactly one side is "not a number" the
    /// other side is the result; if the two are numerically equal, `self` is.
    pub open spec fn min_spec(self, other: Scalar) -> Scalar {
        if self.is_nan_spec() {
            other
        } else if other.lt_spec(self) {
            other
        } else {
            self
        }
    }

    /// The greater of two numbers, with the same treatment of "not a number"
    /// and of ties as `min_spec`.
    pub open spec fn max_spec(self, other: Scalar) -> Scalar {
        if self.is_nan_spec() {
            other
        } else if other.gt_spec(self) {
            other
        } else {
            self
        }
    }

    /// `self` limited to the interval from `lo` to `hi`; "not a number" stays
    /// as it is.
    pub open spec fn clamp_spec(self, lo: Scalar, hi: Scalar) -> Scalar {
        if self.lt_spec(lo) {
            lo
        } else if self.gt_spec(hi) {
            hi
        } else {
            self
        }
    }

    pub open spec fn zero_spec() -> Scalar {
        Scalar { bits: ZERO_BITS }
    }

    /// Positive zero.
    #[verifier::when_used_as_spec(zero_spec)]
    pub fn zero() -> (s: Scalar)
        ensures
            s == Self::zero_spec(),
    {
        Scalar { bits: ZERO_BITS }
    }

    pub open spec fn one_spec() -> Scalar {
        Scalar { bits: ONE_BITS }
    }

    /// One.
    #[verifier::when_used_as_spec(one_spec)]
    pub fn one() -> (s: Scalar)
        ensures
            s == Self::one_spec(),
    {
        Scalar { bits: ONE_BITS }
    }

    pub open spec fn infinity_spec() -> Scalar {
        Scalar { bits: INFINITY_BITS }
    }

    /// Positive infinity.
    #[verifier::when_used_as_spec(infinity_spec)]
    pub fn infinity() -> (s: Scalar)
        ensures
            s == Self::infinity_spec(),
    {
        Scalar { bits: INFINITY_BITS }
    }

    pub open spec fn neg_infinity_spec() -> Scalar {
        Scalar { bits: NEG_INFINITY_BITS }
    }

    /// Negative infinity.
    #[verifier::when_used_as_spec(neg_infinity_spec)]
    pub fn neg_infinity() -> (s: Scalar)
        ensures
            s == Self::neg_infinity_spec(),
    {
        Scalar { bits: NEG_INFINITY_BITS }
    }

    pub open spec fn epsilon_spec() -> Scalar {
        Scalar { bits: EPSILON_BITS }
    }

    /// The machine epsilon, 2^-23.
    #[verifier::when_used_as_spec(epsilon_spec)]
    pub fn epsilon() -> (s: Scalar)
        ensures
            s == Self::epsilon_spec(),
    {
        Scalar { bits: EPSILON_BITS }
    }

    pub open spec fn neg_epsilon_spec() -> Scalar {
        Scalar { bits: NEG_EPSILON_BITS }
    }

    /// The negated machine epsilon.
    #[verifier::when_used_as_spec(neg_epsilon_spec)]
    pub fn neg_epsilon() -> (s: Scalar)
        ensures
            s == Self::neg_epsilon_spec(),
    {
        Scalar { bits: NEG_EPSILON_BITS }
    }

    /// The number with the given encoding.
    pub fn from_bits(bits: u32) -> (s: Scalar)
        ensures
            s.bits == bits,
    {
        Scalar { bits }
    }

    /// The encoding of this number.
    pub fn to_bits(self) -> (bits: u32)
        ensures
            bits == self.bits,
    {
        self.bits
    }

    /// The encoding with the sign bit cleared.
    fn abs_bits(self) -> (m: u32)
        ensures
            m == self.magnitude(),
    {
        if self.bits >= SIGN_BIT {
            self.bits - SIGN_BIT
        } else {
            self.bits
        }
    }

    /// The rank as a machine integer.
    fn key(self) -> (k: i64)
        ensures
            k == self.rank(),
    {
        let m: u32 = self.abs_bits();
        if self.bits >= SIGN_BIT {
            0 - (m as i64)
        } else {
            m as i64
        }
    }

    #[verifier::when_used_as_spec(is_nan_spec)]
    pub fn is_nan(self) -> (b: bool)
        ensures
            b == self.is_nan_spec(),
    {
        self.abs_bits() > INFINITY_BITS
    }

    #[verifier::when_used_as_spec(lt_spec)]
    pub fn lt(self, other: Scalar) -> (b: bool)
        ensures
            b == self.lt_spec(other),
    {
        !self.is_nan() && !other.is_nan() && self.key() < other.key()
    }

    #[verifier::when_used_as_spec(le_spec)]
    pub fn le(self, other: Scalar) -> (b: bool)
        ensures
            b == self.le_spec(other),
    {
        !self.is_nan() && !other.is_nan() && self.key() <= other.key()
    }

    #[verifier::when_used_as_spec(gt_spec)]
    pub fn gt(self, other: Scalar) -> (b: bool)
        ensures
            b == self.gt_spec(other),
    {
        other.lt(self)
    }

    #[verifier::when_used_as_spec(ge_spec)]
    pub fn ge(self, other: Scalar) -> (b: bool)
        ensures
            b == self.ge_spec(other),
    {
        other.le(self)
    }

    #[verifier::when_used_as_spec(min_spec)]
    pub fn min(self, other: Scalar) -> (m: Scalar)
        ensures
            m == self.min_spec(other),
    {
        if self.is_nan() {
            other
        } else if other.lt(self) {
            other
        } else {
            self
        }
    }

    #[verifier::when_used_as_spec(max_spec)]
    pub fn max(self, other: Scalar) -> (m: Scalar)
        ensures
            m == self.max_spec(other),
    {
        if self.is_nan() {
            other
        } else if other.gt(self) {
            other
        } else {
            self
        }
    }

    /// Limits `self` to the interval from `lo` to `hi`.
    #[verifier::when_used_as_spec(clamp_spec)]
    pub fn clamp(self, lo: Scalar, hi: Scalar) -> (c: Scalar)
        requires
            lo.le(hi),
        ensures
            c == self.clamp_spec(lo, hi),
    {
        if self.lt(lo) {
            lo
        } else if self.gt(hi) {
            hi
        } else {
            self
        }
    }
}

/// Among numbers, exactly one of "less", "equal" and "greater" holds.
pub proof fn lemma_trichotomy(a: Scalar, b: Scalar)
    requires
        !a.is_nan(),
        !b.is_nan(),
    ensures
        a.lt_spec(b) || a.same_value(b) || b.lt_spec(a),
        !(a.lt_spec(b) && a.same_value(b)),
        !(a.lt_spec(b) && b.lt_spec(a)),
        !(a.same_value(b) && b.lt_spec(a)),
        a.le_spec(b) <==> (a.lt_spec(b) || a.same_value(b)),
{
}

/// "Less than" is transitive, also through "less or equal".
pub proof fn lemma_order_transitive(a: Scalar, b: Scalar, c: Scalar)
    ensures
        a.lt_spec(b) && b.lt_spec(c) ==> a.lt_spec(c),
        a.le_spec(b) && b.le_spec(c) ==> a.le_spec(c),
        a.lt_spec(b) && b.le_spec(c) ==> a.lt_spec(c),
        a.le_spec(b) && b.lt_spec(c) ==> a.lt_spec(c),
{
}

/// The lesser and the greater of two values are each one of the two; of two
/// numbers the lesser bounds both from below and the greater from above; and
/// the result is "not a number" only if both values are.
pub proof fn lemma_min_max(a: Scalar, b: Scalar)
    ensures
        a.min_spec(b) == a || a.min_spec(b) == b,
        a.max_spec(b) == a || a.max_spec(b) == b,
        a.min_spec(b).is_nan() <==> (a.is_nan() && b.is_nan()),
        a.max_spec(b).is_nan() <==> (a.is_nan() && b.is_nan()),
        !a.is_nan() && !b.is_nan() ==> a.min_spec(b).le_spec(a) && a.min_spec(b).le_spec(b),
        !a.is_nan() && !b.is_nan() ==> a.le_spec(a.max_spec(b)) && b.le_spec(a.max_spec(b)),
{
}

/// A clamped number lies in the interval it was clamped to.
pub proof fn lemma_clamp_bounds(x: Scalar, lo: Scalar, hi: Scalar)
    requires
        lo.le_spec(hi),
        !x.is_nan(),
    ensures
        lo.le_spec(x.clamp_spec(lo, hi)),
        x.clamp_spec(lo, hi).le_spec(hi),
        lo.le_spec(x) && x.le_spec(hi) ==> x.clamp_spec(lo, hi) == x,
{
}

/// Among finite numbers of one sign, a greater encoding means a greater
/// absolute value.
proof fn lemma_units_increase(a: Scalar, b: Scalar)
    requires
        a.is_finite(),
        b.is_finite(),
        a.magnitude() < b.magnitude(),
    ensures
        0 <= a.units() < b.units(),
{
    let ea = a.exponent();
    let eb = b.exponent();
    let sa = a.significand();
    let sb = b.significand();
    if ea == 0 {
        if eb > 0 {
            let pb = pow2((eb - 1) as nat);
            lemma_pow2_pos((eb - 1) as nat);
            assert(0x80_0000 <= sb * pb) by (nonlinear_arith)
                requires
                    0x80_0000 <= sb,
                    1 <= pb,
            ;
        }
    } else {
        let pa = pow2((ea - 1) as nat);
        let pb = pow2((eb - 1) as nat);
        lemma_pow2_pos((ea - 1) as nat);
        assert(0 <= sa * pa) by (nonlinear_arith)
            requires
                0 <= sa,
                0 <= pa,
        ;
        if ea == eb {
            assert(sa * pa < sb * pa) by (nonlinear_arith)
                requires
                    sa < sb,
                    0 < pa,
            ;
        } else {
            lemma_pow2_unfold(ea as nat);
            if ea < eb - 1 {
                lemma_pow2_strictly_increases(ea as nat, (eb - 1) as nat);
            }
            assert(sa * pa < sb * pb) by (nonlinear_arith)
                requires
                    0 <= sa < 0x100_0000,
                    0x80_0000 <= sb,
                    0 < pa,
                    2 * pa <= pb,
            ;
        }
    }
}

/// The order of the numbers is the order of their values: of two finite
/// numbers the one of lesser rank has the lesser value, and two of one rank
/// have one value. Infinity lies above every finite number and negative
/// infinity below.
pub proof fn lemma_rank_orders_values(a: Scalar, b: Scalar)
    requires
        a.is_finite(),
        b.is_finite(),
    ensures
        a.rank() < b.rank() <==> a.value() < b.value(),
        a.rank() == b.rank() <==> a.value() == b.value(),
        a.lt(b) <==> a.value() < b.value(),
        a.same_value(b) <==> a.value() == b.value(),
        a.lt(Scalar::infinity()),
        Scalar::neg_infinity().lt(a),
{
    let zero = Scalar { bits: ZERO_BITS };
    if a.magnitude() < b.magnitude() {
        lemma_units_increase(a, b);
    }
    if b.magnitude() < a.magnitude() {
        lemma_units_increase(b, a);
    }
    if 0 < a.magnitude() {
        lemma_units_increase(zero, a);
    }
    if 0 < b.magnitude() {
        lemma_units_increase(zero, b);
    }
}

} // verus!
