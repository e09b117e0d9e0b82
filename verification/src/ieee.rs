//! IEEE 754 values held by their bit patterns.
//!
//! A measured quantity is stored as the bit pattern of a binary32 ([`Single`])
//! or binary64 ([`Double`]) value. Classification, sign handling and ordering
//! are decided on the bit pattern itself; anything that rounds is left to the
//! arithmetic unit of [`crate::arith`].

use vstd::prelude::*;
use vstd::arithmetic::power2::{
    lemma2_to64, lemma_pow2_pos, lemma_pow2_strictly_increases, lemma_pow2_unfold, pow2,
};

verus! {

/// Bit pattern of the smallest normal binary32 value; the fraction of a
/// pattern is what it holds below this.
pub const SINGLE_HIDDEN: u32 = 0x80_0000;

/// Bit pattern of the smallest normal binary64 value.
pub const DOUBLE_HIDDEN: u64 = 0x10_0000_0000_0000;

/// Bit pattern of the binary32 sign bit.
pub const SINGLE_SIGN: u32 = 0x8000_0000;

/// Bit pattern of binary32 positive infinity.
pub const SINGLE_INFINITY: u32 = 0x7f80_0000;

/// Bit pattern of the binary64 sign bit.
pub const DOUBLE_SIGN: u64 = 0x8000_0000_0000_0000;

/// Bit pattern of binary64 positive infinity.
pub const DOUBLE_INFINITY: u64 = 0x7ff0_0000_0000_0000;

/// A binary32 value, identified by its bit pattern.
///
/// `==` on this type compares bit patterns: it tells `0.0` from `-0.0` and
/// equates a NaN with itself. Numeric equality is [`Single::same`].
#[derive(Clone, Copy, Debug, PartialEq, Eq, Structural)]
pub struct Single {
    pub bits: u32,
}

/// A binary64 value, identified by its bit pattern.
///
/// `==` on this type compares bit patterns; numeric equality is
/// [`Double::same`].
#[derive(Clone, Copy, Debug, PartialEq, Eq, Structural)]
pub struct Double {
    pub bits: u64,
}

impl Single {
    /// The value with the given bit pattern.
    pub open spec fn of(bits: u32) -> Single {
        Single { bits }
    }

    /// The bit pattern without its sign bit.
    pub open spec fn magnitude(self) -> u32 {
        if self.bits >= SINGLE_SIGN {
            (self.bits - SINGLE_SIGN) as u32
        } else {
            self.bits
        }
    }

    /// Whether the sign bit is set.
    pub open spec fn negative(self) -> bool {
        self.bits >= SINGLE_SIGN
    }

    /// Whether the value is a NaN.
    pub open spec fn nan(self) -> bool {
        self.magnitude() > SINGLE_INFINITY
    }

    /// Whether the value is `0.0` or `-0.0`.
    pub open spec fn zero(self) -> bool {
        self.magnitude() == 0
    }

    /// Position of a non-NaN value on the number line: two non-NaN values
    /// compare as their ranks do. Both zeros have rank 0.
    pub open spec fn rank(self) -> int {
        if self.negative() {
            -(self.magnitude() as int)
        } else {
            self.magnitude() as int
        }
    }

    /// Whether the value is a number other than an infinity.
    pub open spec fn finite(self) -> bool {
        self.magnitude() < SINGLE_INFINITY
    }

    /// The biased exponent.
    pub open spec fn exponent(self) -> nat {
        (self.magnitude() / SINGLE_HIDDEN) as nat
    }

    /// The fraction bits.
    pub open spec fn fraction(self) -> nat {
        (self.magnitude() % SINGLE_HIDDEN) as nat
    }

    /// The number that a finite pattern stands for, in units of 2^-149:
    /// the fraction where the exponent is zero, and the fraction with the
    /// hidden bit, doubled once for each step of the exponent above one,
    /// otherwise; negative where the sign bit is set.
    pub open spec fn quanta(self) -> int {
        let size = if self.exponent() == 0 {
            self.fraction() as int
        } else {
            (SINGLE_HIDDEN + self.fraction()) * pow2((self.exponent() - 1) as nat)
        };
        if self.negative() {
            -size
        } else {
            size
        }
    }

    /// Numeric `<`: false as soon as one side is a NaN.
    pub open spec fn below(self, other: Single) -> bool {
        !self.nan() && !other.nan() && self.rank() < other.rank()
    }

    /// Numeric `<=`: false as soon as one side is a NaN.
    pub open spec fn at_most(self, other: Single) -> bool {
        !self.nan() && !other.nan() && self.rank() <= other.rank()
    }

    /// Numeric `==`: false as soon as one side is a NaN, true of the two zeros.
    pub open spec fn alike(self, other: Single) -> bool {
        !self.nan() && !other.nan() && self.rank() == other.rank()
    }

    /// The value with its sign bit cleared.
    pub open spec fn absolute(self) -> Single {
        Single { bits: self.magnitude() }
    }

    /// The value with its sign bit flipped.
    pub open spec fn opposite(self) -> Single {
        if self.negative() {
            Single { bits: self.magnitude() }
        } else {
            Single { bits: (self.bits + SINGLE_SIGN) as u32 }
        }
    }

    /// The larger of two values, ignoring a NaN where the other side is a
    /// number. Of two numerically equal values the first is kept.
    pub open spec fn larger(self, other: Single) -> Single {
        if self.nan() {
            other
        } else if other.nan() {
            self
        } else if self.rank() < other.rank() {
            other
        } else {
            self
        }
    }

    /// The value with the given bit pattern.
    pub fn from_bits(bits: u32) -> (r: Single)
        ensures
            r == Single::of(bits),
    {
        Single { bits }
    }

    /// The bit pattern of the value.
    pub fn to_bits(self) -> (r: u32)
        ensures
            r == self.bits,
    {
        self.bits
    }

    fn magnitude_bits(self) -> (r: u32)
        ensures
            r == self.magnitude(),
    {
        if self.bits >= SINGLE_SIGN {
            self.bits - SINGLE_SIGN
        } else {
            self.bits
        }
    }

    fn rank_value(self) -> (r: i64)
        ensures
            r == self.rank(),
    {
        let magnitude: u32 = self.magnitude_bits();
        if self.bits >= SINGLE_SIGN {
            -(magnitude as i64)
        } else {
            magnitude as i64
        }
    }

    /// Whether the value is a NaN.
    pub fn is_nan(self) -> (r: bool)
        ensures
            r == self.nan(),
    {
        self.magnitude_bits() > SINGLE_INFINITY
    }

    /// Whether the sign bit is set (true of `-0.0` and of a NaN with that bit).
    pub fn is_sign_negative(self) -> (r: bool)
        ensures
            r == self.negative(),
    {
        self.bits >= SINGLE_SIGN
    }

    /// Whether the value is `0.0` or `-0.0`.
    pub fn is_zero(self) -> (r: bool)
        ensures
            r == self.zero(),
    {
        self.magnitude_bits() == 0
    }

    /// Numeric `self < other`.
    pub fn lt(self, other: Single) -> (r: bool)
        ensures
            r == self.below(other),
    {
        !self.is_nan() && !other.is_nan() && self.rank_value() < other.rank_value()
    }

    /// Numeric `self <= other`.
    pub fn le(self, other: Single) -> (r: bool)
        ensures
            r == self.at_most(other),
    {
        !self.is_nan() && !other.is_nan() && self.rank_value() <= other.rank_value()
    }

    /// Numeric `self > other`.
    pub fn gt(self, other: Single) -> (r: bool)
        ensures
            r == other.below(self),
    {
        other.lt(self)
    }

    /// Numeric `self >= other`.
    pub fn ge(self, other: Single) -> (r: bool)
        ensures
            r == other.at_most(self),
    {
        other.le(self)
    }

    /// Numeric `self == other`.
    pub fn same(self, other: Single) -> (r: bool)
        ensures
            r == self.alike(other),
    {
        !self.is_nan() && !other.is_nan() && self.rank_value() == other.rank_value()
    }

    /// The absolute value: the same bits with the sign bit cleared.
    pub fn abs(self) -> (r: Single)
        ensures
            r == self.absolute(),
    {
        Single { bits: self.magnitude_bits() }
    }

    /// The negation: the same bits with the sign bit flipped.
    pub fn neg(self) -> (r: Single)
        ensures
            r == self.opposite(),
    {
        if self.bits >= SINGLE_SIGN {
            Single { bits: self.bits - SINGLE_SIGN }
        } else {
            Single { bits: self.bits + SINGLE_SIGN }
        }
    }

    /// The larger of the two values; a NaN loses against a number.
    pub fn max(self, other: Single) -> (r: Single)
        ensures
            r == self.larger(other),
    {
        if self.is_nan() {
            other
        } else if other.is_nan() {
            self
        } else if self.rank_value() < other.rank_value() {
            other
        } else {
            self
        }
    }
}

impl Double {
    /// The value with the given bit pattern.
    pub open spec fn of(bits: u64) -> Double {
        Double { bits }
    }

    /// The bit pattern without its sign bit.
    pub open spec fn magnitude(self) -> u64 {
        if self.bits >= DOUBLE_SIGN {
            (self.bits - DOUBLE_SIGN) as u64
        } else {
            self.bits
        }
    }

    /// Whether the sign bit is set.
    pub open spec fn negative(self) -> bool {
        self.bits >= DOUBLE_SIGN
    }

    /// Whether the value is a NaN.
    pub open spec fn nan(self) -> bool {
        self.magnitude() > DOUBLE_INFINITY
    }

    /// Whether the value is `0.0` or `-0.0`.
    pub open spec fn zero(self) -> bool {
        self.magnitude() == 0
    }

    /// Position of a non-NaN value on the number line: two non-NaN values
    /// compare as their ranks do. Both zeros have rank 0.
    pub open spec fn rank(self) -> int {
        if self.negative() {
            -(self.magnitude() as int)
        } else {
            self.magnitude() as int
        }
    }

    /// Whether the value is a number other than an infinity.
    pub open spec fn finite(self) -> bool {
        self.magnitude() < DOUBLE_INFINITY
    }

    /// The biased exponent.
    pub open spec fn exponent(self) -> nat {
        (self.magnitude() / DOUBLE_HIDDEN) as nat
    }

    /// The fraction bits.
    pub open spec fn fraction(self) -> nat {
        (self.magnitude() % DOUBLE_HIDDEN) as nat
    }

    /// The number that a finite pattern stands for, in units of 2^-1074:
    /// the fraction where the exponent is zero, and the fraction with the
    /// hidden bit, doubled once for each step of the exponent above one,
    /// otherwise; negative where the sign bit is set.
    pub open spec fn quanta(self) -> int {
        let size = if self.exponent() == 0 {
            self.fraction() as int
        } else {
            (DOUBLE_HIDDEN + self.fraction()) * pow2((self.exponent() - 1) as nat)
        };
        if self.negative() {
            -size
        } else {
            size
        }
    }

    /// Numeric `<`: false as soon as one side is a NaN.
    pub open spec fn below(self, other: Double) -> bool {
        !self.nan() && !other.nan() && self.rank() < other.rank()
    }

    /// Numeric `<=`: false as soon as one side is a NaN.
    pub open spec fn at_most(self, other: Double) -> bool {
        !self.nan() && !other.nan() && self.rank() <= other.rank()
    }

    /// Numeric `==`: false as soon as one side is a NaN, true of the two zeros.
    pub open spec fn alike(self, other: Double) -> bool {
        !self.nan() && !other.nan() && self.rank() == other.rank()
    }

    /// The value with its sign bit cleared.
    pub open spec fn absolute(self) -> Double {
        Double { bits: self.magnitude() }
    }

    /// The value with the given bit pattern.
    pub fn from_bits(bits: u64) -> (r: Double)
        ensures
            r == Double::of(bits),
    {
        Double { bits }
    }

    /// The bit pattern of the value.
    pub fn to_bits(self) -> (r: u64)
        ensures
            r == self.bits,
    {
        self.bits
    }

    fn magnitude_bits(self) -> (r: u64)
        ensures
            r == self.magnitude(),
    {
        if self.bits >= DOUBLE_SIGN {
            self.bits - DOUBLE_SIGN
        } else {
            self.bits
        }
    }

    fn rank_value(self) -> (r: i64)
        ensures
            r == self.rank(),
    {
        let magnitude: u64 = self.magnitude_bits();
        if self.bits >= DOUBLE_SIGN {
            -(magnitude as i64)
        } else {
            magnitude as i64
        }
    }

    /// Whether the value is a NaN.
    pub fn is_nan(self) -> (r: bool)
        ensures
            r == self.nan(),
    {
        self.magnitude_bits() > DOUBLE_INFINITY
    }

    /// Whether the sign bit is set (true of `-0.0` and of a NaN with that bit).
    pub fn is_sign_negative(self) -> (r: bool)
        ensures
            r == self.negative(),
    {
        self.bits >= DOUBLE_SIGN
    }

    /// Numeric `self < other`.
    pub fn lt(self, other: Double) -> (r: bool)
        ensures
            r == self.below(other),
    {
        !self.is_nan() && !other.is_nan() && self.rank_value() < other.rank_value()
    }

    /// Numeric `self <= other`.
    pub fn le(self, other: Double) -> (r: bool)
        ensures
            r == self.at_most(other),
    {
        !self.is_nan() && !other.is_nan() && self.rank_value() <= other.rank_value()
    }

    /// Numeric `self > other`.
    pub fn gt(self, other: Double) -> (r: bool)
        ensures
            r == other.below(self),
    {
        other.lt(self)
    }

    /// Numeric `self >= other`.
    pub fn ge(self, other: Double) -> (r: bool)
        ensures
            r == other.at_most(self),
    {
        other.le(self)
    }

    /// Numeric `self == other`.
    pub fn same(self, other: Double) -> (r: bool)
        ensures
            r == self.alike(other),
    {
        !self.is_nan() && !other.is_nan() && self.rank_value() == other.rank_value()
    }

    /// The absolute value: the same bits with the sign bit cleared.
    pub fn abs(self) -> (r: Double)
        ensures
            r == self.absolute(),
    {
        Double { bits: self.magnitude_bits() }
    }
}

/// What a pattern of exponent `e` and fraction `f` stands for, in units of
/// the smallest subnormal, where the hidden bit is `hidden`.
pub open spec fn size_of(hidden: int, e: nat, f: nat) -> int {
    if e == 0 {
        f as int
    } else {
        (hidden + f) * pow2((e - 1) as nat)
    }
}

/// A larger exponent, or the same exponent and a larger fraction, stand for
/// a larger number.
pub proof fn lemma_size_grows(hidden: int, e1: nat, f1: nat, e2: nat, f2: nat)
    requires
        hidden > 0,
        f1 < hidden,
        f2 < hidden,
        e1 < e2 || (e1 == e2 && f1 < f2),
    ensures
        0 <= size_of(hidden, e1, f1) < size_of(hidden, e2, f2),
{
    if e1 == e2 {
        if e1 > 0 {
            let p = pow2((e1 - 1) as nat) as int;
            lemma_pow2_pos((e1 - 1) as nat);
            assert((hidden + f1) * p < (hidden + f2) * p) by (nonlinear_arith)
                requires
                    p > 0,
                    f1 < f2,
            ;
            assert(0 <= (hidden + f1) * p) by (nonlinear_arith)
                requires
                    p > 0,
                    hidden > 0,
                    f1 >= 0,
            ;
        }
    } else {
        let q = pow2((e2 - 1) as nat) as int;
        lemma_pow2_pos((e2 - 1) as nat);
        // The smaller number is below `hidden * 2^e1`, and the larger is
        // at least `hidden * 2^(e2 - 1)`.
        let top = hidden * pow2(e1);
        if e1 == 0 {
            lemma2_to64();
            assert(size_of(hidden, e1, f1) < top);
        } else {
            let p = pow2((e1 - 1) as nat) as int;
            lemma_pow2_pos((e1 - 1) as nat);
            lemma_pow2_unfold(e1);
            assert(pow2(e1) == 2 * p);
            assert((hidden + f1) * p < hidden * (2 * p)) by (nonlinear_arith)
                requires
                    p > 0,
                    0 <= f1 < hidden,
            ;
            assert(0 <= (hidden + f1) * p) by (nonlinear_arith)
                requires
                    p > 0,
                    hidden > 0,
                    f1 >= 0,
            ;
        }
        if e1 < e2 - 1 {
            lemma_pow2_strictly_increases(e1, (e2 - 1) as nat);
        }
        assert(pow2(e1) <= q);
        assert(hidden * pow2(e1) <= (hidden + f2) * q) by (nonlinear_arith)
            requires
                hidden > 0,
                f2 >= 0,
                0 <= pow2(e1) <= q,
        ;
    }
}

/// The order of the library is the order of the numbers: of two finite
/// binary32 values one is `<` the other exactly where it stands for the
/// smaller number, and they are `==` exactly where they stand for the same.
pub proof fn lemma_single_order_is_numeric(a: Single, b: Single)
    requires
        a.finite(),
        b.finite(),
    ensures
        a.below(b) <==> a.quanta() < b.quanta(),
        a.alike(b) <==> a.quanta() == b.quanta(),
        a.at_most(b) <==> a.quanta() <= b.quanta(),
{
    let hidden = SINGLE_HIDDEN as int;
    let (ma, mb) = (a.magnitude(), b.magnitude());
    let (ea, fa) = (a.exponent(), a.fraction());
    let (eb, fb) = (b.exponent(), b.fraction());
    assert(ma == ea * hidden + fa && mb == eb * hidden + fb);
    assert(a.quanta() == if a.negative() { -size_of(hidden, ea, fa) } else { size_of(hidden, ea, fa) });
    assert(b.quanta() == if b.negative() { -size_of(hidden, eb, fb) } else { size_of(hidden, eb, fb) });
    if ma < mb {
        assert(ea < eb || (ea == eb && fa < fb)) by (nonlinear_arith)
            requires
                ma == ea * hidden + fa,
                mb == eb * hidden + fb,
                0 <= fa < hidden,
                0 <= fb < hidden,
                ma < mb,
        ;
        lemma_size_grows(hidden, ea, fa, eb, fb);
    } else if mb < ma {
        assert(eb < ea || (ea == eb && fb < fa)) by (nonlinear_arith)
            requires
                ma == ea * hidden + fa,
                mb == eb * hidden + fb,
                0 <= fa < hidden,
                0 <= fb < hidden,
                mb < ma,
        ;
        lemma_size_grows(hidden, eb, fb, ea, fa);
    }
    lemma_size_not_negative(hidden, ea, fa);
    lemma_size_not_negative(hidden, eb, fb);
}

/// No pattern stands for a number below zero once its sign is set aside,
/// and only the pattern of zero stands for zero.
pub proof fn lemma_size_not_negative(hidden: int, e: nat, f: nat)
    requires
        hidden > 0,
    ensures
        size_of(hidden, e, f) >= 0,
        size_of(hidden, e, f) == 0 <==> e == 0 && f == 0,
{
    if e > 0 {
        let p = pow2((e - 1) as nat) as int;
        lemma_pow2_pos((e - 1) as nat);
        assert((hidden + f) * p > 0) by (nonlinear_arith)
            requires
                p > 0,
                hidden > 0,
                f >= 0,
        ;
    }
}

/// The order of the library is the order of the numbers on binary64 values
/// too.
pub proof fn lemma_double_order_is_numeric(a: Double, b: Double)
    requires
        a.finite(),
        b.finite(),
    ensures
        a.below(b) <==> a.quanta() < b.quanta(),
        a.alike(b) <==> a.quanta() == b.quanta(),
        a.at_most(b) <==> a.quanta() <= b.quanta(),
{
    let hidden = DOUBLE_HIDDEN as int;
    let (ma, mb) = (a.magnitude(), b.magnitude());
    let (ea, fa) = (a.exponent(), a.fraction());
    let (eb, fb) = (b.exponent(), b.fraction());
    assert(ma == ea * hidden + fa && mb == eb * hidden + fb);
    assert(a.quanta() == if a.negative() { -size_of(hidden, ea, fa) } else { size_of(hidden, ea, fa) });
    assert(b.quanta() == if b.negative() { -size_of(hidden, eb, fb) } else { size_of(hidden, eb, fb) });
    if ma < mb {
        assert(ea < eb || (ea == eb && fa < fb)) by (nonlinear_arith)
            requires
                ma == ea * hidden + fa,
                mb == eb * hidden + fb,
                0 <= fa < hidden,
                0 <= fb < hidden,
                ma < mb,
        ;
        lemma_size_grows(hidden, ea, fa, eb, fb);
    } else if mb < ma {
        assert(eb < ea || (ea == eb && fb < fa)) by (nonlinear_arith)
            requires
                ma == ea * hidden + fa,
                mb == eb * hidden + fb,
                0 <= fa < hidden,
                0 <= fb < hidden,
                mb < ma,
        ;
        lemma_size_grows(hidden, eb, fb, ea, fa);
    }
    lemma_size_not_negative(hidden, ea, fa);
    lemma_size_not_negative(hidden, eb, fb);
}

/// Flipping the sign bit negates the number, clearing it gives its absolute
/// value, and the larger of two finite values stands for the larger number.
pub proof fn lemma_single_signs_are_numeric(a: Single, b: Single)
    requires
        a.finite(),
        b.finite(),
    ensures
        a.opposite().finite() && a.opposite().quanta() == -a.quanta(),
        a.absolute().finite() && a.absolute().quanta() == (if a.quanta() < 0 {
            -a.quanta()
        } else {
            a.quanta()
        }),
        a.larger(b).quanta() == (if a.quanta() < b.quanta() {
            b.quanta()
        } else {
            a.quanta()
        }),
{
    lemma_single_order_is_numeric(a, b);
    lemma_size_not_negative(SINGLE_HIDDEN as int, a.exponent(), a.fraction());
}

/// An infinity is beyond every finite value: nothing finite is above the
/// positive one or below the negative one.
pub proof fn lemma_infinities(a: Single, b: Double)
    ensures
        a.finite() ==> a.below(Single::of(SINGLE_INFINITY)) && Single::of(
            (SINGLE_INFINITY + SINGLE_SIGN) as u32,
        ).below(a),
        b.finite() ==> b.below(Double::of(DOUBLE_INFINITY)) && Double::of(
            (DOUBLE_INFINITY + DOUBLE_SIGN) as u64,
        ).below(b),
{
}

/// On binary32 values that are no NaN, `<` is a strict order in which any
/// two values are comparable: exactly one of `a < b`, `a == b` and `b < a`
/// holds, `<` is transitive, `<=` is `<` or `==`, and the absolute value
/// is never below zero. A NaN compares with nothing.
pub proof fn lemma_single_order(a: Single, b: Single, c: Single)
    ensures
        !a.nan() && !b.nan() ==> (a.below(b) || a.alike(b) || b.below(a)),
        !(a.below(b) && b.below(a)),
        !(a.below(b) && a.alike(b)),
        a.below(b) && b.below(c) ==> a.below(c),
        a.at_most(b) <==> a.below(b) || a.alike(b),
        a.nan() ==> !a.below(b) && !b.below(a) && !a.alike(b) && !a.at_most(b),
        !a.nan() ==> a.alike(a) && !a.absolute().nan() && !a.absolute().below(Single::of(0)),
        a.absolute() == a.opposite().absolute(),
        a.opposite().opposite() == a,
        !a.nan() && !b.nan() ==> (a.opposite().below(b.opposite()) <==> b.below(a)),
{
}

/// The larger of two binary32 values is one of them, and is below neither
/// unless it is a NaN, which it is only where both are.
pub proof fn lemma_single_larger(a: Single, b: Single)
    ensures
        a.larger(b) == a || a.larger(b) == b,
        a.larger(b).nan() <==> a.nan() && b.nan(),
        !a.larger(b).below(a),
        !a.larger(b).below(b),
{
}

/// On binary64 values that are no NaN, `<` is a strict order in which any
/// two values are comparable, and a NaN compares with nothing.
pub proof fn lemma_double_order(a: Double, b: Double, c: Double)
    ensures
        !a.nan() && !b.nan() ==> (a.below(b) || a.alike(b) || b.below(a)),
        !(a.below(b) && b.below(a)),
        !(a.below(b) && a.alike(b)),
        a.below(b) && b.below(c) ==> a.below(c),
        a.at_most(b) <==> a.below(b) || a.alike(b),
        a.nan() ==> !a.below(b) && !b.below(a) && !a.alike(b) && !a.at_most(b),
        !a.nan() ==> a.alike(a) && !a.absolute().nan() && !a.absolute().below(Double::of(0)),
{
}

} // verus!
