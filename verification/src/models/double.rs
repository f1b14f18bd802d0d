//! IEEE 754 double-precision numbers, held by their bit patterns.
//!
//! A `Double` is the 64 bits of a double-precision number: one sign bit, eleven
//! exponent bits and fifty-two fraction bits. Its mathematical meaning is given
//! by [`Double::value`], an integer count of units of 2^-1074, the spacing of the
//! smallest subnormals; every finite double is a whole number of such units.
//! Comparisons are computed on the bits and proved to agree with the order of
//! the values, with the IEEE rule that a NaN compares false to everything.

use vstd::prelude::*;
use vstd::arithmetic::mul::{
    lemma_mul_inequality, lemma_mul_is_associative, lemma_mul_is_commutative,
    lemma_mul_strict_inequality,
};
use vstd::arithmetic::power2::{
    lemma2_to64, lemma_pow2_adds, lemma_pow2_pos, lemma_pow2_strictly_increases,
    lemma_pow2_unfold, pow2,
};

verus! {

/// The sign bit.
pub const SIGN_BIT: u64 = 0x8000_0000_0000_0000;

/// The bits of positive infinity: every exponent bit set, no fraction bit.
pub const INFINITY: u64 = 0x7FF0_0000_0000_0000;

/// 2^52: the weight of the lowest exponent bit, and the leading bit that a
/// normal number's significand has without storing it.
pub const HIDDEN_BIT: u64 = 0x0010_0000_0000_0000;

/// The exponent, in units of 2^-1074, of the value one: `pow2(UNIT_EXPONENT)`
/// units make 1.
pub const UNIT_EXPONENT: u64 = 1074;

/// The bits of zero.
pub const ZERO: u64 = 0;

/// The bits of one.
pub const ONE: u64 = 0x3FF0_0000_0000_0000;

/// A double-precision number, by its bits.
#[derive(Clone, Copy, Debug)]
pub struct Double {
    pub bits: u64,
}

/// The double with the given bits, for use in specifications.
pub open spec fn double(bits: u64) -> Double {
    Double { bits }
}

/// The whole number `n` in the units of [`Double::value`].
pub open spec fn whole(n: int) -> int {
    n * pow2(UNIT_EXPONENT as nat)
}

/// The size, in units of 2^-1074, of the number whose bits below the sign bit
/// are `magnitude`.
pub open spec fn size_of(magnitude: nat) -> nat {
    let exponent = magnitude / (HIDDEN_BIT as nat);
    let fraction = magnitude % (HIDDEN_BIT as nat);
    if exponent == 0 {
        fraction
    } else {
        (HIDDEN_BIT as nat + fraction) * pow2((exponent - 1) as nat)
    }
}

/// A number with more bits below the sign bit is larger in size.
pub proof fn lemma_size_increases(m: nat, n: nat)
    requires
        m < n,
    ensures
        size_of(m) < size_of(n),
{
    let h = HIDDEN_BIT as nat;
    let (em, fm) = (m / h, m % h);
    let (en, fn_) = (n / h, n % h);
    assert(em <= en);
    if em == en {
        assert(fm < fn_);
        if em > 0 {
            let p = pow2((em - 1) as nat);
            lemma_pow2_pos((em - 1) as nat);
            lemma_mul_strict_inequality((h + fm) as int, (h + fn_) as int, p as int);
        }
    } else {
        // size_of(m) < h * pow2(em) <= h * pow2(en - 1) <= size_of(n)
        let q = pow2((en - 1) as nat);
        lemma_pow2_pos((en - 1) as nat);
        lemma_pow2_pos(em);
        if em < en - 1 {
            lemma_pow2_strictly_increases(em, (en - 1) as nat);
        }
        assert(pow2(em) <= q);
        lemma_mul_is_commutative(h as int, pow2(em) as int);
        lemma_mul_is_commutative(h as int, q as int);
        lemma_mul_inequality(pow2(em) as int, q as int, h as int);
        assert(h * pow2(em) <= h * q);
        lemma_mul_is_commutative((h + fn_) as int, q as int);
        lemma_mul_inequality(h as int, (h + fn_) as int, q as int);
        assert(h * q <= size_of(n));
        if em == 0 {
            assert(pow2(0) == 1) by {
                lemma2_to64();
            }
            assert(size_of(m) < h * pow2(em));
        } else {
            let p = pow2((em - 1) as nat);
            lemma_pow2_pos((em - 1) as nat);
            lemma_pow2_unfold(em);
            assert(pow2(em) == 2 * p);
            lemma_mul_strict_inequality((h + fm) as int, (2 * h) as int, p as int);
            assert((2 * h) * p == h * (2 * p)) by (nonlinear_arith);
            assert(size_of(m) < h * pow2(em));
        }
    }
}

/// Sizes are ordered as the bits below the sign bit are.
pub proof fn lemma_size_order(m: nat, n: nat)
    ensures
        m < n <==> size_of(m) < size_of(n),
        m == n <==> size_of(m) == size_of(n),
{
    if m < n {
        lemma_size_increases(m, n);
    }
    if n < m {
        lemma_size_increases(n, m);
    }
}

impl Double {
    /// The sign bit is set. Zeros, infinities and NaNs carry a sign too.
    pub open spec fn sign(self) -> bool {
        self.bits >= SIGN_BIT
    }

    /// The bits below the sign bit, as a number.
    pub open spec fn magnitude(self) -> nat {
        if self.bits >= SIGN_BIT {
            (self.bits - SIGN_BIT) as nat
        } else {
            self.bits as nat
        }
    }

    /// The bits stand for no number.
    pub open spec fn nan(self) -> bool {
        self.magnitude() > INFINITY
    }

    /// The bits stand for a zero, a subnormal or a normal number: neither an
    /// infinity nor a NaN.
    pub open spec fn finite(self) -> bool {
        self.magnitude() < INFINITY
    }

    /// The number in units of 2^-1074. Both zeros have the value 0. An
    /// infinity has the value that the next exponent would give it, so that it
    /// lies beyond every finite number. The value of a NaN means nothing.
    pub open spec fn value(self) -> int {
        if self.sign() {
            -(size_of(self.magnitude()) as int)
        } else {
            size_of(self.magnitude()) as int
        }
    }

    /// `self < other` as IEEE 754 orders them.
    pub open spec fn below(self, other: Double) -> bool {
        !self.nan() && !other.nan() && self.value() < other.value()
    }

    /// `self <= other` as IEEE 754 orders them.
    pub open spec fn at_most(self, other: Double) -> bool {
        !self.nan() && !other.nan() && self.value() <= other.value()
    }

    /// `self > other` as IEEE 754 orders them.
    pub open spec fn above(self, other: Double) -> bool {
        other.below(self)
    }

    /// `self >= other` as IEEE 754 orders them.
    pub open spec fn at_least(self, other: Double) -> bool {
        other.at_most(self)
    }

    /// The exponent field: 0 for zeros and subnormals, 2047 for infinities and
    /// NaNs.
    pub open spec fn exponent(self) -> nat {
        self.magnitude() / (HIDDEN_BIT as nat)
    }

    /// The significand as a whole number: the fraction bits, and above them the
    /// leading bit of a normal number.
    pub open spec fn significand(self) -> nat {
        if self.exponent() == 0 {
            self.magnitude() % (HIDDEN_BIT as nat)
        } else {
            HIDDEN_BIT as nat + self.magnitude() % (HIDDEN_BIT as nat)
        }
    }

    /// The distance, in units of 2^-1074, from this number's size to the next
    /// larger size that a double can have.
    pub open spec fn spacing(self) -> nat {
        if self.exponent() == 0 {
            1
        } else {
            pow2((self.exponent() - 1) as nat)
        }
    }

    /// The number is exactly `num / den`.
    pub open spec fn equals_ratio(self, num: int, den: int) -> bool {
        den > 0 && self.finite() && den * self.value() == num * pow2(UNIT_EXPONENT as nat)
    }

    /// The number lies within half its spacing of `num / den`, as the double
    /// that `num / den` rounds to does.
    pub open spec fn rounds_ratio(self, num: int, den: int) -> bool {
        let gap = den * self.value() - num * pow2(UNIT_EXPONENT as nat);
        den > 0 && self.finite() && -(den * self.spacing()) <= 2 * gap <= den * self.spacing()
    }

    /// `self` where it lies between `low` and `high`, else the bound that it
    /// lies beyond. A NaN stays as it is.
    pub open spec fn clamped(self, low: Double, high: Double) -> Double {
        if self.below(low) {
            low
        } else if self.above(high) {
            high
        } else {
            self
        }
    }

    /// The double with the given bits.
    pub fn from_bits(bits: u64) -> (d: Double)
        ensures
            d.bits == bits,
    {
        Double { bits }
    }

    /// The bits of the double.
    pub fn to_bits(self) -> (bits: u64)
        ensures
            bits == self.bits,
    {
        self.bits
    }

    fn magnitude_bits(self) -> (m: u64)
        ensures
            m == self.magnitude(),
    {
        if self.bits >= SIGN_BIT {
            self.bits - SIGN_BIT
        } else {
            self.bits
        }
    }

    /// Whether the bits stand for no number.
    #[verifier::when_used_as_spec(nan)]
    pub fn is_nan(self) -> (r: bool)
        ensures
            r == self.nan(),
    {
        self.magnitude_bits() > INFINITY
    }

    /// `self < other`; false if either is a NaN.
    #[verifier::when_used_as_spec(below)]
    pub fn lt(self, other: Double) -> (r: bool)
        ensures
            r == self.below(other),
    {
        if self.is_nan() || other.is_nan() {
            return false;
        }
        let a = self.magnitude_bits();
        let b = other.magnitude_bits();
        proof {
            lemma_size_order(a as nat, b as nat);
            lemma_size_order(a as nat, 0);
            lemma_size_order(b as nat, 0);
        }
        if self.bits >= SIGN_BIT {
            if other.bits >= SIGN_BIT {
                b < a
            } else {
                a > 0 || b > 0
            }
        } else {
            if other.bits >= SIGN_BIT {
                false
            } else {
                a < b
            }
        }
    }

    /// `self <= other`; false if either is a NaN.
    #[verifier::when_used_as_spec(at_most)]
    pub fn le(self, other: Double) -> (r: bool)
        ensures
            r == self.at_most(other),
    {
        if self.is_nan() || other.is_nan() {
            return false;
        }
        let a = self.magnitude_bits();
        let b = other.magnitude_bits();
        proof {
            lemma_size_order(a as nat, b as nat);
            lemma_size_order(a as nat, 0);
            lemma_size_order(b as nat, 0);
        }
        if self.bits >= SIGN_BIT {
            if other.bits >= SIGN_BIT {
                b <= a
            } else {
                true
            }
        } else {
            if other.bits >= SIGN_BIT {
                a == 0 && b == 0
            } else {
                a <= b
            }
        }
    }

    /// `self > other`; false if either is a NaN.
    #[verifier::when_used_as_spec(above)]
    pub fn gt(self, other: Double) -> (r: bool)
        ensures
            r == self.above(other),
    {
        other.lt(self)
    }

    /// `self >= other`; false if either is a NaN.
    #[verifier::when_used_as_spec(at_least)]
    pub fn ge(self, other: Double) -> (r: bool)
        ensures
            r == self.at_least(other),
    {
        other.le(self)
    }

    /// Restricts the number to the range from `low` to `high`.
    pub fn clamp(self, low: Double, high: Double) -> (r: Double)
        requires
            low.at_most(high),
        ensures
            r == self.clamped(low, high),
            !self.nan() ==> low.value() <= r.value() <= high.value(),
            !self.nan() ==> !r.nan(),
            self.nan() ==> r == self,
    {
        if self.lt(low) {
            low
        } else if self.gt(high) {
            high
        } else {
            self
        }
    }
}

/// The value of a positive normal number below 2^53 is its significand times a
/// power of two that depends on the exponent field alone.
pub proof fn lemma_value_by_significand(d: Double)
    requires
        1 <= d.exponent() <= 1075,
    ensures
        d.finite(),
        size_of(d.magnitude()) * pow2((1075 - d.exponent()) as nat) == d.significand() * pow2(
            UNIT_EXPONENT as nat,
        ),
        d.spacing() * pow2((1075 - d.exponent()) as nat) == pow2(UNIT_EXPONENT as nat),
{
    let e = d.exponent();
    let low = pow2((e - 1) as nat);
    let high = pow2((1075 - e) as nat);
    lemma_pow2_adds((e - 1) as nat, (1075 - e) as nat);
    assert(low * high == pow2(1074));
    lemma_mul_is_associative(d.significand() as int, low as int, high as int);
}

/// A double whose significand is `num / den` times a power of two, the one that
/// its exponent field calls for, is exactly `num / den`.
pub proof fn lemma_equals_ratio(d: Double, num: int, den: int)
    requires
        den > 0,
        1 <= d.exponent() <= 1075,
        num >= 0 <==> !d.sign(),
        den * d.significand() == (if num >= 0 {
            num
        } else {
            -num
        }) * pow2((1075 - d.exponent()) as nat),
    ensures
        d.equals_ratio(num, den),
        d.rounds_ratio(num, den),
{
    lemma_value_by_significand(d);
    let k = pow2((1075 - d.exponent()) as nat);
    let u = pow2(UNIT_EXPONENT as nat);
    let s = size_of(d.magnitude());
    let n = if num >= 0 { num } else { -num };
    lemma_pow2_pos((1075 - d.exponent()) as nat);
    // (den * s) * k == den * (sig * u) == (den * sig) * u == (n * k) * u
    assert((den * s) * k == den * (s * k)) by (nonlinear_arith);
    assert(den * (d.significand() * u) == (den * d.significand()) * u) by (nonlinear_arith);
    assert((n * k) * u == (n * u) * k) by (nonlinear_arith);
    assert((den * s) * k == (n * u) * k);
    assert(den * s == n * u) by (nonlinear_arith)
        requires
            (den * s) * k == (n * u) * k,
            k > 0,
    ;
    assert(den * d.value() == num * u) by (nonlinear_arith)
        requires
            den * s == n * u,
            d.value() == (if num >= 0 { s as int } else { -(s as int) }),
            n == (if num >= 0 { num } else { -num }),
    ;
    assert(den * d.spacing() >= 0) by (nonlinear_arith)
        requires
            den > 0,
            d.spacing() >= 0,
    ;
}

/// A positive double whose significand, scaled by `den`, lies within `den / 2`
/// of `num` times the power of two that its exponent field calls for, lies
/// within half its spacing of `num / den`.
pub proof fn lemma_rounds_ratio(d: Double, num: int, den: int)
    requires
        den > 0,
        !d.sign(),
        1 <= d.exponent() <= 1075,
        -den <= 2 * (den * d.significand() - num * pow2((1075 - d.exponent()) as nat)) <= den,
    ensures
        d.rounds_ratio(num, den),
{
    lemma_value_by_significand(d);
    let k = pow2((1075 - d.exponent()) as nat) as int;
    let u = pow2(UNIT_EXPONENT as nat) as int;
    let s = size_of(d.magnitude()) as int;
    let sig = d.significand() as int;
    let w = d.spacing() as int;
    lemma_pow2_pos((1075 - d.exponent()) as nat);
    lemma_pow2_pos((d.exponent() - 1) as nat);
    let gap = den * s - num * u;
    // s == sig * w and u == k * w
    assert(s == sig * w);
    assert(w * k == u);
    assert(gap == (den * sig - num * k) * w) by (nonlinear_arith)
        requires
            gap == den * s - num * u,
            s == sig * w,
            w * k == u,
    ;
    let c = den * sig - num * k;
    assert(2 * gap <= den * w) by (nonlinear_arith)
        requires
            gap == c * w,
            2 * c <= den,
            w > 0,
    ;
    assert(-(den * w) <= 2 * gap) by (nonlinear_arith)
        requires
            gap == c * w,
            -den <= 2 * c,
            w > 0,
    ;
}

/// The size of a normal number, counted in units of 2^(base - 1074): its
/// significand times the power of two that its exponent field has above `base`.
pub proof fn lemma_size_in_units(d: Double, base: nat, significand: int, scale: int)
    requires
        1 <= d.exponent(),
        base <= d.exponent() - 1,
        d.significand() == significand,
        pow2((d.exponent() - 1 - base) as nat) == scale,
    ensures
        size_of(d.magnitude()) == (significand * scale) * pow2(base),
{
    let rest = (d.exponent() - 1 - base) as nat;
    lemma_pow2_adds(rest, base);
    lemma_mul_is_associative(significand, scale, pow2(base) as int);
}

/// Among numbers that are not negative the order of the numbers is the order
/// of their bits, and among negative numbers it is the reverse; a negative
/// number lies below one that is not, but for the two zeros, which are equal.
pub proof fn lemma_order_of_bits(a: Double, b: Double)
    requires
        !a.nan(),
        !b.nan(),
    ensures
        !a.sign() && !b.sign() ==> (a.below(b) <==> a.bits < b.bits),
        a.sign() && b.sign() ==> (a.below(b) <==> a.bits > b.bits),
        a.sign() && !b.sign() ==> (a.below(b) <==> a.bits > SIGN_BIT || b.bits > 0),
        !a.sign() && b.sign() ==> !a.below(b),
        a.at_most(b) <==> a.below(b) || a.value() == b.value(),
        a.value() == b.value() <==> a.bits == b.bits || (a.magnitude() == 0 && b.magnitude() == 0),
{
    lemma_size_order(a.magnitude(), b.magnitude());
    lemma_size_order(a.magnitude(), 0);
    lemma_size_order(b.magnitude(), 0);
}

} // verus!
