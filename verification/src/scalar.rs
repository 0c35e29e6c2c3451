//! Single-precision numbers, held by their IEEE-754 binary32 encoding.
//!
//! Every quantity the renderer measures (a ray parameter, a cosine, a colour
//! channel) is a binary32 number.  This module holds such a number as its 32
//! bits and does on the bits everything that needs no rounding: ordering,
//! negation, selection of a minimum or maximum, clamping and truncation to an
//! integer.  The arithmetic that rounds stands in [`crate::arith`].
//!
//! The encoding is read as usual: bit 31 is the sign, bits 30..23 the biased
//! exponent and bits 22..0 the fraction.  A finite number is an integer
//! multiple of 2^-149, and [`Scalar::numerator`] is that integer.
use vstd::prelude::*;
use vstd::arithmetic::power2::{pow2, lemma_pow2_pos, lemma_pow2_adds, lemma_pow2_strictly_increases, lemma2_to64};
use vstd::arithmetic::mul::{lemma_mul_strict_inequality, lemma_mul_inequality, lemma_mul_is_associative, lemma_mul_is_commutative};
use vstd::arithmetic::div_mod::{
    lemma_div_multiples_vanish_quotient,
    lemma_div_by_multiple,
    lemma_basic_div,
};

verus! {

/// The sign bit of the encoding.
pub const SIGN_BIT: u32 = 0x8000_0000;

/// The encoding of positive infinity; larger magnitudes are not numbers.
pub const INFINITY_BITS: u32 = 0x7f80_0000;

/// The weight of the exponent field's lowest bit, and the hidden leading bit
/// of a normal number's significand.
pub const HIDDEN_BIT: u32 = 0x0080_0000;

/// The encoding of 1.
pub const ONE_BITS: u32 = 0x3f80_0000;

/// The encoding of one half.
pub const HALF_BITS: u32 = 0x3f00_0000;

/// The number 2^-149 · 2^149: how many units of 2^-149 make one.
pub open spec fn unit() -> nat {
    pow2(149)
}

/// The value, in units of 2^-149, of the finite non-negative number whose
/// encoding without the sign bit is `m`.
pub open spec fn magnitude_numerator(m: int) -> int {
    let e = m / (HIDDEN_BIT as int);
    let f = m % (HIDDEN_BIT as int);
    if e == 0 {
        f
    } else {
        (HIDDEN_BIT as int + f) * pow2((e - 1) as nat)
    }
}

/// A binary32 number, held by its encoding.
#[derive(Clone, Copy, Debug, PartialEq, Eq, Structural)]
pub struct Scalar {
    pub bits: u32,
}

impl Scalar {
    /// The encoding without its sign bit.
    pub open spec fn magnitude(self) -> int {
        (self.bits % SIGN_BIT) as int
    }

    /// Whether the sign bit is set (true of `-0`).
    pub open spec fn sign(self) -> bool {
        self.bits >= SIGN_BIT
    }

    pub open spec fn nan(self) -> bool {
        self.magnitude() > INFINITY_BITS
    }

    pub open spec fn finite(self) -> bool {
        self.magnitude() < INFINITY_BITS
    }

    /// An integer that orders the numbers as their values do: for `a` and `b`
    /// that are numbers, `a < b` exactly when `a.rank() < b.rank()`, and the
    /// two are equal as numbers exactly when their ranks are.  Both zeros
    /// have rank 0; the infinities have the largest and smallest ranks.
    pub open spec fn rank(self) -> int {
        if self.sign() {
            -self.magnitude()
        } else {
            self.magnitude()
        }
    }

    /// The value of a finite number in units of 2^-149.
    pub open spec fn numerator(self) -> int {
        if self.sign() {
            -magnitude_numerator(self.magnitude())
        } else {
            magnitude_numerator(self.magnitude())
        }
    }

    /// `self < other` as binary32 numbers: false when either is not a number.
    pub open spec fn below(self, other: Scalar) -> bool {
        !self.nan() && !other.nan() && self.rank() < other.rank()
    }

    /// `self <= other` as binary32 numbers: false when either is not a number.
    pub open spec fn at_most(self, other: Scalar) -> bool {
        !self.nan() && !other.nan() && self.rank() <= other.rank()
    }

    /// `self == other` as binary32 numbers: the zeros are equal, and what is
    /// not a number equals nothing.
    pub open spec fn same(self, other: Scalar) -> bool {
        !self.nan() && !other.nan() && self.rank() == other.rank()
    }

    /// The smaller of two numbers: the other where one is not a number, and
    /// the first of two that are equal.
    pub open spec fn smaller(self, other: Scalar) -> Scalar {
        if other.nan() || self.at_most(other) {
            self
        } else {
            other
        }
    }

    /// The larger of two numbers: the other where one is not a number, and
    /// the first of two that are equal.
    pub open spec fn larger(self, other: Scalar) -> Scalar {
        if other.nan() || other.at_most(self) {
            self
        } else {
            other
        }
    }

    /// The number with the sign bit cleared.
    pub open spec fn absolute(self) -> Scalar {
        Scalar { bits: self.magnitude() as u32 }
    }

    /// The number with the opposite sign bit.
    pub open spec fn negated(self) -> Scalar {
        Scalar { bits: if self.bits >= SIGN_BIT { (self.bits - SIGN_BIT) as u32 } else { (self.bits + SIGN_BIT) as u32 } }
    }

    /// `floor(value · 2^k)` of a finite non-negative number, unbounded.
    pub open spec fn floor_scaled(self, k: nat) -> int {
        (self.numerator() * pow2(k)) / (unit() as int)
    }

    /// What a cast to an unsigned integer with largest value `max` gives of
    /// `value · 2^k`: zero for what is not a number and for negative values,
    /// `max` for values too large, and otherwise the value without its
    /// fraction.
    pub open spec fn truncated(self, k: nat, max: int) -> int {
        if self.nan() || self.sign() {
            0
        } else if !self.finite() || self.floor_scaled(k) > max {
            max
        } else {
            self.floor_scaled(k)
        }
    }

    pub fn from_bits(bits: u32) -> (r: Scalar)
        ensures
            r.bits == bits,
    {
        Scalar { bits }
    }

    pub fn to_bits(&self) -> (r: u32)
        ensures
            r == self.bits,
    {
        self.bits
    }

    pub fn zero() -> (r: Scalar)
        ensures
            r.bits == 0,
            r.rank() == 0,
            r.numerator() == 0,
    {
        Scalar { bits: 0 }
    }

    pub fn one() -> (r: Scalar)
        ensures
            r.bits == ONE_BITS,
            r.numerator() == unit(),
    {
        proof {
            lemma_one_numerator();
        }
        Scalar { bits: ONE_BITS }
    }

    pub fn infinity() -> (r: Scalar)
        ensures
            r.bits == INFINITY_BITS,
            !r.nan() && !r.finite() && !r.sign(),
    {
        Scalar { bits: INFINITY_BITS }
    }

    pub fn neg_infinity() -> (r: Scalar)
        ensures
            r.bits == 0xff80_0000u32,
            !r.nan() && !r.finite() && r.sign(),
    {
        Scalar { bits: 0xff80_0000 }
    }

    fn magnitude_bits(&self) -> (m: u32)
        ensures
            m == self.magnitude(),
            m < SIGN_BIT,
    {
        self.bits % SIGN_BIT
    }

    pub fn is_sign_negative(&self) -> (r: bool)
        ensures
            r == self.sign(),
    {
        self.bits >= SIGN_BIT
    }

    pub fn is_nan(&self) -> (r: bool)
        ensures
            r == self.nan(),
    {
        self.magnitude_bits() > INFINITY_BITS
    }

    pub fn is_finite(&self) -> (r: bool)
        ensures
            r == self.finite(),
    {
        self.magnitude_bits() < INFINITY_BITS
    }

    /// The rank as a machine integer.
    fn key(&self) -> (k: i64)
        ensures
            k == self.rank(),
    {
        let m: i64 = self.magnitude_bits() as i64;
        if self.bits >= SIGN_BIT {
            -m
        } else {
            m
        }
    }

    /// `self < other`.
    pub fn lt(&self, other: &Scalar) -> (r: bool)
        ensures
            r == self.below(*other),
    {
        !self.is_nan() && !other.is_nan() && self.key() < other.key()
    }

    /// `self <= other`.
    pub fn le(&self, other: &Scalar) -> (r: bool)
        ensures
            r == self.at_most(*other),
    {
        !self.is_nan() && !other.is_nan() && self.key() <= other.key()
    }

    /// `self > other`.
    pub fn gt(&self, other: &Scalar) -> (r: bool)
        ensures
            r == other.below(*self),
    {
        other.lt(self)
    }

    /// `self >= other`.
    pub fn ge(&self, other: &Scalar) -> (r: bool)
        ensures
            r == other.at_most(*self),
    {
        other.le(self)
    }

    /// `self == other` as numbers.
    pub fn equals(&self, other: &Scalar) -> (r: bool)
        ensures
            r == self.same(*other),
    {
        !self.is_nan() && !other.is_nan() && self.key() == other.key()
    }

    /// `-self`: the sign bit flipped, whatever the number is.
    pub fn neg(&self) -> (r: Scalar)
        ensures
            r == self.negated(),
            r.magnitude() == self.magnitude(),
            r.sign() == !self.sign(),
            r.rank() == -self.rank(),
            r.numerator() == -self.numerator(),
            r.nan() == self.nan(),
    {
        if self.bits >= SIGN_BIT {
            Scalar { bits: self.bits - SIGN_BIT }
        } else {
            Scalar { bits: self.bits + SIGN_BIT }
        }
    }

    /// `|self|`: the sign bit cleared.
    pub fn abs(&self) -> (r: Scalar)
        ensures
            r == self.absolute(),
            !r.sign(),
            r.magnitude() == self.magnitude(),
            r.nan() == self.nan(),
            r.rank() == if self.rank() < 0 { -self.rank() } else { self.rank() },
    {
        Scalar { bits: self.magnitude_bits() }
    }

    /// The smaller of two numbers.  What is not a number is passed over: the
    /// result is the other operand.  Of two operands that are equal as numbers
    /// (the two zeros) the first is returned.
    pub fn min(&self, other: &Scalar) -> (r: Scalar)
        ensures
            r == self.smaller(*other),
            self.nan() && !other.nan() ==> r == *other,
            !self.nan() && !other.nan() ==> r.rank() <= self.rank() && r.rank() <= other.rank(),
    {
        if other.is_nan() || self.le(other) {
            *self
        } else {
            *other
        }
    }

    /// The larger of two numbers.  What is not a number is passed over: the
    /// result is the other operand.  Of two operands that are equal as numbers
    /// (the two zeros) the first is returned.
    pub fn max(&self, other: &Scalar) -> (r: Scalar)
        ensures
            r == self.larger(*other),
            self.nan() && !other.nan() ==> r == *other,
            !self.nan() && !other.nan() ==> r.rank() >= self.rank() && r.rank() >= other.rank(),
    {
        if other.is_nan() || self.ge(other) {
            *self
        } else {
            *other
        }
    }

    /// `self` held to the interval from `lo` to `hi`: `lo` where `self` is
    /// below it, `hi` where `self` is above it, else `self` itself, which
    /// includes what is not a number.
    pub fn clamp(&self, lo: &Scalar, hi: &Scalar) -> (r: Scalar)
        requires
            lo.at_most(*hi),
        ensures
            r == (if self.below(*lo) { *lo } else if hi.below(*self) { *hi } else { *self }),
            !self.nan() ==> lo.at_most(r) && r.at_most(*hi),
            self.nan() ==> r == *self,
    {
        if self.lt(lo) {
            *lo
        } else if self.gt(hi) {
            *hi
        } else {
            *self
        }
    }

    /// `value · 2^k` cast to an unsigned 32-bit integer, as a saturating cast
    /// does it: without the fraction, 0 for negative values and for what is
    /// not a number, and the largest integer for values beyond it.
    pub fn truncate_scaled(&self, k: u32) -> (r: u32)
        requires
            k <= 32,
        ensures
            r == self.truncated(k as nat, u32::MAX as int),
    {
        let m: u32 = self.magnitude_bits();
        if m > INFINITY_BITS || self.bits >= SIGN_BIT {
            return 0;
        }
        if m == INFINITY_BITS {
            return u32::MAX;
        }
        let e: u32 = m / HIDDEN_BIT;
        let f: u32 = m % HIDDEN_BIT;
        let sig: u64 = if e == 0 { f as u64 } else { (HIDDEN_BIT + f) as u64 };
        let sh: u32 = if e == 0 { 0 } else { e - 1 };
        // value · 2^k = sig · 2^(sh + k - 149)
        let s: u32 = sh + k;
        proof {
            lemma_floor_scaled(m as int, k as nat);
            lemma2_to64();
            assert(self.numerator() == magnitude_numerator(m as int));
            assert(self.finite() && !self.nan() && !self.sign());
        }
        let ghost floor = self.floor_scaled(k as nat);
        if s >= 149 {
            let up: u32 = s - 149;
            assert(floor == sig * pow2(up as nat));
            if up >= 32 {
                proof {
                    if sig > 0 {
                        if up > 32 {
                            lemma_pow2_strictly_increases(32, up as nat);
                        }
                        lemma_mul_inequality(1, sig as int, pow2(up as nat) as int);
                        assert(floor > u32::MAX);
                    } else {
                        assert(0 * pow2(up as nat) == 0);
                    }
                }
                if sig == 0 { 0 } else { u32::MAX }
            } else {
                proof {
                    lemma_pow2_strictly_increases(up as nat, 32);
                    lemma_mul_inequality(sig as int, 0x100_0000, pow2(up as nat) as int);
                    lemma_mul_strict_inequality(pow2(up as nat) as int, pow2(32) as int, 0x100_0000);
                    lemma_mul_is_commutative(0x100_0000, pow2(up as nat) as int);
                    assert(sig * pow2(up as nat) <= 0x100_0000 * pow2(32));
                    vstd::bits::lemma_u64_shl_is_mul(sig, up as u64);
                }
                let wide: u64 = sig << (up as u64);
                assert(wide == floor);
                if wide > u32::MAX as u64 { u32::MAX } else { wide as u32 }
            }
        } else {
            let down: u32 = 149 - s;
            assert(floor == sig as int / (pow2(down as nat) as int));
            if down >= 64 {
                proof {
                    lemma_pow2_strictly_increases(24, down as nat);
                    lemma_basic_div(sig as int, pow2(down as nat) as int);
                }
                0
            } else {
                proof {
                    vstd::bits::lemma_u64_shr_is_div(sig, down as u64);
                    lemma_pow2_pos(down as nat);
                    vstd::arithmetic::div_mod::lemma_div_is_ordered_by_denominator(sig as int, 1, pow2(down as nat) as int);
                }
                let narrow: u64 = sig >> (down as u64);
                assert(narrow == floor);
                assert(narrow <= sig);
                narrow as u32
            }
        }
    }

    /// The number cast to an unsigned 32-bit integer, as a saturating cast
    /// does it.
    pub fn to_u32(&self) -> (r: u32)
        ensures
            r == self.truncated(0, u32::MAX as int),
    {
        self.truncate_scaled(0)
    }
}

/// One is 2^149 units of 2^-149.
pub proof fn lemma_one_numerator()
    ensures
        (Scalar { bits: ONE_BITS }).numerator() == unit(),
        (Scalar { bits: ONE_BITS }).rank() == ONE_BITS,
{
    lemma2_to64();
    lemma_pow2_adds(23, 126);
    assert(ONE_BITS as int / (HIDDEN_BIT as int) == 127);
    assert(ONE_BITS as int % (HIDDEN_BIT as int) == 0);
}

/// The value of a finite magnitude grows strictly with its encoding.
pub proof fn lemma_magnitude_numerator_increases(x: int, y: int)
    requires
        0 <= x < y < INFINITY_BITS,
    ensures
        0 <= magnitude_numerator(x) < magnitude_numerator(y),
{
    let h = HIDDEN_BIT as int;
    let ex = x / h;
    let fx = x % h;
    let ey = y / h;
    let fy = y % h;
    assert(ex <= ey);
    assert(ey < 255);
    if ex == ey {
        if ex != 0 {
            let p = pow2((ex - 1) as nat) as int;
            lemma_pow2_pos((ex - 1) as nat);
            lemma_mul_strict_inequality(h + fx, h + fy, p);
            assert(0 <= (h + fx) * p) by (nonlinear_arith)
                requires
                    h + fx >= 0,
                    p > 0,
            ;
        }
    } else {
        let py = pow2((ey - 1) as nat) as int;
        lemma_pow2_pos((ey - 1) as nat);
        if ex == 0 {
            // fx < 2^23 <= (2^23 + fy) * 2^(ey - 1)
            assert((h + fy) * py >= h) by (nonlinear_arith)
                requires
                    h + fy >= h,
                    h > 0,
                    py >= 1,
            ;
        } else {
            let px = pow2((ex - 1) as nat) as int;
            lemma_pow2_pos((ex - 1) as nat);
            // (2^23 + fx) * 2^(ex-1) < 2^24 * 2^(ex-1) = 2^23 * 2^ex <= 2^23 * 2^(ey-1)
            lemma_pow2_adds(1, (ex - 1) as nat);
            lemma2_to64();
            assert(pow2(ex as nat) == 2 * px);
            if ex < ey - 1 {
                lemma_pow2_strictly_increases(ex as nat, (ey - 1) as nat);
            }
            assert(2 * px <= py);
            assert((h + fx) * px < (h + fy) * py) by (nonlinear_arith)
                requires
                    0 <= fx < h,
                    0 <= fy,
                    px > 0,
                    2 * px <= py,
            ;
            assert(0 <= (h + fx) * px) by (nonlinear_arith)
                requires
                    h + fx >= 0,
                    px > 0,
            ;
        }
    }
}

/// The rank orders finite numbers as their values do.
pub proof fn lemma_rank_orders_value(a: Scalar, b: Scalar)
    requires
        a.finite(),
        b.finite(),
    ensures
        a.rank() < b.rank() <==> a.numerator() < b.numerator(),
        a.rank() == b.rank() <==> a.numerator() == b.numerator(),
{
    let x = a.magnitude();
    let y = b.magnitude();
    if x < y {
        lemma_magnitude_numerator_increases(x, y);
    } else if y < x {
        lemma_magnitude_numerator_increases(y, x);
    }
    if 0 < x {
        lemma_magnitude_numerator_increases(0, x);
    }
    if 0 < y {
        lemma_magnitude_numerator_increases(0, y);
    }
    assert(magnitude_numerator(0) == 0);
}

/// How the scaled floor of a finite magnitude is computed from its fields.
proof fn lemma_floor_scaled(m: int, k: nat)
    requires
        0 <= m < INFINITY_BITS,
    ensures
        ({
            let e = m / (HIDDEN_BIT as int);
            let f = m % (HIDDEN_BIT as int);
            let sig = if e == 0 { f } else { HIDDEN_BIT as int + f };
            let sh = if e == 0 { 0 } else { e - 1 };
            let s = sh + k;
            &&& 0 <= sig < 0x100_0000
            &&& magnitude_numerator(m) == sig * pow2(sh as nat)
            &&& s >= 149 ==> (magnitude_numerator(m) * pow2(k)) / (unit() as int) == sig * pow2((s - 149) as nat)
            &&& s < 149 ==> (magnitude_numerator(m) * pow2(k)) / (unit() as int) == sig / (pow2((149 - s) as nat) as int)
        }),
{
    let h = HIDDEN_BIT as int;
    let e = m / h;
    let f = m % h;
    let sig = if e == 0 { f } else { h + f };
    let sh = if e == 0 { 0 } else { e - 1 };
    let s = sh + k;
    lemma2_to64();
    assert(pow2(0) == 1);
    assert(magnitude_numerator(m) == sig * pow2(sh as nat)) by {
        if e == 0 {
            assert(sig * 1 == sig);
        }
    }
    let n = magnitude_numerator(m) * pow2(k);
    lemma_pow2_adds(sh as nat, k);
    lemma_mul_is_associative(sig, pow2(sh as nat) as int, pow2(k) as int);
    assert(n == sig * pow2(s as nat));
    lemma_pow2_pos(149);
    if s >= 149 {
        let up = (s - 149) as nat;
        lemma_pow2_adds(up, 149);
        lemma_pow2_pos(up);
        lemma_mul_is_associative(sig, pow2(up) as int, pow2(149) as int);
        assert(n == (sig * pow2(up)) * pow2(149));
        lemma_div_by_multiple(sig * pow2(up), pow2(149) as int);
    } else {
        let down = (149 - s) as nat;
        lemma_pow2_adds(s as nat, down);
        lemma_pow2_pos(s as nat);
        lemma_pow2_pos(down);
        lemma_mul_is_commutative(sig, pow2(s as nat) as int);
        lemma_div_multiples_vanish_quotient(pow2(s as nat) as int, sig, pow2(down) as int);
    }
}

} // verus!
