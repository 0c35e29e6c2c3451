//! Arithmetic on binary32 numbers.
//!
//! Sum, difference, product, quotient and square root, each the exact result
//! rounded to the nearest binary32 number (a tie to the one whose last bit
//! is zero), as IEEE 754 asks.  A finite number is its significand times a
//! power of two, `sig · 2^exp` with `sig < 2^24`; the exact results are
//! formed from these parts as whole numbers and rounded by
//! [`crate::rounding::round_pack`].  Whatever is not a number comes out as
//! the one encoding [`NAN_BITS`].
use vstd::prelude::*;
use vstd::arithmetic::power2::{pow2, lemma_pow2_pos, lemma_pow2_adds, lemma_pow2_strictly_increases, lemma2_to64, lemma2_to64_rest};
use crate::rounding::{round_pack, rounded, lemma_large_powers};
use crate::scalar::{Scalar, HIDDEN_BIT, INFINITY_BITS, SIGN_BIT};

verus! {

/// The encoding that stands for every result that is not a number.
pub const NAN_BITS: u32 = 0x7fc0_0000;

/// The result that is not a number.
pub open spec fn not_a_number() -> Scalar {
    Scalar { bits: NAN_BITS }
}

/// Infinity with the given sign.
pub open spec fn infinity(sign: bool) -> Scalar {
    Scalar { bits: if sign { 0xff80_0000u32 } else { INFINITY_BITS } }
}

/// Zero with the given sign.
pub open spec fn zero(sign: bool) -> Scalar {
    Scalar { bits: if sign { SIGN_BIT } else { 0u32 } }
}

impl Scalar {
    /// The significand of a finite number: its fraction, with the hidden
    /// leading bit for a normal number.
    pub open spec fn sig(self) -> nat {
        let e = self.magnitude() / (HIDDEN_BIT as int);
        let f = self.magnitude() % (HIDDEN_BIT as int);
        if e == 0 {
            f as nat
        } else {
            (HIDDEN_BIT + f) as nat
        }
    }

    /// The exponent of a finite number: the number is `sig · 2^exp`.
    pub open spec fn exp(self) -> int {
        let e = self.magnitude() / (HIDDEN_BIT as int);
        if e == 0 {
            -149
        } else {
            e - 150
        }
    }

    pub open spec fn is_zero(self) -> bool {
        self.magnitude() == 0
    }

    pub open spec fn infinite(self) -> bool {
        self.magnitude() == INFINITY_BITS
    }

    /// The product of two numbers.
    #[verifier::opaque]
    pub open spec fn times(self, other: Scalar) -> Scalar {
        let sign = self.sign() != other.sign();
        if self.nan() || other.nan() {
            not_a_number()
        } else if self.infinite() || other.infinite() {
            if self.is_zero() || other.is_zero() {
                not_a_number()
            } else {
                infinity(sign)
            }
        } else {
            rounded(sign, self.sig() * other.sig(), self.exp() + other.exp())
        }
    }

    /// The parts of a finite number: sign, significand and exponent.
    fn parts(&self) -> (r: (bool, u32, i32))
        requires
            self.finite(),
        ensures
            r.0 == self.sign(),
            r.1 == self.sig(),
            r.2 == self.exp(),
            r.1 < 0x100_0000,
            -149 <= r.2 <= 104,
            r.2 > -149 ==> r.1 >= HIDDEN_BIT,
    {
        let m = self.bits % SIGN_BIT;
        let e = m / HIDDEN_BIT;
        let f = m % HIDDEN_BIT;
        if e == 0 {
            (self.bits >= SIGN_BIT, f, -149)
        } else {
            (self.bits >= SIGN_BIT, HIDDEN_BIT + f, e as i32 - 150)
        }
    }

    fn signed_infinity(sign: bool) -> (r: Scalar)
        ensures
            r == infinity(sign),
    {
        Scalar { bits: if sign { 0xff80_0000u32 } else { INFINITY_BITS } }
    }

    fn signed_zero(sign: bool) -> (r: Scalar)
        ensures
            r == zero(sign),
    {
        Scalar { bits: if sign { SIGN_BIT } else { 0u32 } }
    }

    fn magnitude_is_zero(&self) -> (r: bool)
        ensures
            r == self.is_zero(),
    {
        self.bits % SIGN_BIT == 0
    }

    fn is_infinite(&self) -> (r: bool)
        ensures
            r == self.infinite(),
    {
        self.bits % SIGN_BIT == INFINITY_BITS
    }

    /// The binary32 number nearest to a whole number.
    pub fn from_u32(n: u32) -> (r: Scalar)
        ensures
            r == rounded(false, n as nat, 0),
    {
        round_pack(false, n as u128, 0)
    }

    /// The binary32 number nearest to a count.
    pub fn from_usize(n: usize) -> (r: Scalar)
        ensures
            r == rounded(false, n as nat, 0),
    {
        round_pack(false, n as u128, 0)
    }

    /// `self · other`.
    pub fn mul(&self, other: &Scalar) -> (r: Scalar)
        ensures
            r == self.times(*other),
    {
        reveal(Scalar::times);
        let sign = self.is_sign_negative() != other.is_sign_negative();
        if self.is_nan() || other.is_nan() {
            return Scalar { bits: NAN_BITS };
        }
        if self.is_infinite() || other.is_infinite() {
            if self.magnitude_is_zero() || other.magnitude_is_zero() {
                return Scalar { bits: NAN_BITS };
            }
            return Scalar::signed_infinity(sign);
        }
        let (_, sa, ea) = self.parts();
        let (_, sb, eb) = other.parts();
        assert(sa * sb < 0x100_0000 * 0x100_0000) by (nonlinear_arith)
            requires
                0 <= sa < 0x100_0000,
                0 <= sb < 0x100_0000,
        ;
        let m: u128 = (sa as u128) * (sb as u128);
        round_pack(sign, m, ea + eb)
    }
}

/// The largest difference between two exponents at which a sum is formed as
/// a whole number.  Beyond it the smaller number is less than a millionth
/// of the spacing of the numbers about the larger, and the sum rounds to the
/// larger: see [`lemma_far_sum`].
pub const FAR_APART: i32 = 64;

/// The whole number whose square is the largest not above `n`.
pub open spec fn is_root(r: nat, n: nat) -> bool {
    r * r <= n < (r + 1) * (r + 1)
}

/// The root of a whole number, without its fraction.
pub open spec fn whole_root(n: nat) -> nat {
    choose|r: nat| is_root(r, n)
}

/// Only one whole number is the root of another.
pub proof fn lemma_root_unique(r: nat, s: nat, n: nat)
    requires
        is_root(r, n),
        is_root(s, n),
    ensures
        r == s,
{
    if r < s {
        assert((r + 1) * (r + 1) <= s * s) by (nonlinear_arith)
            requires
                r + 1 <= s,
        ;
    } else if s < r {
        assert((s + 1) * (s + 1) <= r * r) by (nonlinear_arith)
            requires
                s + 1 <= r,
        ;
    }
}

impl Scalar {
    /// The sum of two finite numbers or zeros.  With `hi` the one of the
    /// larger exponent, the two are `hi.sig · 2^gap` and `lo.sig` times
    /// `2^lo.exp`; the sum of these whole numbers, or their difference where
    /// the signs differ, is rounded.  Two numbers that cancel give the
    /// positive zero.
    #[verifier::opaque]
    pub open spec fn finite_sum(hi: Scalar, lo: Scalar) -> Scalar {
        let gap = hi.exp() - lo.exp();
        let big = hi.sig() * pow2(gap as nat);
        let small = lo.sig();
        if hi.sign() == lo.sign() {
            rounded(hi.sign(), big + small, lo.exp())
        } else if big > small {
            rounded(hi.sign(), (big - small) as nat, lo.exp())
        } else if small > big {
            rounded(lo.sign(), (small - big) as nat, lo.exp())
        } else {
            zero(false)
        }
    }

    /// The sum of two numbers.
    #[verifier::opaque]
    pub open spec fn plus(self, other: Scalar) -> Scalar {
        if self.nan() || other.nan() {
            not_a_number()
        } else if self.infinite() {
            if other.infinite() && self.sign() != other.sign() {
                not_a_number()
            } else {
                self
            }
        } else if other.infinite() {
            other
        } else if self.exp() >= other.exp() {
            Scalar::finite_sum(self, other)
        } else {
            Scalar::finite_sum(other, self)
        }
    }

    /// The difference of two numbers.
    pub open spec fn minus(self, other: Scalar) -> Scalar {
        self.plus(other.negated())
    }

    /// The quotient of two numbers.  For finite numbers the quotient of the
    /// significands is formed to 64 places behind the point; one more place
    /// says whether anything is left over, so that the rounding sees on
    /// which side of a tie the exact quotient lies: see
    /// [`crate::rounding::lemma_sticky_quotient`].
    #[verifier::opaque]
    pub open spec fn over(self, other: Scalar) -> Scalar {
        let sign = self.sign() != other.sign();
        if self.nan() || other.nan() {
            not_a_number()
        } else if self.infinite() {
            if other.infinite() {
                not_a_number()
            } else {
                infinity(sign)
            }
        } else if other.infinite() {
            zero(sign)
        } else if other.is_zero() {
            if self.is_zero() {
                not_a_number()
            } else {
                infinity(sign)
            }
        } else {
            let n = self.sig() * pow2(64);
            let q = n / other.sig();
            let rest: nat = if n % other.sig() != 0 { 1 } else { 0 };
            rounded(sign, 2 * q + rest, self.exp() - other.exp() - 65)
        }
    }

    /// The square root of a number.  For a finite number above zero the
    /// exponent is made even, the whole root of the significand is formed to
    /// 32 places behind the point, and one more place says whether anything
    /// is left over: see [`crate::rounding::lemma_sticky_root`].
    #[verifier::opaque]
    pub open spec fn root(self) -> Scalar {
        if self.nan() {
            not_a_number()
        } else if self.is_zero() {
            self
        } else if self.sign() {
            not_a_number()
        } else if self.infinite() {
            self
        } else {
            let odd = self.exp() % 2 != 0;
            let s = if odd { 2 * self.sig() } else { self.sig() };
            let e = if odd { self.exp() - 1 } else { self.exp() };
            let n = s * pow2(64);
            let r = whole_root(n);
            let rest: nat = if r * r != n { 1 } else { 0 };
            rounded(false, 2 * r + rest, e / 2 - 33)
        }
    }

    fn add_finite(hi: &Scalar, lo: &Scalar) -> (r: Scalar)
        requires
            hi.finite(),
            lo.finite(),
            hi.exp() >= lo.exp(),
        ensures
            r == Scalar::finite_sum(*hi, *lo),
    {
        reveal(Scalar::finite_sum);
        let (sh, mh, eh) = hi.parts();
        let (sl, ml, el) = lo.parts();
        let gap = eh - el;
        if gap > FAR_APART {
            proof {
                lemma_far_sum(*hi, *lo);
            }
            return *hi;
        }
        proof {
            lemma2_to64();
            lemma_pow2_pos(gap as nat);
            if gap < 64 {
                lemma_pow2_strictly_increases(gap as nat, 64);
            }
            assert(mh * pow2(gap as nat) < 0x100_0000 * 0x1_0000_0000_0000_0000) by (nonlinear_arith)
                requires
                    0 <= mh < 0x100_0000,
                    0 < pow2(gap as nat) <= 0x1_0000_0000_0000_0000,
            ;
        }
        let big: u128 = (mh as u128) * two_to(gap as u32);
        let small: u128 = ml as u128;
        if sh == sl {
            round_pack(sh, big + small, el)
        } else if big > small {
            round_pack(sh, big - small, el)
        } else if small > big {
            round_pack(sl, small - big, el)
        } else {
            Scalar::signed_zero(false)
        }
    }

    /// `self + other`.
    pub fn add(&self, other: &Scalar) -> (r: Scalar)
        ensures
            r == self.plus(*other),
    {
        reveal(Scalar::plus);
        if self.is_nan() || other.is_nan() {
            return Scalar { bits: NAN_BITS };
        }
        if self.is_infinite() {
            if other.is_infinite() && self.is_sign_negative() != other.is_sign_negative() {
                return Scalar { bits: NAN_BITS };
            }
            return *self;
        }
        if other.is_infinite() {
            return *other;
        }
        let (_, _, ea) = self.parts();
        let (_, _, eb) = other.parts();
        if ea >= eb {
            Scalar::add_finite(self, other)
        } else {
            Scalar::add_finite(other, self)
        }
    }

    /// `self - other`.
    pub fn sub(&self, other: &Scalar) -> (r: Scalar)
        ensures
            r == self.minus(*other),
    {
        let negated = other.neg();
        self.add(&negated)
    }

    /// `self / other`.
    pub fn div(&self, other: &Scalar) -> (r: Scalar)
        ensures
            r == self.over(*other),
    {
        reveal(Scalar::over);
        let sign = self.is_sign_negative() != other.is_sign_negative();
        if self.is_nan() || other.is_nan() {
            return Scalar { bits: NAN_BITS };
        }
        if self.is_infinite() {
            if other.is_infinite() {
                return Scalar { bits: NAN_BITS };
            }
            return Scalar::signed_infinity(sign);
        }
        if other.is_infinite() {
            return Scalar::signed_zero(sign);
        }
        if other.magnitude_is_zero() {
            if self.magnitude_is_zero() {
                return Scalar { bits: NAN_BITS };
            }
            return Scalar::signed_infinity(sign);
        }
        let (_, sa, ea) = self.parts();
        let (_, sb, eb) = other.parts();
        proof {
            lemma2_to64();
        }
        assert(sb > 0);
        let n: u128 = (sa as u128) * 0x1_0000_0000_0000_0000u128;
        let q: u128 = n / (sb as u128);
        let rest: u128 = if n % (sb as u128) != 0 { 1 } else { 0 };
        proof {
            vstd::arithmetic::div_mod::lemma_div_is_ordered_by_denominator(n as int, 1, sb as int);
        }
        round_pack(sign, 2 * q + rest, ea - eb - 65)
    }

    /// The square root of `self`.
    pub fn sqrt(&self) -> (r: Scalar)
        ensures
            r == self.root(),
    {
        reveal(Scalar::root);
        if self.is_nan() {
            return Scalar { bits: NAN_BITS };
        }
        if self.magnitude_is_zero() {
            return *self;
        }
        if self.is_sign_negative() {
            return Scalar { bits: NAN_BITS };
        }
        if self.is_infinite() {
            return *self;
        }
        let (_, sa, ea) = self.parts();
        proof {
            lemma2_to64();
        }
        let odd = (ea + 150) % 2 != 0;
        let s: u128 = if odd { 2 * (sa as u128) } else { sa as u128 };
        let e: i32 = if odd { ea - 1 } else { ea };
        let n: u128 = s * 0x1_0000_0000_0000_0000u128;
        let r = integer_root(n);
        proof {
            let w = whole_root(n as nat);
            assert(is_root(r as nat, n as nat));
            lemma_root_unique(r as nat, w, n as nat);
        }
        let rest: u128 = if r * r != n { 1 } else { 0 };
        let half: i32 = (e + 150) / 2 - 75;
        assert(half == e as int / 2);
        round_pack(false, 2 * r + rest, half - 33)
    }
}

/// The power of two with exponent `k`.
fn two_to(k: u32) -> (r: u128)
    requires
        k <= 64,
    ensures
        r == pow2(k as nat),
{
    let mut r: u128 = 1;
    let mut i: u32 = 0;
    proof {
        lemma2_to64();
    }
    while i < k
        invariant
            i <= k,
            k <= 64,
            r == pow2(i as nat),
            pow2(64) == 0x1_0000_0000_0000_0000,
        decreases k - i,
    {
        proof {
            vstd::arithmetic::power2::lemma_pow2_unfold((i + 1) as nat);
            if i + 1 < 64 {
                lemma_pow2_strictly_increases((i + 1) as nat, 64);
            }
        }
        r = r * 2;
        i = i + 1;
    }
    r
}

/// The whole root of `n`, found digit by digit from the top.
fn integer_root(n: u128) -> (r: u128)
    requires
        n < 0x200_0000_0000_0000_0000_0000,
    ensures
        is_root(r as nat, n as nat),
        r < 0x2000_0000_0000,
{
    // n < 2^89, so the root is below 2^45
    let mut r: u128 = 0;
    let mut w: u128 = 0x2000_0000_0000;
    let mut k: u32 = 45;
    proof {
        lemma2_to64();
        lemma2_to64_rest();
    }
    assert((r + w) * (r + w) > n) by (nonlinear_arith)
        requires
            r == 0,
            w == 0x2000_0000_0000,
            n < 0x200_0000_0000_0000_0000_0000,
    ;
    while k > 0
        invariant
            r * r <= n,
            (r + w) * (r + w) > n,
            r + w <= 0x2000_0000_0000,
            w == pow2(k as nat),
            k <= 45,
        decreases k,
    {
        proof {
            vstd::arithmetic::power2::lemma_pow2_unfold(k as nat);
        }
        let bit = w / 2;
        let t = r + bit;
        assert(t * t <= 0x2000_0000_0000 * 0x2000_0000_0000) by (nonlinear_arith)
            requires
                0 <= t <= 0x2000_0000_0000,
        ;
        if t * t <= n {
            r = t;
        }
        w = bit;
        k = k - 1;
    }
    proof {
        lemma2_to64();
        assert(w == 1);
        assert(r < 0x2000_0000_0000);
    }
    r
}

/// A finite number times zero is zero.
pub proof fn lemma_times_zero(a: Scalar)
    requires
        a.finite(),
    ensures
        a.times(Scalar { bits: 0 }).is_zero(),
        !a.times(Scalar { bits: 0 }).nan(),
{
    reveal(Scalar::times);
    reveal(rounded);
    reveal(crate::rounding::rounded_magnitude);
    let z = Scalar { bits: 0 };
    assert(z.sig() == 0);
    assert(a.sig() * 0 == 0);
    assert(crate::rounding::rounded_magnitude(0, a.exp() + z.exp()) == 0);
}

/// Shifting a whole number up makes it longer by the shift.
pub proof fn lemma_bit_length_shift(m: nat, g: nat)
    requires
        m > 0,
    ensures
        crate::rounding::bit_length(m * pow2(g)) == crate::rounding::bit_length(m) + g,
    decreases g,
{
    lemma2_to64();
    if g == 0 {
        assert(m * 1 == m);
    } else {
        vstd::arithmetic::power2::lemma_pow2_unfold(g);
        lemma_pow2_pos((g - 1) as nat);
        let h = pow2((g - 1) as nat);
        assert(m * pow2(g) == 2 * (m * h)) by (nonlinear_arith)
            requires
                pow2(g) == 2 * h,
        ;
        assert(m * h > 0) by (nonlinear_arith)
            requires
                m > 0,
                h > 0,
        ;
        assert((2 * (m * h)) / 2 == m * h);
        lemma_bit_length_shift(m, (g - 1) as nat);
    }
}

/// A value that is a binary32 number is rounded to that number: with the
/// significand shifted up by `g` places and the exponent lowered by as many,
/// the encoding found is the number's own.
pub proof fn lemma_rounded_exact(a: Scalar, g: nat)
    requires
        a.finite(),
    ensures
        rounded(a.sign(), a.sig() * pow2(g), a.exp() - g).magnitude() == a.magnitude(),
        rounded(a.sign(), a.sig() * pow2(g), a.exp() - g).sign() == a.sign(),
{
    reveal(rounded);
    reveal(crate::rounding::rounded_magnitude);
    reveal(crate::rounding::nearest_even);
    let m = a.sig();
    let n = m * pow2(g);
    let h = HIDDEN_BIT as int;
    let field = a.magnitude() / h;
    let frac = a.magnitude() % h;
    lemma2_to64();
    lemma_large_powers();
    lemma_pow2_pos(g);
    if m == 0 {
        assert(0 * pow2(g) == 0);
        assert(a.magnitude() == 0);
    } else {
        lemma_bit_length_shift(m, g);
        crate::rounding::lemma_bit_length(m);
        let len = crate::rounding::bit_length(m);
        if field == 0 {
            // subnormal: m < 2^23
            crate::rounding::lemma_bit_length_bound(m, 23);
        } else {
            // normal: 2^23 <= m < 2^24
            crate::rounding::lemma_bit_length_bound(m, 24);
            if len < 24 {
                lemma_pow2_strictly_increases(len, 24);
                if len < 23 {
                    lemma_pow2_strictly_increases(len, 23);
                }
                assert(false);
            }
        }
        let p = len + g - 1 + (a.exp() - g);
        let b = if p >= -126 { p + 127 } else { 1 };
        assert(b - 150 == a.exp());
        let k = b - 150 - (a.exp() - g);
        assert(k == g);
        // the shifted significand divides evenly
        vstd::arithmetic::div_mod::lemma_div_by_multiple(m as int, pow2(g) as int);
        vstd::arithmetic::div_mod::lemma_mod_multiples_basic(m as int, pow2(g) as int);
        assert(n / pow2(g) == m);
        assert(n % pow2(g) == 0);
        if g == 0 {
            assert(n * pow2(0) == n);
            assert(n == m) by (nonlinear_arith)
                requires
                    n == m * pow2(g),
                    pow2(g) == 1,
            ;
        }
        assert(a.magnitude() == h * field + frac) by {
            vstd::arithmetic::div_mod::lemma_fundamental_div_mod(a.magnitude(), h);
        }
    }
}

/// Adding a zero leaves a number as it is: the sum is the same number.
pub proof fn lemma_plus_zero(a: Scalar, z: Scalar)
    requires
        !a.nan(),
        z.is_zero(),
    ensures
        a.plus(z).same(a),
{
    reveal(Scalar::plus);
    reveal(Scalar::finite_sum);
    reveal(rounded);
    reveal(crate::rounding::rounded_magnitude);
    if a.infinite() {
    } else {
        assert(z.exp() == -149);
        assert(z.sig() == 0);
        let gap = a.exp() - z.exp();
        if a.exp() >= z.exp() {
            {
                lemma_rounded_exact(a, gap as nat);
                lemma_pow2_pos(gap as nat);
                let big = a.sig() * pow2(gap as nat);
                assert(big >= 0);
                if big == 0 {
                    assert(a.sig() == 0) by (nonlinear_arith)
                        requires
                            a.sig() * pow2(gap as nat) == 0,
                            pow2(gap as nat) > 0,
                            a.sig() >= 0,
                    ;
                }
            }
        }
    }
}

/// Whether two numbers mirror each other: whether the one is the other with
/// the opposite sign, as numbers, so that the zeros mirror each other
/// whatever their sign bits.
pub open spec fn mirrors(a: Scalar, b: Scalar) -> bool {
    !a.nan() && !b.nan() && a.rank() == -b.rank()
}

/// The encoding that a rounding gives is at most that of infinity, so that
/// the sign bit can be set on it.
pub proof fn lemma_rounded_parts(sign: bool, m: nat, e: int)
    ensures
        rounded(sign, m, e).magnitude() == crate::rounding::rounded_magnitude(m, e),
        rounded(sign, m, e).magnitude() <= INFINITY_BITS,
        rounded(sign, m, e).sign() == sign,
        !rounded(sign, m, e).nan(),
{
    reveal(rounded);
    reveal(crate::rounding::rounded_magnitude);
}

/// The product of the mirrors of two numbers, one of them mirrored, mirrors
/// the product.
pub proof fn lemma_times_mirror(a: Scalar, b: Scalar, b2: Scalar)
    requires
        mirrors(b, b2),
        !a.times(b).nan(),
    ensures
        mirrors(a.times(b), a.times(b2)),
{
    reveal(Scalar::times);
    lemma_rounded_parts(a.sign() != b.sign(), a.sig() * b.sig(), a.exp() + b.exp());
    lemma_rounded_parts(a.sign() != b2.sign(), a.sig() * b2.sig(), a.exp() + b2.exp());
    assert(b.magnitude() == b2.magnitude());
    if b.magnitude() == 0 && !a.infinite() {
        // a product with zero is zero, whatever the signs
        assert(b.sig() == 0 && b2.sig() == 0);
        assert(a.sig() * 0 == 0);
        reveal(crate::rounding::rounded_magnitude);
    }
}

/// The sum of the mirrors of two numbers mirrors their sum.
pub proof fn lemma_plus_mirror(a: Scalar, b: Scalar, a2: Scalar, b2: Scalar)
    requires
        mirrors(a, a2),
        mirrors(b, b2),
        !a.plus(b).nan(),
    ensures
        mirrors(a.plus(b), a2.plus(b2)),
{
    reveal(Scalar::plus);
    assert(a.magnitude() == a2.magnitude());
    assert(b.magnitude() == b2.magnitude());
    if a.infinite() || b.infinite() {
    } else if a.exp() >= b.exp() {
        lemma_finite_sum_mirror(a, b, a2, b2);
    } else {
        lemma_finite_sum_mirror(b, a, b2, a2);
    }
}

proof fn lemma_finite_sum_mirror(hi: Scalar, lo: Scalar, hi2: Scalar, lo2: Scalar)
    requires
        mirrors(hi, hi2),
        mirrors(lo, lo2),
        hi.finite(),
        lo.finite(),
        hi.exp() >= lo.exp(),
    ensures
        mirrors(Scalar::finite_sum(hi, lo), Scalar::finite_sum(hi2, lo2)),
{
    reveal(Scalar::finite_sum);
    let gap = hi.exp() - lo.exp();
    let big = hi.sig() * pow2(gap as nat);
    let small = lo.sig();
    assert(hi.magnitude() == hi2.magnitude());
    assert(lo.magnitude() == lo2.magnitude());
    lemma_pow2_pos(gap as nat);
    assert(big >= 0);
    if hi.magnitude() == 0 {
        assert(hi.sig() == 0);
        assert(0 * pow2(gap as nat) == 0);
    } else {
        assert(hi.sig() > 0);
        assert(big > 0) by (nonlinear_arith)
            requires
                big == hi.sig() * pow2(gap as nat),
                hi.sig() > 0,
                pow2(gap as nat) > 0,
        ;
    }
    {
        lemma_rounded_parts(true, big + small, lo.exp());
        lemma_rounded_parts(false, big + small, lo.exp());
        lemma_rounded_parts(true, (big - small) as nat, lo.exp());
        lemma_rounded_parts(false, (big - small) as nat, lo.exp());
        lemma_rounded_parts(true, (small - big) as nat, lo.exp());
        lemma_rounded_parts(false, (small - big) as nat, lo.exp());
        if big == 0 || small == 0 {
            reveal(crate::rounding::rounded_magnitude);
            assert(crate::rounding::rounded_magnitude(0, lo.exp()) == 0);
        }
    }
}

/// A sum that is a number has only numbers for operands.
pub proof fn lemma_plus_numbers(a: Scalar, b: Scalar)
    requires
        !a.plus(b).nan(),
    ensures
        !a.nan(),
        !b.nan(),
{
    reveal(Scalar::plus);
}

/// A product that is a number has only numbers for operands.
pub proof fn lemma_times_numbers(a: Scalar, b: Scalar)
    requires
        !a.times(b).nan(),
    ensures
        !a.nan(),
        !b.nan(),
{
    reveal(Scalar::times);
}

/// A whole number between two neighbouring powers of two has the length
/// that the larger of them names.
pub proof fn lemma_bit_length_is(n: nat, len: nat)
    requires
        len >= 1,
        pow2((len - 1) as nat) <= n < pow2(len),
    ensures
        crate::rounding::bit_length(n) == len,
{
    crate::rounding::lemma_bit_length(n);
    crate::rounding::lemma_bit_length_bound(n, len);
    let l = crate::rounding::bit_length(n);
    if l < len {
        if l < len - 1 {
            lemma_pow2_strictly_increases(l, (len - 1) as nat);
        }
        assert(false);
    }
}

/// Two numbers whose exponents are far apart sum to the larger: where the
/// exponents differ by more than 64, the exact sum, or difference, lies so
/// close to the one of the larger exponent that it is rounded to it.
pub proof fn lemma_far_sum(hi: Scalar, lo: Scalar)
    requires
        hi.finite(),
        lo.finite(),
        hi.exp() - lo.exp() > FAR_APART,
    ensures
        Scalar::finite_sum(hi, lo) == hi,
{
    reveal(Scalar::finite_sum);
    reveal(rounded);
    reveal(crate::rounding::rounded_magnitude);
    reveal(crate::rounding::nearest_even);
    lemma2_to64();
    lemma2_to64_rest();
    let h = HIDDEN_BIT as int;
    let gap = (hi.exp() - lo.exp()) as nat;
    let g = pow2(gap) as int;
    let s = hi.sig() as int;
    let small = lo.sig() as int;
    let field = hi.magnitude() / h;
    // the larger number is normal, and the smaller is below half a spacing
    assert(field >= 66);
    assert(h <= s < 2 * h);
    assert(0 <= small < 2 * h);
    lemma_pow2_strictly_increases(64, gap);
    let big = s * g;
    lemma_pow2_adds(23, gap);
    lemma_pow2_adds(24, gap);
    assert(hi.magnitude() == h * field + (s - h)) by {
        vstd::arithmetic::div_mod::lemma_fundamental_div_mod(hi.magnitude(), h);
    }
    assert(h * g <= big && big + g <= 2 * h * g) by (nonlinear_arith)
        requires
            big == s * g,
            h <= s,
            s + 1 <= 2 * h,
            g > 0,
    ;
    if hi.sign() == lo.sign() || small == 0 {
        let n = big + small;
        assert(n >= 1);
        lemma_bit_length_is(n as nat, 24 + gap);
        assert(n % g == small && n / g == s) by {
            vstd::arithmetic::div_mod::lemma_fundamental_div_mod_converse(n, g, s, small);
        }
        assert(hi.sign() == lo.sign() ==> Scalar::finite_sum(hi, lo).bits == hi.bits);
        assert(small == 0 ==> Scalar::finite_sum(hi, lo).bits == hi.bits);
    } else if s > h {
        let n = big - small;
        assert((s - 1) * g == big - g) by (nonlinear_arith)
            requires
                big == s * g,
        ;
        assert(h * g <= (s - 1) * g) by (nonlinear_arith)
            requires
                h <= s - 1,
                g > 0,
        ;
        lemma_bit_length_is(n as nat, 24 + gap);
        assert(n % g == g - small && n / g == s - 1) by {
            vstd::arithmetic::div_mod::lemma_fundamental_div_mod_converse(n, g, s - 1, g - small);
        }
        assert(Scalar::finite_sum(hi, lo).bits == hi.bits);
    } else {
        // the larger number is a power of two: the difference lies in the
        // binade below, and is carried back up
        let n = big - small;
        let gap1 = (gap - 1) as nat;
        let g1 = pow2(gap1) as int;
        vstd::arithmetic::power2::lemma_pow2_unfold(gap);
        assert(g == 2 * g1);
        lemma_pow2_strictly_increases(63, gap1 + 1);
        lemma_pow2_adds(22, gap);
        assert(big == h * g);
        assert(pow2(22) * g == (h / 2) * g);
        assert((h / 2) * g <= n) by (nonlinear_arith)
            requires
                n == h * g - small,
                small < g,
                h == 0x80_0000,
                g > 0,
        ;
        lemma_bit_length_is(n as nat, 23 + gap);
        assert(n == g1 * (2 * h - 1) + (g1 - small)) by (nonlinear_arith)
            requires
                n == h * g - small,
                g == 2 * g1,
        ;
        assert(n % g1 == g1 - small && n / g1 == 2 * h - 1) by {
            vstd::arithmetic::div_mod::lemma_fundamental_div_mod_converse(n, g1, 2 * h - 1, g1 - small);
        }
        assert(Scalar::finite_sum(hi, lo).bits == hi.bits);
    }
}

} // verus!
