//! Rounding to binary32.
//!
//! The result of an arithmetic operation on binary32 numbers is the exact
//! result rounded to the nearest binary32 number, and of two nearest ones to
//! the one whose last bit is zero.  The exact result is held here as a whole
//! number `m` times a power of two, `m · 2^e`; [`rounded`] says which
//! encoding it is rounded to, and [`round_pack`] computes it.
use vstd::prelude::*;
use vstd::arithmetic::power2::{pow2, lemma_pow2_pos, lemma_pow2_adds, lemma_pow2_strictly_increases, lemma_pow2_unfold, lemma2_to64, lemma2_to64_rest};
use vstd::arithmetic::div_mod::{lemma_fundamental_div_mod, lemma_mod_bound};
use vstd::arithmetic::mul::{lemma_mul_inequality, lemma_mul_strict_inequality};
use crate::scalar::{magnitude_numerator, Scalar, HIDDEN_BIT, INFINITY_BITS, SIGN_BIT};

verus! {

/// How many binary digits a whole number has: 0 for 0, else one more than
/// the place of its leading one.
pub open spec fn bit_length(m: nat) -> nat
    decreases m,
{
    if m == 0 {
        0
    } else {
        1 + bit_length(m / 2)
    }
}

/// `m / 2^k` rounded to the nearest whole number, a tie to the even one.
#[verifier::opaque]
pub open spec fn nearest_even(m: nat, k: nat) -> nat {
    let q = m / pow2(k);
    let r = m % pow2(k);
    if 2 * r > pow2(k) || (2 * r == pow2(k) && q % 2 == 1) {
        q + 1
    } else {
        q
    }
}

/// The encoding, without a sign, of the binary32 number nearest to
/// `m · 2^e`; that of infinity where the nearest would lie beyond the
/// largest finite number.
///
/// The leading one of `m · 2^e` has the weight `2^p`.  From `p = -126` on
/// the result is a normal number with the biased exponent `p + 127`; below,
/// a subnormal one, which shares the spacing of the smallest normal ones.
/// Numbers with the biased exponent `b` are the multiples of `2^(b - 150)`:
/// `m · 2^e` is rounded to a multiple `q` of that, and the encoding is
/// `(b - 1) · 2^23 + q`, which is right also where rounding carries `q` to
/// `2^24`, and where a subnormal `q` stays below `2^23`.
#[verifier::opaque]
pub open spec fn rounded_magnitude(m: nat, e: int) -> nat {
    if m == 0 {
        0
    } else {
        let p = bit_length(m) - 1 + e;
        let b = if p >= -126 { p + 127 } else { 1 };
        let k = b - 150 - e;
        let q = if k > 0 { nearest_even(m, k as nat) } else { m * pow2((-k) as nat) };
        let raw = (b - 1) * (HIDDEN_BIT as int) + q;
        if raw >= INFINITY_BITS {
            INFINITY_BITS as nat
        } else {
            raw as nat
        }
    }
}

/// The binary32 number nearest to `± m · 2^e`.
#[verifier::opaque]
pub open spec fn rounded(sign: bool, m: nat, e: int) -> Scalar {
    Scalar { bits: (rounded_magnitude(m, e) + if sign { SIGN_BIT as int } else { 0 }) as u32 }
}

/// A whole number lies between the powers of two that its length names.
pub proof fn lemma_bit_length(m: nat)
    ensures
        m > 0 ==> pow2((bit_length(m) - 1) as nat) <= m,
        m < pow2(bit_length(m)),
    decreases m,
{
    lemma2_to64();
    if m > 0 {
        lemma_bit_length(m / 2);
        let n = bit_length(m / 2);
        lemma_pow2_unfold(n + 1);
        if m / 2 > 0 {
            lemma_pow2_unfold(n);
        }
    }
}

/// A whole number below a power of two is no longer than that power's
/// exponent.
pub proof fn lemma_bit_length_bound(m: nat, n: nat)
    requires
        m < pow2(n),
    ensures
        bit_length(m) <= n,
    decreases m,
{
    lemma2_to64();
    if m > 0 {
        if n == 0 {
            assert(false);
        } else {
            lemma_pow2_unfold(n);
            lemma_bit_length_bound(m / 2, (n - 1) as nat);
        }
    }
}

/// The powers of two at the edges of the machine's whole numbers.
pub proof fn lemma_large_powers()
    ensures
        pow2(24) == 0x100_0000,
        pow2(100) == 0x10_0000_0000_0000_0000_0000_0000,
        pow2(126) == 0x4000_0000_0000_0000_0000_0000_0000_0000,
        pow2(127) == 0x8000_0000_0000_0000_0000_0000_0000_0000,
        pow2(128) == 0x1_0000_0000_0000_0000_0000_0000_0000_0000,
{
    lemma2_to64();
    lemma2_to64_rest();
    lemma_pow2_adds(50, 50);
    lemma_pow2_adds(63, 63);
    lemma_pow2_adds(63, 64);
    lemma_pow2_adds(64, 64);
}

/// The length of `m`.
fn length(m: u128) -> (r: u32)
    ensures
        r == bit_length(m as nat),
        r <= 128,
{
    let mut x = m;
    let mut len: u32 = 0;
    proof {
        lemma_large_powers();
        lemma_bit_length_bound(m as nat, 128);
    }
    while x > 0
        invariant
            len + bit_length(x as nat) == bit_length(m as nat),
            bit_length(m as nat) <= 128,
        decreases x,
    {
        x = x / 2;
        len = len + 1;
    }
    len
}

/// The power of two with exponent `k`.
fn power(k: u32) -> (r: u128)
    requires
        k < 127,
    ensures
        r == pow2(k as nat),
        r > 0,
{
    let mut r: u128 = 1;
    let mut i: u32 = 0;
    proof {
        lemma2_to64();
        lemma_large_powers();
    }
    while i < k
        invariant
            i <= k,
            k < 127,
            r == pow2(i as nat),
            pow2(127) == 0x8000_0000_0000_0000_0000_0000_0000_0000,
        decreases k - i,
    {
        proof {
            lemma_pow2_unfold((i + 1) as nat);
            lemma_pow2_strictly_increases((i + 1) as nat, 127);
        }
        r = r * 2;
        i = i + 1;
    }
    proof {
        lemma_pow2_pos(k as nat);
    }
    r
}

/// `m / 2^k` rounded to the nearest whole number, a tie to the even one.
fn round_shift(m: u128, k: u32) -> (r: u128)
    requires
        m < 0x8000_0000_0000_0000_0000_0000_0000_0000,
    ensures
        r == nearest_even(m as nat, k as nat),
        r <= m,
{
    reveal(nearest_even);
    proof {
        lemma2_to64();
        lemma_large_powers();
    }
    if k >= 127 {
        proof {
            if k > 128 {
                lemma_pow2_strictly_increases(128, k as nat);
            }
            lemma_pow2_pos(k as nat);
            vstd::arithmetic::div_mod::lemma_basic_div(m as int, pow2(k as nat) as int);
            vstd::arithmetic::div_mod::lemma_small_mod(m as nat, pow2(k as nat));
            assert(m as nat / pow2(k as nat) == 0);
            assert(m as nat % pow2(k as nat) == m);
        }
        if k == 127 && m > 0x4000_0000_0000_0000_0000_0000_0000_0000 {
            1
        } else {
            0
        }
    } else {
        let p = power(k);
        let q = m / p;
        let rem = m % p;
        proof {
            lemma_fundamental_div_mod(m as int, p as int);
            assert(q * p <= m) by (nonlinear_arith)
                requires
                    m == p * q + rem,
                    rem >= 0,
            ;
            assert(q <= m) by (nonlinear_arith)
                requires
                    q * p <= m,
                    p >= 1,
                    q >= 0,
            ;
            if q == m {
                // then p == 1 or m == 0, and the remainder is 0
                assert(rem == 0) by (nonlinear_arith)
                    requires
                        m == p * q + rem,
                        q == m,
                        p >= 1,
                        rem >= 0,
                        q >= 0,
                ;
            }
        }
        assert(q == m as nat / pow2(k as nat));
        assert(rem == m as nat % pow2(k as nat));
        if 2 * rem > p || (2 * rem == p && q % 2 == 1) {
            proof {
                // rounding up happens only where something was cut off
                assert(rem > 0);
                assert(q + 1 <= m) by (nonlinear_arith)
                    requires
                        m == p * q + rem,
                        rem > 0,
                        p >= 1,
                        q >= 0,
                        2 * rem >= p,
                        rem < p,
                ;
            }
            q + 1
        } else {
            q
        }
    }
}

/// The binary32 number nearest to `± m · 2^e`.
pub fn round_pack(sign: bool, m: u128, e: i32) -> (r: Scalar)
    requires
        m < 0x10_0000_0000_0000_0000_0000_0000,
        -2000 <= e <= 2000,
    ensures
        r == rounded(sign, m as nat, e as int),
        !r.nan(),
        r.sign() == sign,
{
    reveal(rounded);
    reveal(rounded_magnitude);
    reveal(nearest_even);
    let top: u32 = if sign { SIGN_BIT } else { 0 };
    if m == 0 {
        return Scalar { bits: top };
    }
    let len = length(m);
    proof {
        lemma2_to64();
        lemma_large_powers();
        lemma_bit_length(m as nat);
        lemma_bit_length_bound(m as nat, 100);
    }
    let p: i32 = (len as i32) - 1 + e;
    let b: i32 = if p >= -126 { p + 127 } else { 1 };
    let k: i32 = b - 150 - e;
    let q: u128 = if k > 0 {
        round_shift(m, k as u32)
    } else {
        let up = (-k) as u32;
        proof {
            // the shifted number stays below 2^24
            assert(len + up <= 24);
            lemma_pow2_adds(len as nat, up as nat);
            lemma_pow2_pos(up as nat);
            lemma_mul_strict_inequality(m as int, pow2(len as nat) as int, pow2(up as nat) as int);
            if len + up < 24 {
                lemma_pow2_strictly_increases((len + up) as nat, 24);
            }
        }
        m * power(up)
    };
    proof {
        if k > 0 {
            // the rounded number is at most 2^24
            let kk = k as nat;
            lemma_pow2_pos(kk);
            if p >= -126 {
                assert(kk == len - 24);
                lemma_pow2_adds(24, kk);
                lemma_fundamental_div_mod(m as int, pow2(kk) as int);
                lemma_mod_bound(m as int, pow2(kk) as int);
                let qq = m as int / (pow2(kk) as int);
                assert(qq < 0x100_0000) by (nonlinear_arith)
                    requires
                        m < 0x100_0000 * pow2(kk),
                        m == pow2(kk) * qq + (m as int % (pow2(kk) as int)),
                        0 <= (m as int % (pow2(kk) as int)),
                        pow2(kk) > 0,
                ;
            } else {
                // len + e < -125 and k = -149 - e, so k > len + 24
                assert(kk >= len - 23);
                if kk >= len {
                    if kk > len {
                        lemma_pow2_strictly_increases(len as nat, kk);
                    }
                    vstd::arithmetic::div_mod::lemma_basic_div(m as int, pow2(kk) as int);
                } else {
                    lemma_pow2_adds((len - kk) as nat, kk);
                    lemma_pow2_strictly_increases((len - kk) as nat, 24);
                    lemma_fundamental_div_mod(m as int, pow2(kk) as int);
                    lemma_mod_bound(m as int, pow2(kk) as int);
                    let qq = m as int / (pow2(kk) as int);
                    let pl = pow2((len - kk) as nat) as int;
                    assert(qq < pl) by (nonlinear_arith)
                        requires
                            m < pl * pow2(kk),
                            m == pow2(kk) * qq + (m as int % (pow2(kk) as int)),
                            0 <= (m as int % (pow2(kk) as int)),
                            pow2(kk) > 0,
                    ;
                }
            }
        }
    }
    assert(q <= 0x100_0000);
    let raw: i64 = ((b - 1) as i64) * (HIDDEN_BIT as i64) + (q as i64);
    if raw >= INFINITY_BITS as i64 {
        Scalar { bits: top + INFINITY_BITS }
    } else {
        Scalar { bits: top + (raw as u32) }
    }
}

/// The biased exponent of the binade in which `m · 2^e` lies: that of the
/// normal numbers from the weight of its leading one, and 1 where that lies
/// below the normal numbers.
pub open spec fn binade(m: nat, e: int) -> int {
    let p = bit_length(m) - 1 + e;
    if p >= -126 {
        p + 127
    } else {
        1
    }
}

/// By how many binary places `m` exceeds the spacing of its binade.
pub open spec fn excess(m: nat, e: int) -> int {
    binade(m, e) - 150 - e
}

/// How many spacings of its binade the number nearest to `m · 2^e` counts.
pub open spec fn grid_count(m: nat, e: int) -> nat {
    if excess(m, e) > 0 {
        nearest_even(m, excess(m, e) as nat)
    } else {
        m * pow2((-excess(m, e)) as nat)
    }
}

/// Rounding to a multiple of a power of two finds a nearest multiple: it
/// lies within half a spacing of the number, and where it lies at half a
/// spacing, so that two multiples are nearest, it is the even one.
pub proof fn lemma_nearest_even(m: nat, k: nat)
    requires
        k >= 1,
    ensures
        ({
            let q = nearest_even(m, k);
            let p = pow2(k) as int;
            &&& 2 * (q * p - m) <= p
            &&& 2 * (m - q * p) <= p
            &&& (2 * (q * p - m) == p || 2 * (m - q * p) == p) ==> q % 2 == 0
        }),
{
    reveal(nearest_even);
    let p = pow2(k) as int;
    lemma_pow2_pos(k);
    lemma_pow2_unfold(k);
    let q0 = m as int / p;
    let r = m as int % p;
    lemma_fundamental_div_mod(m as int, p);
    lemma_mod_bound(m as int, p);
    let q = nearest_even(m, k) as int;
    assert(q == q0 || q == q0 + 1);
    assert(q0 * p == p * q0) by (nonlinear_arith);
    assert((q0 + 1) * p == p * q0 + p) by (nonlinear_arith);
}

/// Where the number nearest to `m · 2^e` is finite, it counts between 2^23
/// and 2^24 spacings of its binade, fewer only in the lowest binade.
pub proof fn lemma_grid_count(m: nat, e: int)
    requires
        m > 0,
    ensures
        grid_count(m, e) <= 0x100_0000,
        binade(m, e) > 1 ==> grid_count(m, e) >= 0x80_0000,
{
    reveal(nearest_even);
    lemma2_to64();
    lemma_bit_length(m);
    let len = bit_length(m);
    let b = binade(m, e);
    let k = excess(m, e);
    if k > 0 {
        let kk = k as nat;
        let pk = pow2(kk) as int;
        lemma_pow2_pos(kk);
        lemma_fundamental_div_mod(m as int, pk);
        lemma_mod_bound(m as int, pk);
        let q0 = m as int / pk;
        let r = m as int % pk;
        if b > 1 {
            // a normal number: k = len - 24
            assert(kk == len - 24);
            lemma_pow2_adds(24, kk);
            lemma_pow2_adds(23, kk);
            assert(q0 < 0x100_0000) by (nonlinear_arith)
                requires
                    m < 0x100_0000 * pk,
                    m == pk * q0 + r,
                    0 <= r,
                    pk > 0,
            ;
            assert(q0 >= 0x80_0000) by (nonlinear_arith)
                requires
                    m >= 0x80_0000 * pk,
                    m == pk * q0 + r,
                    r < pk,
                    pk > 0,
            ;
        } else {
            // the lowest binade: k >= len - 24
            assert(kk >= len - 24);
            if kk >= len {
                if kk > len {
                    lemma_pow2_strictly_increases(len, kk);
                }
                vstd::arithmetic::div_mod::lemma_basic_div(m as int, pk);
            } else {
                lemma_pow2_adds((len - kk) as nat, kk);
                if len - kk < 24 {
                    lemma_pow2_strictly_increases((len - kk) as nat, 24);
                }
                let pl = pow2((len - kk) as nat) as int;
                assert(q0 < pl) by (nonlinear_arith)
                    requires
                        m < pl * pk,
                        m == pk * q0 + r,
                        0 <= r,
                        pk > 0,
                ;
            }
        }
    } else {
        let up = (-k) as nat;
        lemma_pow2_pos(up);
        lemma_pow2_adds(len, up);
        lemma_mul_strict_inequality(m as int, pow2(len) as int, pow2(up) as int);
        if b > 1 {
            assert(len + up == 24);
            lemma_pow2_adds((len - 1) as nat, up);
            lemma_mul_inequality(pow2((len - 1) as nat) as int, m as int, pow2(up) as int);
        } else {
            assert(len + up <= 24);
            if len + up < 24 {
                lemma_pow2_strictly_increases(len + up, 24);
            }
        }
    }
}

/// What a rounding means: where the number nearest to `m · 2^e` is finite,
/// its value is the count of spacings that [`grid_count`] names, times the
/// spacing of its binade, which is `2^(binade - 1)` in units of 2^-149.  By
/// [`lemma_nearest_even`] that count is the one nearest to `m · 2^e`.
pub proof fn lemma_rounded_value(m: nat, e: int)
    requires
        m > 0,
        rounded_magnitude(m, e) < INFINITY_BITS,
    ensures
        magnitude_numerator(rounded_magnitude(m, e) as int) == grid_count(m, e) * pow2(
            (binade(m, e) - 1) as nat,
        ),
{
    reveal(rounded_magnitude);
    lemma2_to64();
    lemma_grid_count(m, e);
    let b = binade(m, e);
    let q = grid_count(m, e) as int;
    let h = HIDDEN_BIT as int;
    let raw = (b - 1) * h + q;
    assert(rounded_magnitude(m, e) == raw);
    let top = pow2((b - 1) as nat) as int;
    lemma_pow2_pos((b - 1) as nat);
    if q < h {
        // only in the lowest binade: a subnormal number
        assert(b == 1);
        assert(raw / h == 0 && raw % h == q);
        assert(q * 1 == q);
    } else if q < 2 * h {
        assert(raw == b * h + (q - h));
        assert(raw / h == b && raw % h == q - h) by {
            vstd::arithmetic::div_mod::lemma_fundamental_div_mod_converse(raw, h, b, q - h);
        }
    } else {
        // the count was carried to 2^24: the first number of the next binade
        assert(q == 2 * h);
        assert(raw == (b + 1) * h);
        assert(raw / h == b + 1 && raw % h == 0) by {
            vstd::arithmetic::div_mod::lemma_fundamental_div_mod_converse(raw, h, b + 1, 0);
        }
        lemma_pow2_unfold(b as nat);
        assert((h + 0) * pow2(b as nat) == (2 * h) * top) by (nonlinear_arith)
            requires
                pow2(b as nat) == 2 * top,
        ;
    }
}

/// The fraction `n / d` over `2^k`, rounded to the nearest whole number, a
/// tie to the even one.
pub open spec fn nearest_even_ratio(n: nat, d: nat, k: nat) -> nat {
    let step = d * pow2(k);
    let q = n / step;
    let r = n % step;
    if 2 * r > step || (2 * r == step && q % 2 == 1) {
        q + 1
    } else {
        q
    }
}

/// A quotient may be rounded from its whole part and one more place that
/// says whether anything is left over: twice the whole part of `n / d`, plus
/// one where the division leaves a remainder, rounds at one place more to
/// the same whole number as the fraction `n / d` itself.
pub proof fn lemma_sticky_quotient(n: nat, d: nat, k: nat)
    requires
        d > 0,
        k >= 1,
    ensures
        nearest_even(2 * (n / d) + if n % d != 0 { 1nat } else { 0nat }, k + 1) == nearest_even_ratio(
            n,
            d,
            k,
        ),
{
    reveal(nearest_even);
    let p = pow2(k) as int;
    let half = pow2((k - 1) as nat) as int;
    lemma_pow2_pos(k);
    lemma_pow2_pos((k - 1) as nat);
    lemma_pow2_unfold(k);
    lemma_pow2_unfold(k + 1);
    assert(p == 2 * half);
    assert(pow2(k + 1) == 2 * p);
    let di = d as int;
    let whole = n as int / di;
    let rem = n as int % di;
    lemma_fundamental_div_mod(n as int, di);
    lemma_mod_bound(n as int, di);
    let q0 = whole / p;
    let t = whole % p;
    lemma_fundamental_div_mod(whole, p);
    lemma_mod_bound(whole, p);
    let s: int = if rem != 0 { 1 } else { 0 };
    let y = 2 * whole + s;
    // y = q0 · 2p + (2t + s)
    assert(y == (2 * p) * q0 + (2 * t + s)) by (nonlinear_arith)
        requires
            y == 2 * whole + s,
            whole == p * q0 + t,
    ;
    assert(0 <= 2 * t + s < 2 * p);
    vstd::arithmetic::div_mod::lemma_fundamental_div_mod_converse(y, 2 * p, q0, 2 * t + s);
    // n = q0 · (d p) + (t d + rem)
    let step = di * p;
    assert(step > 0) by (nonlinear_arith)
        requires
            step == di * p,
            di > 0,
            p > 0,
    ;
    assert(n == step * q0 + (t * di + rem)) by (nonlinear_arith)
        requires
            n == di * whole + rem,
            whole == p * q0 + t,
            step == di * p,
    ;
    assert(0 <= t * di + rem < step) by (nonlinear_arith)
        requires
            0 <= t <= p - 1,
            0 <= rem < di,
            step == di * p,
    ;
    vstd::arithmetic::div_mod::lemma_fundamental_div_mod_converse(n as int, step, q0, t * di + rem);
    // the two remainders lie on the same side of the middle
    let r = t * di + rem;
    if rem == 0 {
        assert(2 * r == (2 * t) * di) by (nonlinear_arith)
            requires
                r == t * di,
        ;
        assert(step == p * di) by (nonlinear_arith)
            requires
                step == di * p,
        ;
        if 2 * t > p {
            assert((2 * t) * di > p * di) by (nonlinear_arith)
                requires
                    2 * t > p,
                    di > 0,
            ;
        } else if 2 * t == p {
        } else {
            assert((2 * t) * di < p * di) by (nonlinear_arith)
                requires
                    2 * t < p,
                    di > 0,
            ;
        }
    } else {
        if t >= half {
            assert(2 * r > step) by (nonlinear_arith)
                requires
                    r == t * di + rem,
                    rem > 0,
                    t >= half,
                    step == di * p,
                    p == 2 * half,
                    di > 0,
            ;
        } else {
            assert(2 * r < step) by (nonlinear_arith)
                requires
                    r == t * di + rem,
                    rem < di,
                    t <= half - 1,
                    step == di * p,
                    p == 2 * half,
                    di > 0,
            ;
        }
    }
}

/// The square root of `n` over `2^k`, rounded to the nearest whole number,
/// a tie to the even one.  `root` is the whole part of the root of `n`.  The
/// root lies above the middle between two multiples of `2^k` exactly where
/// `n` lies above the square of that middle.
pub open spec fn nearest_even_root(n: nat, root: nat, k: nat) -> nat {
    let q = root / pow2(k);
    let middle = q * pow2(k) + pow2(k) / 2;
    if n > middle * middle || (n == middle * middle && q % 2 == 1) {
        q + 1
    } else {
        q
    }
}

/// A square root may be rounded from its whole part and one more place that
/// says whether anything is left over: twice the whole part of the root of
/// `n`, plus one where `n` is no square, rounds at one place more to the
/// same whole number as the root itself.
pub proof fn lemma_sticky_root(n: nat, root: nat, k: nat)
    requires
        k >= 1,
        root * root <= n < (root + 1) * (root + 1),
    ensures
        nearest_even(2 * root + if root * root != n { 1nat } else { 0nat }, k + 1) == nearest_even_root(
            n,
            root,
            k,
        ),
{
    reveal(nearest_even);
    let p = pow2(k) as int;
    let half = pow2((k - 1) as nat) as int;
    lemma_pow2_pos(k);
    lemma_pow2_pos((k - 1) as nat);
    lemma_pow2_unfold(k);
    lemma_pow2_unfold(k + 1);
    assert(p == 2 * half);
    assert(p / 2 == half);
    let w = root as int;
    let q0 = w / p;
    let t = w % p;
    lemma_fundamental_div_mod(w, p);
    lemma_mod_bound(w, p);
    let s: int = if w * w != n { 1 } else { 0 };
    let y = 2 * w + s;
    assert(y == (2 * p) * q0 + (2 * t + s)) by (nonlinear_arith)
        requires
            y == 2 * w + s,
            w == p * q0 + t,
    ;
    assert(0 <= 2 * t + s < 2 * p);
    vstd::arithmetic::div_mod::lemma_fundamental_div_mod_converse(y, 2 * p, q0, 2 * t + s);
    let middle = q0 * p + half;
    assert(w - middle == t - half) by (nonlinear_arith)
        requires
            w == p * q0 + t,
            middle == q0 * p + half,
    ;
    assert(middle >= 0) by (nonlinear_arith)
        requires
            middle == q0 * p + half,
            q0 >= 0,
            p > 0,
            half > 0,
    ;
    if t > half {
        assert(w * w > middle * middle) by (nonlinear_arith)
            requires
                w > middle,
                middle >= 0,
        ;
    } else if t == half {
        assert(w == middle);
    } else {
        assert((w + 1) * (w + 1) <= middle * middle) by (nonlinear_arith)
            requires
                w + 1 <= middle,
                w >= 0,
        ;
    }
}

} // verus!
