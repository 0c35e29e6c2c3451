//! Colours on their way to the image.
//!
//! A pixel gathers the radiance of its samples.  To encode it, channels that
//! are not numbers are replaced by zero, the sum is divided by the number of
//! samples, the square root is taken (a gamma of 2), and each channel is held
//! to the interval from 0 to 0.999, scaled by 256 and cut to a byte.
use vstd::prelude::*;
use crate::scalar::{Scalar, ONE_BITS};
use crate::vec3::{Color, Vec3};

verus! {

/// The encoding of 0.999, the largest value a channel is held to.
pub const CHANNEL_LIMIT_BITS: u32 = 0x3f7f_be77;

/// A channel with zero where it is not a number.
pub open spec fn cleaned(c: Scalar) -> Scalar {
    if c.nan() {
        Scalar { bits: 0 }
    } else {
        c
    }
}

/// A channel held to the interval from 0 to 0.999, with zero for what is not
/// a number.
pub open spec fn held(c: Scalar) -> Scalar {
    if c.nan() || c.below(Scalar { bits: 0 }) {
        Scalar { bits: 0 }
    } else if (Scalar { bits: CHANNEL_LIMIT_BITS }).below(c) {
        Scalar { bits: CHANNEL_LIMIT_BITS }
    } else {
        c
    }
}

/// The byte of a channel: `floor(256 · c)` for the channel `c` held to the
/// interval from 0 to 0.999.
pub open spec fn byte_of(c: Scalar) -> int {
    held(c).truncated(8, 255)
}

/// The colour with zero in each channel that is not a number.
pub fn sanitize(c: Color) -> (r: Color)
    ensures
        r == (Color { x: cleaned(c.x), y: cleaned(c.y), z: cleaned(c.z) }),
        !r.any_nan(),
{
    Color::new(clean(&c.x), clean(&c.y), clean(&c.z))
}

fn clean(c: &Scalar) -> (r: Scalar)
    ensures
        r == cleaned(*c),
        !r.nan(),
{
    if c.is_nan() {
        Scalar::zero()
    } else {
        *c
    }
}

/// The byte of a channel after the gamma: the channel is held to the
/// interval from 0 to 0.999, scaled by 256 and cut to a whole number.  What
/// is not a number becomes 0.
pub fn encode_channel(c: Scalar) -> (r: u8)
    ensures
        r == byte_of(c),
        c.nan() ==> r == 0,
        c.below(Scalar { bits: 0 }) ==> r == 0,
{
    let zero = Scalar::zero();
    let limit = Scalar::from_bits(CHANNEL_LIMIT_BITS);
    let h = if c.is_nan() || c.lt(&zero) {
        zero
    } else if c.gt(&limit) {
        limit
    } else {
        c
    };
    let wide = h.truncate_scaled(8);
    proof {
        assert(zero.numerator() == 0);
        assert(0 * vstd::arithmetic::power2::pow2(8) == 0);
        assert(zero.floor_scaled(8) == 0) by {
            vstd::arithmetic::power2::lemma_pow2_pos(149);
        }
    }
    if wide > 255 {
        255
    } else {
        wide as u8
    }
}

/// The colour of a pixel after the gamma: the sum of its samples, with zero
/// for what is not a number, over the number of samples, and of that the
/// square root.
pub open spec fn gamma(pixel_color: Color, samples_per_pixel: Scalar) -> Color {
    let scale = (Scalar { bits: ONE_BITS }).over(samples_per_pixel);
    Color {
        x: cleaned(pixel_color.x).times(scale).root(),
        y: cleaned(pixel_color.y).times(scale).root(),
        z: cleaned(pixel_color.z).times(scale).root(),
    }
}

/// The three bytes of a colour after the gamma.
pub open spec fn bytes_of(c: Color) -> (u8, u8, u8) {
    (byte_of(c.x) as u8, byte_of(c.y) as u8, byte_of(c.z) as u8)
}

/// The three bytes of a colour after the gamma: red, green and blue.
pub fn encode(c: Color) -> (r: [u8; 3])
    ensures
        (r@[0], r@[1], r@[2]) == bytes_of(c),
{
    [encode_channel(c.x), encode_channel(c.y), encode_channel(c.z)]
}

/// The three bytes of a pixel: the sum of its samples is divided by their
/// number, the square root is taken, and each channel is held to the
/// interval from 0 to 0.999, scaled by 256 and cut to a byte.  A channel
/// that is not a number gives the byte 0.
pub fn to_rgb(pixel_color: Color, samples_per_pixel: Scalar) -> (r: [u8; 3])
    ensures
        (r@[0], r@[1], r@[2]) == bytes_of(gamma(pixel_color, samples_per_pixel)),
{
    let clean = sanitize(pixel_color);
    let scale = Scalar::one().div(&samples_per_pixel);
    let g = Vec3::new(
        clean.x.mul(&scale).sqrt(),
        clean.y.mul(&scale).sqrt(),
        clean.z.mul(&scale).sqrt(),
    );
    encode(g)
}

/// A channel that is not a number encodes to the byte 0, however many
/// samples the pixel has.
pub proof fn lemma_nan_encodes_to_zero(pixel_color: Color, samples_per_pixel: Scalar)
    ensures
        pixel_color.x.nan() ==> bytes_of(gamma(pixel_color, samples_per_pixel)).0 == 0,
        pixel_color.y.nan() ==> bytes_of(gamma(pixel_color, samples_per_pixel)).1 == 0,
        pixel_color.z.nan() ==> bytes_of(gamma(pixel_color, samples_per_pixel)).2 == 0,
{
    let scale = (Scalar { bits: ONE_BITS }).over(samples_per_pixel);
    lemma_zero_channel(Scalar { bits: 0 }, scale);
}

/// Zero times any number, and of that the root, is zero or not a number,
/// and encodes to the byte 0.
proof fn lemma_zero_channel(zero: Scalar, scale: Scalar)
    requires
        zero.is_zero(),
    ensures
        byte_of(zero.times(scale).root()) == 0,
{
    let product = zero.times(scale);
    reveal(Scalar::times);
    reveal(Scalar::root);
    assert(zero.sig() == 0);
    assert(0 * scale.sig() == 0);
    crate::arith::lemma_rounded_parts(zero.sign() != scale.sign(), 0, zero.exp() + scale.exp());
    reveal(crate::rounding::rounded_magnitude);
    assert(product.nan() || product.is_zero());
    assert(product.root().nan() || product.root().is_zero());
    let r = product.root();
    let none = Scalar { bits: 0 };
    if !r.nan() {
        assert(r.rank() == 0);
        assert(held(r) == r || held(r) == none);
        assert(r.numerator() == 0);
        assert(0 * vstd::arithmetic::power2::pow2(8) == 0);
        vstd::arithmetic::power2::lemma_pow2_pos(149);
    } else {
        assert(held(r) == none);
        assert(none.numerator() == 0);
        assert(0 * vstd::arithmetic::power2::pow2(8) == 0);
        vstd::arithmetic::power2::lemma_pow2_pos(149);
    }
}

/// Whether a colour is black: whether each of its channels is a zero.
pub open spec fn dark(c: Color) -> bool {
    c.x.is_zero() && c.y.is_zero() && c.z.is_zero()
}

/// Black stays black.  A black sample is finite, so that it is added to its
/// pixel; a black pixel with a black sample more is black; and a black
/// pixel is stored as three zero bytes, however many samples it has.
pub proof fn lemma_dark_pixel(pixel: Color, sample: Color, samples_per_pixel: Scalar)
    requires
        dark(pixel),
        dark(sample),
    ensures
        sample.finite(),
        dark(pixel.plus(sample)),
        bytes_of(gamma(pixel, samples_per_pixel)) == (0u8, 0u8, 0u8),
{
    let scale = (Scalar { bits: ONE_BITS }).over(samples_per_pixel);
    lemma_zero_channel(pixel.x, scale);
    lemma_zero_channel(pixel.y, scale);
    lemma_zero_channel(pixel.z, scale);
    crate::arith::lemma_plus_zero(pixel.x, sample.x);
    crate::arith::lemma_plus_zero(pixel.y, sample.y);
    crate::arith::lemma_plus_zero(pixel.z, sample.z);
}

} // verus!
