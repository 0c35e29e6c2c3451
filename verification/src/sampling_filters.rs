//! Sampling filters: where inside a pixel a sample is taken.
//!
//! A filter maps a uniform number of the interval from 0 to 1 to an offset
//! within the pixel.  The uniform filter hands the number on.  The tent
//! filter doubles a number below one half and mirrors the others: `2x` for
//! `x < 1/2`, else `2(1 - x)`.  The Lanczos filter is 1 near zero, a product
//! of two sines over a square further out on either side, and 0 from 2 on.
use vstd::prelude::*;
use vstd::string::StringExecFns;
use crate::scalar::{Scalar, HALF_BITS, ONE_BITS};
use crate::rounding::rounded;
use crate::utility::{NEAR_ZERO_BITS, PI_BITS, TWO_BITS};

verus! {

/// The filters by name.
#[derive(Clone, Copy, Debug, PartialEq, Eq, Structural)]
pub enum FilterKind {
    Uniform,
    Tent,
    Lanczos,
}

/// The filter that hands a uniform number on.
#[derive(Clone, Copy, Debug, PartialEq, Eq, Structural)]
pub struct UniformFilter {}

/// The tent filter, of radius one half.
#[derive(Clone, Copy, Debug, PartialEq, Eq, Structural)]
pub struct TentFilter {
    pub radius: Scalar,
    pub inv_radius: Scalar,
    pub num_samples: usize,
}

/// The Lanczos filter, of radius 2.
#[derive(Clone, Copy, Debug, PartialEq, Eq, Structural)]
pub struct LanczosFilter {
    pub radius: Scalar,
    pub inv_radius: Scalar,
    pub num_samples: usize,
}

/// Which branch of the Lanczos filter holds for a number.
#[derive(Clone, Copy, Debug, PartialEq, Eq, Structural)]
pub enum LanczosBranch {
    /// The filter is 1.
    One,
    /// The filter is `sin(πx) · sin(πx/2) / (π²x²/2)`.
    Lobe,
    /// The filter is 0.
    Zero,
}

/// The decimal digit `d` as a text.
pub open spec fn digit(d: nat) -> Seq<char> {
    if d == 0 {
        "0"@
    } else if d == 1 {
        "1"@
    } else if d == 2 {
        "2"@
    } else if d == 3 {
        "3"@
    } else if d == 4 {
        "4"@
    } else if d == 5 {
        "5"@
    } else if d == 6 {
        "6"@
    } else if d == 7 {
        "7"@
    } else if d == 8 {
        "8"@
    } else {
        "9"@
    }
}

/// A count as it is written: its decimal digits, the first of them not a
/// zero unless the count is zero.
pub open spec fn decimal(n: nat) -> Seq<char>
    decreases n,
{
    if n < 10 {
        digit(n)
    } else {
        decimal(n / 10) + digit(n % 10)
    }
}

fn digit_text(d: usize) -> (r: &'static str)
    requires
        d < 10,
    ensures
        r@ == digit(d as nat),
{
    if d == 0 {
        "0"
    } else if d == 1 {
        "1"
    } else if d == 2 {
        "2"
    } else if d == 3 {
        "3"
    } else if d == 4 {
        "4"
    } else if d == 5 {
        "5"
    } else if d == 6 {
        "6"
    } else if d == 7 {
        "7"
    } else if d == 8 {
        "8"
    } else {
        "9"
    }
}

/// A count as it is written.
pub fn decimal_text(n: usize) -> (r: String)
    ensures
        r@ == decimal(n as nat),
    decreases n,
{
    if n < 10 {
        String::from_str(digit_text(n))
    } else {
        let mut text = decimal_text(n / 10);
        text.append(digit_text(n % 10));
        text
    }
}

/// The text of a filter with a radius: its name, the texts of its radius
/// and of the inverse of the radius, and the number of its samples.
pub open spec fn filter_text(name: Seq<char>, radius: Seq<char>, inv_radius: Seq<char>, num_samples: nat) -> Seq<
    char,
> {
    name + " { radius: "@ + radius + ", inv_radius: "@ + inv_radius + ", num_samples: "@ + decimal(num_samples)
        + " }"@
}

fn text_of_filter(name: &str, radius: &str, inv_radius: &str, num_samples: usize) -> (r: String)
    ensures
        r@ == filter_text(name@, radius@, inv_radius@, num_samples as nat),
{
    let count = decimal_text(num_samples);
    let mut text = String::from_str(name);
    text.append(" { radius: ");
    text.append(radius);
    text.append(", inv_radius: ");
    text.append(inv_radius);
    text.append(", num_samples: ");
    text.append(count.as_str());
    text.append(" }");
    text
}

impl UniformFilter {
    /// The filter as a text.
    pub fn text(&self) -> (r: String)
        ensures
            r@ == "UniformFilter { }"@,
    {
        String::from_str("UniformFilter { }")
    }

    pub fn new() -> (r: UniformFilter)
        ensures
            r == (UniformFilter {  }),
    {
        UniformFilter {  }
    }

    /// The offset for a uniform number: the number itself.
    pub fn sample(&self, x: Scalar) -> (r: Scalar)
        ensures
            r == x,
    {
        x
    }
}

impl TentFilter {
    /// The tent filter for `samples_per_pixel` samples: radius one half, and
    /// 2 for its inverse.
    pub fn new(samples_per_pixel: u32) -> (r: TentFilter)
        ensures
            r.radius.bits == HALF_BITS,
            r.inv_radius.bits == TWO_BITS,
            r.num_samples == samples_per_pixel,
    {
        TentFilter {
            radius: Scalar::from_bits(HALF_BITS),
            inv_radius: Scalar::from_bits(TWO_BITS),
            num_samples: samples_per_pixel as usize,
        }
    }

    /// The filter as a text, given the texts of its radius and of the
    /// inverse of its radius as the machine writes them:
    /// `TentFilter { radius: 0.5, inv_radius: 2, num_samples: 64 }`.
    pub fn text(&self, radius: &str, inv_radius: &str) -> (r: String)
        ensures
            r@ == filter_text("TentFilter"@, radius@, inv_radius@, self.num_samples as nat),
    {
        text_of_filter("TentFilter", radius, inv_radius, self.num_samples)
    }

    /// The offset for a uniform number: `2x` below one half, `2(1 - x)`
    /// from there on.
    pub open spec fn offset(x: Scalar) -> Scalar {
        let two = Scalar { bits: TWO_BITS };
        if x.below(Scalar { bits: HALF_BITS }) {
            two.times(x)
        } else {
            two.times((Scalar { bits: ONE_BITS }).minus(x))
        }
    }

    /// The offset for a uniform number.
    pub fn sample(&self, x: Scalar) -> (r: Scalar)
        ensures
            r == TentFilter::offset(x),
    {
        let two = Scalar::from_bits(TWO_BITS);
        if x.lt(&Scalar::from_bits(HALF_BITS)) {
            two.mul(&x)
        } else {
            two.mul(&Scalar::one().sub(&x))
        }
    }
}

impl LanczosFilter {
    /// The Lanczos filter for `samples_per_pixel` samples: radius 2, and one
    /// half for its inverse.
    pub fn new(samples_per_pixel: u32) -> (r: LanczosFilter)
        ensures
            r.radius.bits == TWO_BITS,
            r.inv_radius.bits == HALF_BITS,
            r.num_samples == samples_per_pixel,
    {
        LanczosFilter {
            radius: Scalar::from_bits(TWO_BITS),
            inv_radius: Scalar::from_bits(HALF_BITS),
            num_samples: samples_per_pixel as usize,
        }
    }

    /// The filter as a text, given the texts of its radius and of the
    /// inverse of its radius as the machine writes them:
    /// `LanczosFilter { radius: 2, inv_radius: 0.5, num_samples: 64 }`.
    pub fn text(&self, radius: &str, inv_radius: &str) -> (r: String)
        ensures
            r@ == filter_text("LanczosFilter"@, radius@, inv_radius@, self.num_samples as nat),
    {
        text_of_filter("LanczosFilter", radius, inv_radius, self.num_samples)
    }

    /// The number at which the filter is taken for a uniform number `x`:
    /// `2x - 1`.
    pub open spec fn stretched(x: Scalar) -> Scalar {
        (Scalar { bits: TWO_BITS }).times(x).minus(Scalar { bits: ONE_BITS })
    }

    /// The branch that holds at `x`: one where `x` is nearer to zero than
    /// 0.001, the lobe where it is nearer than 2, on either side of zero;
    /// zero from there on and for what is not a number.
    pub open spec fn branch_at(x: Scalar) -> LanczosBranch {
        if x.absolute().below(Scalar { bits: NEAR_ZERO_BITS }) {
            LanczosBranch::One
        } else if x.absolute().below(Scalar { bits: TWO_BITS }) {
            LanczosBranch::Lobe
        } else {
            LanczosBranch::Zero
        }
    }

    /// The two numbers whose sines the lobe takes at `x`: `πx` and `πx/2`.
    pub open spec fn angles(x: Scalar) -> (Scalar, Scalar) {
        let pi = Scalar { bits: PI_BITS };
        (pi.times(x), pi.times(x).over(Scalar { bits: TWO_BITS }))
    }

    /// The offset for a uniform number `x`.  `sines` are the sines of the
    /// two [`LanczosFilter::angles`] at `2x - 1`; the lobe is
    /// `sin(πx) · sin(πx/2) / (π²x² / 2)`.
    pub open spec fn offset(x: Scalar, sines: (Scalar, Scalar)) -> Scalar {
        let at = LanczosFilter::stretched(x);
        match LanczosFilter::branch_at(at) {
            LanczosBranch::One => Scalar { bits: ONE_BITS },
            LanczosBranch::Lobe => {
                let pi_x = LanczosFilter::angles(at).0;
                sines.0.times(sines.1).over(pi_x.times(pi_x).over(Scalar { bits: TWO_BITS }))
            },
            LanczosBranch::Zero => Scalar { bits: 0 },
        }
    }

    /// The number at which the filter is taken for a uniform number.
    pub fn stretch(x: Scalar) -> (r: Scalar)
        ensures
            r == LanczosFilter::stretched(x),
    {
        Scalar::from_bits(TWO_BITS).mul(&x).sub(&Scalar::one())
    }

    /// The branch that holds at `x`.
    pub fn branch(&self, x: Scalar) -> (r: LanczosBranch)
        ensures
            r == LanczosFilter::branch_at(x),
    {
        let near = Scalar::from_bits(NEAR_ZERO_BITS);
        let two = Scalar::from_bits(TWO_BITS);
        let size = x.abs();
        if size.lt(&near) {
            LanczosBranch::One
        } else if size.lt(&two) {
            LanczosBranch::Lobe
        } else {
            LanczosBranch::Zero
        }
    }

    /// The two numbers whose sines the lobe takes at `x`.
    pub fn arguments(x: Scalar) -> (r: (Scalar, Scalar))
        ensures
            r == LanczosFilter::angles(x),
    {
        let pi_x = Scalar::from_bits(PI_BITS).mul(&x);
        (pi_x, pi_x.div(&Scalar::from_bits(TWO_BITS)))
    }

    /// The offset for a uniform number `x`, given the two sines.
    pub fn sample(&self, x: Scalar, sines: (Scalar, Scalar)) -> (r: Scalar)
        ensures
            r == LanczosFilter::offset(x, sines),
    {
        let at = LanczosFilter::stretch(x);
        match self.branch(at) {
            LanczosBranch::One => Scalar::one(),
            LanczosBranch::Lobe => {
                let (pi_x, _) = LanczosFilter::arguments(at);
                sines.0.mul(&sines.1).div(&pi_x.mul(&pi_x).div(&Scalar::from_bits(TWO_BITS)))
            },
            LanczosBranch::Zero => Scalar::zero(),
        }
    }
}

/// Where in the image a sample of pixel `(x, y)` is taken, counted from 0 to
/// 1 from the lower left corner: `(x + fx) / (width - 1)` across and
/// `(height - (y + fy)) / (height - 1)` up, for the offsets `fx` and `fy`
/// that the filter gave.
pub open spec fn sample_point(x: u32, y: u32, width: u32, height: u32, fx: Scalar, fy: Scalar) -> (
    Scalar,
    Scalar,
) {
    let one = Scalar { bits: ONE_BITS };
    let w = rounded(false, width as nat, 0);
    let h = rounded(false, height as nat, 0);
    (
        rounded(false, x as nat, 0).plus(fx).over(w.minus(one)),
        h.minus(rounded(false, y as nat, 0).plus(fy)).over(h.minus(one)),
    )
}

/// Where in the image a sample of pixel `(x, y)` is taken.
pub fn pixel_coordinates(x: u32, y: u32, width: u32, height: u32, fx: Scalar, fy: Scalar) -> (r: (
    Scalar,
    Scalar,
))
    ensures
        r == sample_point(x, y, width, height, fx, fy),
{
    let one = Scalar::one();
    let w = Scalar::from_u32(width);
    let h = Scalar::from_u32(height);
    (
        Scalar::from_u32(x).add(&fx).div(&w.sub(&one)),
        h.sub(&Scalar::from_u32(y).add(&fy)).div(&h.sub(&one)),
    )
}

} // verus!
