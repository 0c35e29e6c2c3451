//! Constants, random points and small choices shared by the renderer.
//!
//! The random source is the caller's: the functions here take the uniform
//! numbers that they turn into points and directions.  The one exception is
//! the choice of a member of an aggregate, which asks `fastrand`.
use vstd::prelude::*;
use vstd::string::StringExecFns;

use crate::config::Constants;
use crate::sampling_filters::FilterKind;
use crate::scalar::{Scalar, ONE_BITS};
use crate::vec3::Vec3;

verus! {

/// The encoding of 0.0001, below which a determinant counts as zero.
pub const EPSILON_BITS: u32 = 0x38d1_b717;

/// The encoding of 0.001, the smallest ray parameter at which a surface is
/// met and the length below which a vector counts as zero.
pub const NEAR_ZERO_BITS: u32 = 0x3a83_126f;

/// The encoding of 1000, the radius of the environment sphere where none is
/// given.
pub const ENVIRONMENT_DISTANCE_BITS: u32 = 0x447a_0000;

/// The red of the sky's blue, 0.5.
pub const SKY_RED_BITS: u32 = 0x3f00_0000;

/// The green of the sky's blue, 0.7.
pub const SKY_GREEN_BITS: u32 = 0x3f33_3333;

/// The blue of the sky's blue, 1.
pub const SKY_BLUE_BITS: u32 = 0x3f80_0000;

/// The sky's blue, (0.5, 0.7, 1.0).
pub open spec fn blue_sky() -> Vec3 {
    Vec3 {
        x: Scalar { bits: SKY_RED_BITS },
        y: Scalar { bits: SKY_GREEN_BITS },
        z: Scalar { bits: SKY_BLUE_BITS },
    }
}

/// The sky's blue.
pub fn sky_blue() -> (r: Vec3)
    ensures
        r == blue_sky(),
{
    Vec3::new(
        Scalar::from_bits(SKY_RED_BITS),
        Scalar::from_bits(SKY_GREEN_BITS),
        Scalar::from_bits(SKY_BLUE_BITS),
    )
}

/// The encoding of π.
pub const PI_BITS: u32 = 0x4049_0fdb;

/// The encoding of 2.
pub const TWO_BITS: u32 = 0x4000_0000;

/// The number of the interval from `min` to `max` that a uniform number of
/// the interval from 0 to 1 stands for: `sample · (max - min) + min`.
pub open spec fn ranged(sample: Scalar, min: Scalar, max: Scalar) -> Scalar {
    sample.times(max.minus(min)).plus(min)
}

/// The number of the interval from `min` to `max` that a uniform number of
/// the interval from 0 to 1 stands for.
pub fn random_f32_range(sample: Scalar, min: Scalar, max: Scalar) -> (r: Scalar)
    ensures
        r == ranged(sample, min, max),
{
    sample.mul(&max.sub(&min)).add(&min)
}

/// The number 0.0001.
pub fn epsilon() -> (r: Scalar)
    ensures
        r.bits == EPSILON_BITS,
{
    Scalar::from_bits(EPSILON_BITS)
}

/// The number 0.001.
pub fn near_zero() -> (r: Scalar)
    ensures
        r.bits == NEAR_ZERO_BITS,
{
    Scalar::from_bits(NEAR_ZERO_BITS)
}

/// `fastrand::usize` on the range from `min` up to, not including, `max`: a
/// number of that range.  Which one is a matter of chance, so the contract
/// says nothing more.
#[verifier::external_body]
pub fn random_usize_range(min: usize, max: usize) -> (r: usize)
    requires
        min < max,
    ensures
        min <= r < max,
{
    fastrand::usize(min..max)
}

/// The encoding of -1.
pub const MINUS_ONE_BITS: u32 = 0xbf80_0000;

/// The point of the square from -1 to 1 that two uniform numbers stand for,
/// in the plane where z is zero: a candidate for a point of the unit disk.
pub fn disk_candidate(s1: Scalar, s2: Scalar) -> (r: Vec3)
    ensures
        r == (Vec3 {
            x: ranged(s1, Scalar { bits: MINUS_ONE_BITS }, Scalar { bits: ONE_BITS }),
            y: ranged(s2, Scalar { bits: MINUS_ONE_BITS }, Scalar { bits: ONE_BITS }),
            z: Scalar { bits: 0 },
        }),
{
    let lo = Scalar::from_bits(MINUS_ONE_BITS);
    let hi = Scalar::one();
    Vec3::new(random_f32_range(s1, lo, hi), random_f32_range(s2, lo, hi), Scalar::zero())
}

/// The point of the cube from -1 to 1 that three uniform numbers stand for:
/// a candidate for a point of the unit ball.
pub fn ball_candidate(s1: Scalar, s2: Scalar, s3: Scalar) -> (r: Vec3)
    ensures
        r == (Vec3 {
            x: ranged(s1, Scalar { bits: MINUS_ONE_BITS }, Scalar { bits: ONE_BITS }),
            y: ranged(s2, Scalar { bits: MINUS_ONE_BITS }, Scalar { bits: ONE_BITS }),
            z: ranged(s3, Scalar { bits: MINUS_ONE_BITS }, Scalar { bits: ONE_BITS }),
        }),
{
    let lo = Scalar::from_bits(MINUS_ONE_BITS);
    let hi = Scalar::one();
    Vec3::new(random_f32_range(s1, lo, hi), random_f32_range(s2, lo, hi), random_f32_range(s3, lo, hi))
}

/// Whether a candidate is taken for a point of the unit disk or ball:
/// whether its squared length is below 1.  A point is drawn evenly by
/// drawing candidates until one is taken.
pub fn in_unit_ball(p: &Vec3) -> (r: bool)
    ensures
        r == p.norm_squared().below(Scalar { bits: ONE_BITS }),
{
    p.length_squared().lt(&Scalar::one())
}

/// The point of a unit disk that a candidate stands for, if it is taken.
pub fn random_in_unit_disk(s1: Scalar, s2: Scalar) -> (r: Option<Vec3>)
    ensures
        r == {
            let p = Vec3 {
                x: ranged(s1, Scalar { bits: MINUS_ONE_BITS }, Scalar { bits: ONE_BITS }),
                y: ranged(s2, Scalar { bits: MINUS_ONE_BITS }, Scalar { bits: ONE_BITS }),
                z: Scalar { bits: 0 },
            };
            if p.norm_squared().below(Scalar { bits: ONE_BITS }) {
                Some(p)
            } else {
                None
            }
        },
{
    let p = disk_candidate(s1, s2);
    if in_unit_ball(&p) {
        Some(p)
    } else {
        None
    }
}

/// The point of the unit ball that a candidate stands for, if it is taken.
pub fn random_in_unit_sphere(s1: Scalar, s2: Scalar, s3: Scalar) -> (r: Option<Vec3>)
    ensures
        r == {
            let p = Vec3 {
                x: ranged(s1, Scalar { bits: MINUS_ONE_BITS }, Scalar { bits: ONE_BITS }),
                y: ranged(s2, Scalar { bits: MINUS_ONE_BITS }, Scalar { bits: ONE_BITS }),
                z: ranged(s3, Scalar { bits: MINUS_ONE_BITS }, Scalar { bits: ONE_BITS }),
            };
            if p.norm_squared().below(Scalar { bits: ONE_BITS }) {
                Some(p)
            } else {
                None
            }
        },
{
    let p = ball_candidate(s1, s2, s3);
    if in_unit_ball(&p) {
        Some(p)
    } else {
        None
    }
}

/// The point of the unit sphere at the height that a uniform number stands
/// for, at the angle whose cosine and sine are given:
/// `(r · cos a, r · sin a, z)` with `z` between -1 and 1 and
/// `r = sqrt(1 - z²)`.
pub fn random_unit_vector(cos_a: Scalar, sin_a: Scalar, sample: Scalar) -> (r: Vec3)
    ensures
        r == {
            let z = ranged(sample, Scalar { bits: MINUS_ONE_BITS }, Scalar { bits: ONE_BITS });
            let radius = (Scalar { bits: ONE_BITS }).minus(z.times(z)).root();
            Vec3 { x: radius.times(cos_a), y: radius.times(sin_a), z }
        },
{
    let z = random_f32_range(sample, Scalar::from_bits(MINUS_ONE_BITS), Scalar::one());
    let radius = Scalar::one().sub(&z.mul(&z)).sqrt();
    Vec3::new(radius.mul(&cos_a), radius.mul(&sin_a), z)
}

/// What the environment of a scene is made of.
#[derive(Clone, Copy, Debug, PartialEq, Eq, Structural)]
pub enum EnvironmentKind {
    /// The image named by the settings, on the sphere.
    Image,
    /// The sky gradient, from white below to the sky's blue above.
    Gradient,
}

/// The environment that the settings ask for: a sphere about the origin, of
/// the given radius or 1000, which emits with the given intensity or 1, and
/// shows the named image or else the sky gradient.
#[derive(Clone, Copy, Debug, PartialEq, Eq, Structural)]
pub struct Environment {
    pub kind: EnvironmentKind,
    pub distance: Scalar,
    pub intensity: Scalar,
}

/// The environment that the settings ask for.  `distance` and `intensity`
/// are the settings' two numbers, where they are given.
pub fn load_environment(constants: &Constants, distance: Option<Scalar>, intensity: Option<Scalar>) -> (r:
    Environment)
    ensures
        r.kind == if constants.environment_map is Some {
            EnvironmentKind::Image
        } else {
            EnvironmentKind::Gradient
        },
        r.distance == match distance {
            Some(d) => d,
            None => Scalar { bits: ENVIRONMENT_DISTANCE_BITS },
        },
        r.intensity == match intensity {
            Some(i) => i,
            None => Scalar { bits: ONE_BITS },
        },
{
    let kind = if constants.environment_map.is_some() {
        EnvironmentKind::Image
    } else {
        EnvironmentKind::Gradient
    };
    let distance = match distance {
        Some(d) => d,
        None => Scalar::from_bits(ENVIRONMENT_DISTANCE_BITS),
    };
    let intensity = match intensity {
        Some(i) => i,
        None => Scalar::from_bits(ONE_BITS),
    };
    Environment { kind, distance, intensity }
}

impl Environment {
    /// Whether the environment emits: whether its intensity is above zero.
    /// One that does not is left out of the scene, and where nothing is hit
    /// the sky is seen.
    pub open spec fn lit(self) -> bool {
        (Scalar { bits: 0 }).below(self.intensity)
    }

    /// Whether the environment emits.
    pub fn emits(&self) -> (r: bool)
        ensures
            r == self.lit(),
    {
        let zero = Scalar::zero();
        self.intensity.gt(&zero)
    }
}

/// The filter that a name stands for: `UniformFilter`, `TentFilter` or
/// `LanczosFilter`; any other name, and none, stand for the uniform filter.
pub open spec fn filter_named(name: Option<Seq<char>>) -> FilterKind {
    match name {
        Some(n) => if n == "TentFilter"@ {
            FilterKind::Tent
        } else if n == "LanczosFilter"@ {
            FilterKind::Lanczos
        } else {
            FilterKind::Uniform
        },
        None => FilterKind::Uniform,
    }
}

/// The filter that the settings name.
pub fn load_filter(constants: &Constants) -> (r: FilterKind)
    ensures
        r == filter_named(
            match constants.filter {
                Some(n) => Some(n@),
                None => None,
            },
        ),
{
    match &constants.filter {
        Some(n) => {
            let tent = String::from_str("TentFilter");
            let lanczos = String::from_str("LanczosFilter");
            if *n == tent {
                FilterKind::Tent
            } else if *n == lanczos {
                FilterKind::Lanczos
            } else {
                FilterKind::Uniform
            }
        },
        None => FilterKind::Uniform,
    }
}

} // verus!
