//! Densities of directions.
//!
//! The cosine-weighted density around a normal is `cos θ / π` above the
//! surface and zero below it.
use vstd::arithmetic::power2::pow2;
use vstd::prelude::*;
use crate::arith::lemma_rounded_parts;
use crate::hittable_list::{HittableList, LightSamples};
use crate::onb::{axis_vector, unit_axis, ONB};
use crate::scalar::{Scalar, ONE_BITS};
use crate::utility::PI_BITS;
use crate::vec3::{Point3, Vec3};

verus! {

/// The cosine-weighted distribution around the `w` of a basis.
#[derive(Clone, Copy, Debug, PartialEq, Eq, Structural)]
pub struct CosinePDF {
    pub uvw: ONB,
}

/// The distribution of directions from a point towards an object, which is
/// found in place `target` of a scene.
#[derive(Clone, Copy, Debug, PartialEq, Eq, Structural)]
pub struct HittablePDF {
    pub origin: Point3,
    pub target: usize,
}

/// A direction about the z axis with a density proportional to its cosine
/// with that axis.  `r2` is a uniform number, `cos_phi` and `sin_phi` are
/// cosine and sine of a uniform angle: the direction is
/// `(cos φ · √r2, sin φ · √r2, √(1 - r2))`.
pub open spec fn cosine_direction(r2: Scalar, cos_phi: Scalar, sin_phi: Scalar) -> Vec3 {
    Vec3 {
        x: cos_phi.times(r2.root()),
        y: sin_phi.times(r2.root()),
        z: (Scalar { bits: ONE_BITS }).minus(r2).root(),
    }
}

/// A direction about the z axis with a density proportional to its cosine
/// with that axis.
pub fn random_cosine_direction(r2: Scalar, cos_phi: Scalar, sin_phi: Scalar) -> (r: Vec3)
    ensures
        r == cosine_direction(r2, cos_phi, sin_phi),
{
    let z = Scalar::one().sub(&r2).sqrt();
    let root = r2.sqrt();
    Vec3::new(cos_phi.mul(&root), sin_phi.mul(&root), z)
}

impl CosinePDF {
    /// The density of a direction: `cos θ / π` for the cosine of its angle
    /// with `w` where that is above zero, else zero.
    pub open spec fn density(self, direction: Vec3) -> Scalar {
        let cosine = direction.unit().dotted(self.uvw.w);
        if (Scalar { bits: 0 }).below(cosine) {
            cosine.over(Scalar { bits: PI_BITS })
        } else {
            Scalar { bits: 0 }
        }
    }

    /// The distribution around the direction `w`.
    pub fn new(w: &Vec3) -> (r: CosinePDF)
        ensures
            r.uvw == ONB::around(*w),
    {
        let mut uvw = ONB::new();
        uvw.build_from_w(w);
        CosinePDF { uvw }
    }

    /// The density of a direction.
    pub fn value(&self, direction: &Vec3) -> (r: Scalar)
        ensures
            r == self.density(*direction),
    {
        let cosine = direction.normalize().dot(&self.uvw.w);
        if cosine.gt(&Scalar::zero()) {
            cosine.div(&Scalar::from_bits(PI_BITS))
        } else {
            Scalar::zero()
        }
    }

    /// A direction drawn from the distribution.
    pub fn generate(&self, r2: Scalar, cos_phi: Scalar, sin_phi: Scalar) -> (r: Vec3)
        ensures
            r == self.uvw.local(cosine_direction(r2, cos_phi, sin_phi)),
    {
        self.uvw.local_vec(&random_cosine_direction(r2, cos_phi, sin_phi))
    }
}

/// The cosine-weighted density is one by its sign: whatever the axis and
/// the direction, it is a number and not below zero, and it is zero for a
/// direction whose cosine with the axis is not above zero, which is every
/// direction of the lower half space.
pub proof fn lemma_cosine_density_sign(pdf: CosinePDF, direction: Vec3)
    ensures
        !pdf.density(direction).nan(),
        pdf.density(direction).rank() >= 0,
        !(Scalar { bits: 0 }).below(direction.unit().dotted(pdf.uvw.w)) ==> pdf.density(direction) == (Scalar {
            bits: 0,
        }),
{
    let cosine = direction.unit().dotted(pdf.uvw.w);
    let pi = Scalar { bits: PI_BITS };
    if (Scalar { bits: 0 }).below(cosine) {
        reveal(Scalar::over);
        assert(!cosine.sign() && !cosine.nan() && !cosine.is_zero());
        assert(!pi.sign() && !pi.nan() && !pi.infinite() && !pi.is_zero());
        if !cosine.infinite() {
            let n = cosine.sig() * pow2(64);
            let q = n / pi.sig();
            let rest: nat = if n % pi.sig() != 0 {
                1
            } else {
                0
            };
            lemma_rounded_parts(false, 2 * q + rest, cosine.exp() - pi.exp() - 65);
        }
    }
}

impl HittablePDF {
    /// The density of a direction: that with which the object draws it from
    /// the origin, and zero where the scene has no such object.
    pub open spec fn density(self, world: HittableList, direction: Vec3) -> Scalar {
        if self.target < world.objects@.len() {
            world.objects@[self.target as int].density(self.origin, direction)
        } else {
            Scalar { bits: 0 }
        }
    }

    /// The direction towards the object, or its member `member`, that the
    /// samples stand for; the x axis where the scene has no such object.
    pub open spec fn direction(self, world: HittableList, member: usize, samples: LightSamples) -> Vec3 {
        if self.target < world.objects@.len() {
            world.objects@[self.target as int].towards(member, self.origin, samples)
        } else {
            unit_axis(0)
        }
    }

    pub fn new(origin: Point3, target: usize) -> (r: HittablePDF)
        ensures
            r == (HittablePDF { origin, target }),
    {
        HittablePDF { origin, target }
    }

    /// The density of a direction.
    pub fn value(&self, world: &HittableList, direction: &Vec3) -> (r: Scalar)
        ensures
            r == self.density(*world, *direction),
    {
        if self.target < world.objects.len() {
            world.objects[self.target].pdf_value(&self.origin, direction)
        } else {
            Scalar::zero()
        }
    }

    /// A direction drawn from the distribution.
    pub fn generate(&self, world: &HittableList, member: usize, samples: &LightSamples) -> (r: Vec3)
        ensures
            r == self.direction(*world, member, *samples),
    {
        if self.target < world.objects.len() {
            world.objects[self.target].random(member, &self.origin, samples)
        } else {
            axis_vector(0)
        }
    }
}

} // verus!
