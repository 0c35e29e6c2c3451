//! Rays.
use vstd::prelude::*;
use crate::arith::{lemma_plus_zero, lemma_times_zero};
use crate::scalar::Scalar;
use crate::vec3::{Point3, Vec3};

verus! {

/// A half-line: the points `origin + t · direction`.  The direction need not
/// have unit length.
#[derive(Clone, Copy, Debug, PartialEq, Eq, Structural)]
pub struct Ray {
    pub origin: Point3,
    pub direction: Vec3,
}

impl Ray {
    pub fn new(origin: Point3, direction: Vec3) -> (r: Ray)
        ensures
            r == (Ray { origin, direction }),
    {
        Ray { origin, direction }
    }

    /// The ray from the origin with the zero direction.
    pub fn empty() -> (r: Ray)
        ensures
            r.origin.x.bits == 0 && r.origin.y.bits == 0 && r.origin.z.bits == 0,
            r.direction.x.bits == 0 && r.direction.y.bits == 0 && r.direction.z.bits == 0,
    {
        Ray { origin: Vec3::new_init(), direction: Vec3::new_init() }
    }

    pub fn origin(&self) -> (r: Point3)
        ensures
            r == self.origin,
    {
        self.origin
    }

    pub fn direction(&self) -> (r: Vec3)
        ensures
            r == self.direction,
    {
        self.direction
    }

    /// The point of the ray at the parameter `t`: `origin + direction · t`.
    pub open spec fn point(self, t: Scalar) -> Point3 {
        self.origin.plus(self.direction.scaled(t))
    }

    /// The point of the ray at the parameter `t`.
    pub fn at(&self, t: Scalar) -> (r: Point3)
        ensures
            r == self.point(t),
    {
        self.origin.add(&self.direction.scale(&t))
    }
}

/// A ray starts at its origin: at the parameter zero its point is the
/// origin, component for component the same number.  This holds of every ray
/// whose direction is finite and whose origin is made of numbers.
pub proof fn lemma_ray_at_zero(ray: Ray)
    requires
        ray.direction.finite(),
        !ray.origin.any_nan(),
    ensures
        ray.point(Scalar { bits: 0 }).x.same(ray.origin.x),
        ray.point(Scalar { bits: 0 }).y.same(ray.origin.y),
        ray.point(Scalar { bits: 0 }).z.same(ray.origin.z),
{
    let zero = Scalar { bits: 0 };
    lemma_times_zero(ray.direction.x);
    lemma_times_zero(ray.direction.y);
    lemma_times_zero(ray.direction.z);
    lemma_plus_zero(ray.origin.x, ray.direction.x.times(zero));
    lemma_plus_zero(ray.origin.y, ray.direction.y.times(zero));
    lemma_plus_zero(ray.origin.z, ray.direction.z.times(zero));
}

} // verus!
