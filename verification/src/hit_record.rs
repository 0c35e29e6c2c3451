//! The record of an intersection.
use vstd::prelude::*;
use crate::ray::Ray;
use crate::scalar::Scalar;
use crate::vec3::{Point3, Vec3};

verus! {

/// Where a ray met a surface: the point `p`, the normal there (turned
/// against the ray once [`HitRecord::set_face_normal`] has run), the place of
/// the surface's material in the scene's table of materials, the ray
/// parameter `t`, the surface coordinates `u` and `v`, and whether the ray
/// came from outside.
///
/// A sphere leaves its surface coordinates to the caller and marks the
/// record `spherical`: they are the longitude and the latitude of the
/// outward normal, `((atan2(-z, x) + π) / 2π, acos(-y) / π)`.
#[derive(Clone, Copy, Debug, PartialEq, Eq, Structural)]
pub struct HitRecord {
    pub p: Point3,
    pub normal: Vec3,
    pub material: usize,
    pub t: Scalar,
    pub u: Scalar,
    pub v: Scalar,
    pub front_face: bool,
    pub spherical: bool,
}

impl HitRecord {
    /// The record that [`HitRecord::empty`] returns.
    pub open spec fn empty_record() -> HitRecord {
        HitRecord {
            p: Vec3 { x: Scalar { bits: 0 }, y: Scalar { bits: 0 }, z: Scalar { bits: 0 } },
            normal: Vec3 { x: Scalar { bits: 0 }, y: Scalar { bits: 0 }, z: Scalar { bits: 0 } },
            material: 0,
            t: Scalar { bits: 0 },
            u: Scalar { bits: 0 },
            v: Scalar { bits: 0 },
            front_face: false,
            spherical: false,
        }
    }

    /// The normal as the surface has it, pointing outward: the record's
    /// normal where the ray came from outside, and its negation otherwise.
    pub open spec fn outward(self) -> Vec3 {
        if self.front_face {
            self.normal
        } else {
            self.normal.negated()
        }
    }

    /// The record with its normal turned against a ray of the given
    /// direction.  The ray comes from outside exactly when the scalar product
    /// of its direction with the outward normal is below zero; the normal
    /// kept is the outward one in that case and its negation otherwise.
    pub open spec fn faced(self, direction: Vec3, outward_normal: Vec3) -> HitRecord {
        let front_face = direction.dotted(outward_normal).below(Scalar { bits: 0 });
        HitRecord {
            front_face,
            normal: if front_face { outward_normal } else { outward_normal.negated() },
            ..self
        }
    }

    /// A record of all zeros, of the material in place 0, not front facing.
    pub fn empty() -> (r: HitRecord)
        ensures
            r == HitRecord::empty_record(),
    {
        HitRecord {
            p: Vec3::new_init(),
            normal: Vec3::new_init(),
            material: 0,
            t: Scalar::zero(),
            u: Scalar::zero(),
            v: Scalar::zero(),
            front_face: false,
            spherical: false,
        }
    }

    pub fn new(
        p: Point3,
        normal: Vec3,
        material: usize,
        t: Scalar,
        u: Scalar,
        v: Scalar,
        front_face: bool,
    ) -> (r: HitRecord)
        ensures
            r == (HitRecord { p, normal, material, t, u, v, front_face, spherical: false }),
    {
        HitRecord { p, normal, material, t, u, v, front_face, spherical: false }
    }

    /// The normal as the surface has it: see [`HitRecord::outward`].
    pub fn outward_normal(&self) -> (r: Vec3)
        ensures
            r == self.outward(),
    {
        if self.front_face {
            self.normal
        } else {
            self.normal.neg()
        }
    }

    /// Turns the normal against the ray: see [`HitRecord::faced`].
    pub fn set_face_normal(&mut self, ray: &Ray, outward_normal: &Vec3)
        ensures
            *final(self) == old(self).faced(ray.direction, *outward_normal),
    {
        let zero = Scalar::zero();
        let product = ray.direction.dot(outward_normal);
        self.front_face = product.lt(&zero);
        self.normal = if self.front_face {
            *outward_normal
        } else {
            outward_normal.neg()
        };
    }

    /// The record with the given surface coordinates.
    pub fn with_uv(self, u: Scalar, v: Scalar) -> (r: HitRecord)
        ensures
            r == (HitRecord { u, v, ..self }),
    {
        HitRecord { u, v, ..self }
    }

    /// Back to the zero point, the zero normal, material 0, `t` zero, not
    /// front facing and not spherical; `u` and `v` stay.
    pub fn reset(&mut self)
        ensures
            *final(self) == (HitRecord { u: old(self).u, v: old(self).v, ..HitRecord::empty_record() }),
    {
        self.p = Vec3::new_init();
        self.normal = Vec3::new_init();
        self.material = 0;
        self.t = Scalar::zero();
        self.front_face = false;
        self.spherical = false;
    }
}

/// Once a record faces the ray, its normal points against the ray: the
/// scalar product of the ray's direction with the normal is not above zero,
/// and the record says that the ray came from outside exactly where the
/// product with the outward normal is below zero.  This holds wherever that
/// product is a number.
pub proof fn lemma_face_normal(rec: HitRecord, direction: Vec3, outward_normal: Vec3)
    requires
        !direction.dotted(outward_normal).nan(),
    ensures
        rec.faced(direction, outward_normal).front_face == (direction.dotted(outward_normal).rank() < 0),
        !direction.dotted(rec.faced(direction, outward_normal).normal).nan(),
        direction.dotted(rec.faced(direction, outward_normal).normal).rank() <= 0,
{
    crate::vec3::lemma_dotted_negated(direction, outward_normal);
}

/// A record that faces the ray still tells the outward normal: turning the
/// normal back where the ray came from inside gives the normal that the
/// surface had.
pub proof fn lemma_outward_kept(rec: HitRecord, direction: Vec3, outward_normal: Vec3)
    ensures
        rec.faced(direction, outward_normal).outward() == outward_normal,
{
    let n = outward_normal;
    assert(n.negated().negated() == n);
}

} // verus!
