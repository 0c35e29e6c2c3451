//! Spheres.
//!
//! A ray `o + t·d` meets the sphere about `c` of radius `r` where
//! `|o + t·d - c|² = r²`, a quadratic in `t`.  With `a = d·d`,
//! `half_b = (o - c)·d` and the discriminant `half_b² - a·(|o - c|² - r²)`
//! its roots are `(-half_b ∓ sqrt(discriminant)) / a`.  The sphere is hit at
//! the smaller root where that lies in the interval asked for, else at the
//! larger where that does.
use vstd::prelude::*;
use crate::bbox::Aabb;
use crate::hit_record::HitRecord;
use crate::hittable_list::{in_range, is_in_range};
use crate::material::Material;
use crate::onb::ONB;
use crate::ray::Ray;
use crate::scalar::{Scalar, ONE_BITS};
use crate::utility::{random_f32_range, ranged, PI_BITS, TWO_BITS};
use crate::vec3::{Point3, Vec3};

verus! {

/// A sphere, with the place of its material and the node of the
/// bounding-volume hierarchy that holds it.
#[derive(Clone, Copy, Debug, PartialEq, Eq, Structural)]
pub struct Sphere {
    pub center: Point3,
    pub radius: Scalar,
    pub material: usize,
    pub node_index: usize,
}

/// The quadratic of a ray and a sphere: `a`, `half_b` and the discriminant.
pub open spec fn quadratic(s: Sphere, ray: Ray) -> (Scalar, Scalar, Scalar) {
    let oc = ray.origin.minus(s.center);
    let a = ray.direction.dotted(ray.direction);
    let half_b = oc.dotted(ray.direction);
    let c = oc.dotted(oc).minus(s.radius.times(s.radius));
    (a, half_b, half_b.times(half_b).minus(a.times(c)))
}

/// The ray parameter at which a sphere is hit: none where the discriminant
/// is below zero; else the smaller root where it lies strictly inside the
/// interval; else the larger where that does.
pub open spec fn chosen_root(s: Sphere, ray: Ray, t_min: Scalar, t_max: Scalar) -> Option<Scalar> {
    let (a, half_b, discriminant) = quadratic(s, ray);
    let root = discriminant.root();
    let near = half_b.negated().minus(root).over(a);
    let far = half_b.negated().plus(root).over(a);
    if discriminant.below(Scalar { bits: 0 }) {
        None
    } else if in_range(near, t_min, t_max) {
        Some(near)
    } else if in_range(far, t_min, t_max) {
        Some(far)
    } else {
        None
    }
}

/// The record of a sphere hit at `t`: the point of the ray there and the
/// normal `(p - c) / r` turned against the ray.  The record is marked
/// spherical: its two surface coordinates are zero, and the caller fills
/// them in from the outward normal.
pub open spec fn sphere_record(s: Sphere, ray: Ray, t: Scalar) -> HitRecord {
    let p = ray.point(t);
    let outward = p.minus(s.center).shrunk(s.radius);
    (HitRecord {
        p,
        normal: outward,
        material: s.material,
        t,
        u: Scalar { bits: 0 },
        v: Scalar { bits: 0 },
        front_face: false,
        spherical: true,
    }).faced(ray.direction, outward)
}

/// The hit of a ray on a sphere strictly inside the interval from `t_min` to
/// `t_max`.
pub open spec fn sphere_hit(s: Sphere, ray: Ray, t_min: Scalar, t_max: Scalar) -> Option<HitRecord> {
    match chosen_root(s, ray, t_min, t_max) {
        Some(t) => Some(sphere_record(s, ray, t)),
        None => None,
    }
}

/// The cosine of the half angle under which a sphere is seen from a point:
/// `sqrt(1 - r² / d²)` at the distance `d` from the centre, and 0 from a
/// point within the sphere, from which it fills a half space.
pub open spec fn cone_cosine(s: Sphere, origin: Point3) -> Scalar {
    let d2 = origin.minus(s.center).norm_squared();
    (Scalar { bits: ONE_BITS }).minus(s.radius.times(s.radius).over(d2)).larger(Scalar { bits: 0 }).root()
}

/// The density with which a sphere is sampled from a point:
/// `1 / (2π (1 - cos θmax))`, one over the solid angle it fills.
pub open spec fn sphere_density(s: Sphere, origin: Point3) -> Scalar {
    let one = Scalar { bits: ONE_BITS };
    let solid_angle = (Scalar { bits: TWO_BITS }).times(Scalar { bits: PI_BITS }).times(
        one.minus(cone_cosine(s, origin)),
    );
    one.over(solid_angle)
}

/// A direction from a point into the cone under which a sphere is seen.
/// `sample` picks the cosine of the angle with the axis between the cone's
/// and 1; `cos_phi` and `sin_phi` are cosine and sine of the angle about the
/// axis.
pub open spec fn sphere_direction(
    s: Sphere,
    origin: Point3,
    sample: Scalar,
    cos_phi: Scalar,
    sin_phi: Scalar,
) -> Vec3 {
    let one = Scalar { bits: ONE_BITS };
    let cos_theta = ranged(sample, cone_cosine(s, origin), one);
    let sin_theta = one.minus(cos_theta.times(cos_theta)).root();
    let local = Vec3 { x: sin_theta.times(cos_phi), y: sin_theta.times(sin_phi), z: cos_theta };
    ONB::around(s.center.minus(origin).unit()).local(local)
}

/// What the record of a sphere hit holds: the ray parameter lies strictly
/// inside the interval, the point is that of the ray there, and the outward
/// normal, from which the surface coordinates are taken, is the point less
/// the centre over the radius, from whichever side the ray came.
pub proof fn lemma_sphere_record(s: Sphere, ray: Ray, t_min: Scalar, t_max: Scalar)
    ensures
        sphere_hit(s, ray, t_min, t_max) matches Some(h) ==> {
            &&& in_range(h.t, t_min, t_max)
            &&& h.p == ray.point(h.t)
            &&& h.spherical
            &&& h.outward() == h.p.minus(s.center).shrunk(s.radius)
            &&& h.material == s.material
        },
{
    match chosen_root(s, ray, t_min, t_max) {
        Some(t) => {
            let p = ray.point(t);
            let outward = p.minus(s.center).shrunk(s.radius);
            let bare = HitRecord {
                p,
                normal: outward,
                material: s.material,
                t,
                u: Scalar { bits: 0 },
                v: Scalar { bits: 0 },
                front_face: false,
                spherical: true,
            };
            crate::hit_record::lemma_outward_kept(bare, ray.direction, outward);
        },
        None => {},
    }
}

/// The surface coordinates of a point of the unit sphere with the
/// longitude `atan2(-z, x)` and the colatitude `acos(-y)`:
/// `((longitude + π) / 2π, colatitude / π)`.
pub open spec fn surface_coordinates(longitude: Scalar, colatitude: Scalar) -> (Scalar, Scalar) {
    let pi = Scalar { bits: PI_BITS };
    (longitude.plus(pi).over((Scalar { bits: TWO_BITS }).times(pi)), colatitude.over(pi))
}

/// The numbers of which the two angles of a point of the unit sphere are
/// taken: `-z` and `x` for the longitude `atan2(-z, x)`, and `-y` for the
/// colatitude `acos(-y)`.
pub fn uv_arguments(unit: &Vec3) -> (r: (Scalar, Scalar, Scalar))
    ensures
        r == (unit.z.negated(), unit.x, unit.y.negated()),
{
    (unit.z.neg(), unit.x, unit.y.neg())
}

/// The surface coordinates of a point of the unit sphere, given its two
/// angles.
pub fn sphere_uv(longitude: Scalar, colatitude: Scalar) -> (r: (Scalar, Scalar))
    ensures
        r == surface_coordinates(longitude, colatitude),
{
    let pi = Scalar::from_bits(PI_BITS);
    let two_pi = Scalar::from_bits(TWO_BITS).mul(&pi);
    (longitude.add(&pi).div(&two_pi), colatitude.div(&pi))
}

impl Sphere {
    pub fn new(center: Point3, radius: Scalar, material: usize, node_index: usize) -> (r: Sphere)
        ensures
            r == (Sphere { center, radius, material, node_index }),
    {
        Sphere { center, radius, material, node_index }
    }

    /// The ray parameter at which the sphere is hit.  A parameter returned
    /// lies strictly inside the interval.
    pub fn select_root(&self, ray: &Ray, t_min: Scalar, t_max: Scalar) -> (r: Option<Scalar>)
        ensures
            r == chosen_root(*self, *ray, t_min, t_max),
            r matches Some(t) ==> in_range(t, t_min, t_max),
    {
        let oc = ray.origin.sub(&self.center);
        let a = ray.direction.dot(&ray.direction);
        let half_b = oc.dot(&ray.direction);
        let c = oc.dot(&oc).sub(&self.radius.mul(&self.radius));
        let discriminant = half_b.mul(&half_b).sub(&a.mul(&c));
        let zero = Scalar::zero();
        if discriminant.lt(&zero) {
            return None;
        }
        let sqrtd = discriminant.sqrt();
        let near = half_b.neg().sub(&sqrtd).div(&a);
        if is_in_range(&near, &t_min, &t_max) {
            return Some(near);
        }
        let far = half_b.neg().add(&sqrtd).div(&a);
        if is_in_range(&far, &t_min, &t_max) {
            return Some(far);
        }
        None
    }

    /// The hit of a ray on the sphere strictly inside the interval from
    /// `t_min` to `t_max`.  The record is marked spherical and its surface
    /// coordinates are zero: they are [`sphere_uv`] of the two angles of the
    /// record's outward normal, which is [`Sphere::surface_point`] of the
    /// hit point.
    pub fn hit(&self, ray: &Ray, t_min: Scalar, t_max: Scalar) -> (r: Option<HitRecord>)
        ensures
            r == sphere_hit(*self, *ray, t_min, t_max),
            r matches Some(h) ==> in_range(h.t, t_min, t_max) && h.material == self.material,
    {
        match self.select_root(ray, t_min, t_max) {
            Some(t) => {
                let p = ray.at(t);
                let outward = p.sub(&self.center).div(&self.radius);
                let mut rec = HitRecord::new(p, outward, self.material, t, Scalar::zero(), Scalar::zero(), false);
                rec.spherical = true;
                rec.set_face_normal(ray, &outward);
                Some(rec)
            },
            None => None,
        }
    }

    /// The point of the unit sphere that stands for the surface point `p`:
    /// `(p - c) / r`.  The surface coordinates of `p` are its longitude and
    /// latitude, `((atan2(-z, x) + π) / 2π, acos(-y) / π)`.
    pub fn surface_point(&self, p: &Point3) -> (r: Vec3)
        ensures
            r == p.minus(self.center).shrunk(self.radius),
    {
        p.sub(&self.center).div(&self.radius)
    }

    /// The smallest box along the axes that holds the sphere: from the
    /// centre less the radius to the centre plus the radius.
    pub fn aabb(&self) -> (r: Aabb)
        ensures
            r.min == self.center.minus(Vec3 { x: self.radius, y: self.radius, z: self.radius }),
            r.max == self.center.plus(Vec3 { x: self.radius, y: self.radius, z: self.radius }),
    {
        let r = Vec3::splat(self.radius);
        Aabb { min: self.center.sub(&r), max: self.center.add(&r) }
    }

    /// The density with which directions towards the sphere are drawn from
    /// `origin`.
    pub fn pdf_value(&self, origin: &Point3) -> (r: Scalar)
        ensures
            r == sphere_density(*self, *origin),
    {
        let one = Scalar::one();
        let cos_max = self.cone_cosine_from(origin);
        let two_pi = Scalar::from_bits(TWO_BITS).mul(&Scalar::from_bits(PI_BITS));
        let solid_angle = two_pi.mul(&one.sub(&cos_max));
        one.div(&solid_angle)
    }

    fn cone_cosine_from(&self, origin: &Point3) -> (r: Scalar)
        ensures
            r == cone_cosine(*self, *origin),
    {
        let d2 = origin.sub(&self.center).length_squared();
        let zero = Scalar::zero();
        Scalar::one().sub(&self.radius.mul(&self.radius).div(&d2)).max(&zero).sqrt()
    }

    /// A direction from `origin` towards the sphere, drawn from the cone
    /// under which it is seen.  `sample` is a uniform number; `cos_phi` and
    /// `sin_phi` are cosine and sine of a uniform angle.
    pub fn random(&self, origin: &Point3, sample: Scalar, cos_phi: Scalar, sin_phi: Scalar) -> (r: Vec3)
        ensures
            r == sphere_direction(*self, *origin, sample, cos_phi, sin_phi),
    {
        let one = Scalar::one();
        let cos_max = self.cone_cosine_from(origin);
        let cos_theta = random_f32_range(sample, cos_max, one);
        let sin_theta = one.sub(&cos_theta.mul(&cos_theta)).sqrt();
        let local = Vec3::new(sin_theta.mul(&cos_phi), sin_theta.mul(&sin_phi), cos_theta);
        let axis = self.center.sub(origin).normalize();
        let mut onb = ONB::new();
        onb.build_from_w(&axis);
        onb.local_vec(&local)
    }

    /// Whether the sphere is a light: whether its material is one of the
    /// table and is a light.
    pub fn is_light(&self, materials: &Vec<Material>) -> (r: bool)
        ensures
            r == (self.material < materials@.len() && materials@[self.material as int].emits()),
    {
        let place = self.material;
        place < materials.len() && materials[place].is_light()
    }

    pub fn bh_node_index(&self) -> (r: usize)
        ensures
            r == self.node_index,
    {
        self.node_index
    }

    pub fn set_bh_node_index(&mut self, index: usize)
        ensures
            *final(self) == (Sphere { node_index: index, ..*old(self) }),
    {
        self.node_index = index;
    }
}

} // verus!
