//! Triangles with a normal at each vertex.
//!
//! The intersection is Möller and Trumbore's.  With the edges `e1`, `e2` from
//! the first vertex and `s` from it to the ray's origin,
//! `det = e1 · (d × e2)`, `u = (s · (d × e2)) / det`,
//! `v = (d · (s × e1)) / det` and `t = (e2 · (s × e1)) / det`: `u` and `v`
//! are the barycentric coordinates of the point where the ray meets the
//! triangle's plane, `t` the ray parameter there.  The triangle is hit where
//! the determinant is not near zero, the point lies in the triangle and `t`
//! lies strictly inside the interval asked for.  The normal of a hit is the
//! blend of the vertex normals at `(u, v)`, at unit length.
use vstd::prelude::*;
use crate::bbox::Aabb;
use crate::hit_record::HitRecord;
use crate::material::Material;
use crate::ray::Ray;
use crate::scalar::{Scalar, ONE_BITS};
use crate::utility::{EPSILON_BITS, NEAR_ZERO_BITS, TWO_BITS};
use crate::vec3::{Point3, Vec3};

verus! {

/// A triangle: three vertices, a normal at each, the place of its material
/// and the node of the bounding-volume hierarchy that holds it.
#[derive(Clone, Copy, Debug)]
pub struct Triangle {
    pub vertices: (Point3, Point3, Point3),
    pub normals: (Vec3, Vec3, Vec3),
    pub material: usize,
    pub node_index: usize,
}

/// Whether a vector of the given squared length counts as missing.
pub open spec fn near_zero(squared_length: Scalar) -> bool {
    squared_length.below(Scalar { bits: NEAR_ZERO_BITS })
}

/// The normal of the face with the given vertices, at unit length.
pub open spec fn face_normal(vertices: (Point3, Point3, Point3)) -> Vec3 {
    vertices.1.minus(vertices.0).crossed(vertices.2.minus(vertices.0)).unit()
}

/// The normals with each one that is missing replaced by the face normal.
pub open spec fn repaired(vertices: (Point3, Point3, Point3), normals: (Vec3, Vec3, Vec3)) -> (
    Vec3,
    Vec3,
    Vec3,
) {
    let n = face_normal(vertices);
    (
        if near_zero(normals.0.norm_squared()) { n } else { normals.0 },
        if near_zero(normals.1.norm_squared()) { n } else { normals.1 },
        if near_zero(normals.2.norm_squared()) { n } else { normals.2 },
    )
}

/// Whether all three normals point away from the face normal: whether each
/// of their scalar products with it is below zero.
pub open spec fn wound_backwards(vertices: (Point3, Point3, Point3), normals: (Vec3, Vec3, Vec3)) -> bool {
    let zero = Scalar { bits: 0 };
    let n = face_normal(vertices);
    normals.0.dotted(n).below(zero) && normals.1.dotted(n).below(zero) && normals.2.dotted(n).below(
        zero,
    )
}

/// The triangle of the given vertices and normals: missing normals are
/// replaced by the face normal; then, where all three normals point away
/// from the face normal, the second and the third vertex change places, and
/// their normals with them.
pub open spec fn made(
    vertices: (Point3, Point3, Point3),
    normals: (Vec3, Vec3, Vec3),
    material: usize,
    node_index: usize,
) -> Triangle {
    let fixed = repaired(vertices, normals);
    if wound_backwards(vertices, fixed) {
        Triangle {
            vertices: (vertices.0, vertices.2, vertices.1),
            normals: (fixed.0, fixed.2, fixed.1),
            material,
            node_index,
        }
    } else {
        Triangle { vertices, normals: fixed, material, node_index }
    }
}

/// What Möller and Trumbore's test computes of a ray and a triangle.
pub ghost struct Crossing {
    pub det: Scalar,
    pub u: Scalar,
    pub v: Scalar,
    pub t: Scalar,
}

impl Triangle {
    /// Determinant, barycentric coordinates and ray parameter.
    pub open spec fn crossing(self, ray: Ray) -> Crossing {
        let v0 = self.vertices.0;
        let e1 = self.vertices.1.minus(v0);
        let e2 = self.vertices.2.minus(v0);
        let p = ray.direction.crossed(e2);
        let det = e1.dotted(p);
        let inv_det = (Scalar { bits: ONE_BITS }).over(det);
        let s = ray.origin.minus(v0);
        let q = s.crossed(e1);
        Crossing {
            det,
            u: inv_det.times(s.dotted(p)),
            v: inv_det.times(ray.direction.dotted(q)),
            t: inv_det.times(e2.dotted(q)),
        }
    }

    /// Whether the ray hits the triangle strictly inside the interval.
    pub open spec fn crossed_by(self, ray: Ray, t_min: Scalar, t_max: Scalar) -> bool {
        let c = self.crossing(ray);
        let zero = Scalar { bits: 0 };
        let one = Scalar { bits: ONE_BITS };
        &&& !c.det.absolute().below(Scalar { bits: EPSILON_BITS })
        &&& !c.u.below(zero) && !one.below(c.u)
        &&& !c.v.below(zero) && !one.below(c.u.plus(c.v))
        &&& t_min.below(c.t) && c.t.below(t_max)
    }

    /// The blend of the vertex normals at the barycentric coordinates
    /// `(u, v)`: `n0 · (1 - u - v) + n1 · u + n2 · v`.
    pub open spec fn blend(self, u: Scalar, v: Scalar) -> Vec3 {
        let w = (Scalar { bits: ONE_BITS }).minus(u).minus(v);
        self.normals.0.scaled(w).plus(self.normals.1.scaled(u)).plus(self.normals.2.scaled(v))
    }

    /// The record of the hit of a ray.
    pub open spec fn record(self, ray: Ray) -> HitRecord {
        let c = self.crossing(ray);
        let normal = self.blend(c.u, c.v).unit();
        (HitRecord {
            p: ray.point(c.t),
            normal,
            material: self.material,
            t: c.t,
            u: c.u,
            v: c.v,
            front_face: false,
            spherical: false,
        }).faced(ray.direction, normal)
    }

    /// The hit of a ray strictly inside the interval from `t_min` to `t_max`.
    pub open spec fn struck(self, ray: Ray, t_min: Scalar, t_max: Scalar) -> Option<HitRecord> {
        if self.crossed_by(ray, t_min, t_max) {
            Some(self.record(ray))
        } else {
            None
        }
    }

    /// Whether no two vertices coincide: whether each of the three edges is
    /// longer than 0.001.
    pub open spec fn sound(self) -> bool {
        let near = Scalar { bits: NEAR_ZERO_BITS };
        near.below(self.vertices.0.minus(self.vertices.1).norm()) && near.below(
            self.vertices.1.minus(self.vertices.2).norm(),
        ) && near.below(self.vertices.2.minus(self.vertices.0).norm())
    }

    /// The density with which the triangle is sampled from `origin`:
    /// `d² / (cos θ · area)`, taken at the first vertex.
    pub open spec fn density(self, origin: Point3) -> Scalar {
        let e1 = self.vertices.1.minus(self.vertices.0);
        let e2 = self.vertices.2.minus(self.vertices.0);
        let area = e1.crossed(e2).norm().over(Scalar { bits: TWO_BITS });
        let to_vertex = self.vertices.0.minus(origin);
        let distance_squared = to_vertex.norm_squared();
        let zero = Scalar { bits: 0 };
        let cosine = to_vertex.dotted(self.blend(zero, zero).unit()).over(to_vertex.norm());
        distance_squared.over(cosine.times(area))
    }

    /// The point of the triangle that two uniform numbers stand for, evenly
    /// over its area: with `r = sqrt(s1)` the point with the weights
    /// `1 - r`, `r · (1 - s2)` and `r · s2` at the three vertices.
    pub open spec fn point(self, s1: Scalar, s2: Scalar) -> Point3 {
        let one = Scalar { bits: ONE_BITS };
        let r = s1.root();
        let w = one.minus(r);
        let u = r.times(one.minus(s2));
        let v = r.times(s2);
        self.vertices.0.scaled(w).plus(self.vertices.1.scaled(u)).plus(self.vertices.2.scaled(v))
    }

    /// A triangle of the given vertices and normals, repaired: see [`made`].
    pub fn new(
        vertices: (Point3, Point3, Point3),
        normals: (Vec3, Vec3, Vec3),
        material: usize,
        node_index: usize,
    ) -> (r: Triangle)
        ensures
            r == made(vertices, normals, material, node_index),
    {
        let n = vertices.1.sub(&vertices.0).cross(&vertices.2.sub(&vertices.0)).normalize();
        let near = Scalar::from_bits(NEAR_ZERO_BITS);
        let zero = Scalar::zero();
        let n0 = if normals.0.length_squared().lt(&near) { n } else { normals.0 };
        let n1 = if normals.1.length_squared().lt(&near) { n } else { normals.1 };
        let n2 = if normals.2.length_squared().lt(&near) { n } else { normals.2 };
        if n0.dot(&n).lt(&zero) && n1.dot(&n).lt(&zero) && n2.dot(&n).lt(&zero) {
            Triangle {
                vertices: (vertices.0, vertices.2, vertices.1),
                normals: (n0, n2, n1),
                material,
                node_index,
            }
        } else {
            Triangle { vertices, normals: (n0, n1, n2), material, node_index }
        }
    }

    /// The surface coordinates of the point `p` in the plane of the
    /// triangle's first two coordinates: with the edges `e1`, `e2` from the
    /// first vertex and `q` from it to `p`, the weights of `e1` and `e2`
    /// that give `q`.
    pub open spec fn uv_of(self, p: Vec3) -> (Scalar, Scalar) {
        let e1 = self.vertices.1.minus(self.vertices.0);
        let e2 = self.vertices.2.minus(self.vertices.0);
        let q = p.minus(self.vertices.0);
        let denominator = e1.x.times(e2.y).minus(e1.y.times(e2.x));
        (
            q.x.times(e2.y).minus(q.y.times(e2.x)).over(denominator),
            q.y.times(e1.x).minus(q.x.times(e1.y)).over(denominator),
        )
    }

    /// The surface coordinates of the point `p`.
    pub fn get_triangle_uv(&self, p: &Vec3) -> (r: (Scalar, Scalar))
        ensures
            r == self.uv_of(*p),
    {
        let e1 = self.vertices.1.sub(&self.vertices.0);
        let e2 = self.vertices.2.sub(&self.vertices.0);
        let q = p.sub(&self.vertices.0);
        let denominator = e1.x.mul(&e2.y).sub(&e1.y.mul(&e2.x));
        (
            q.x.mul(&e2.y).sub(&q.y.mul(&e2.x)).div(&denominator),
            q.y.mul(&e1.x).sub(&q.x.mul(&e1.y)).div(&denominator),
        )
    }

    /// Whether no two vertices coincide.
    pub fn check_not_degenerate(&self) -> (r: bool)
        ensures
            r == self.sound(),
    {
        let near = Scalar::from_bits(NEAR_ZERO_BITS);
        self.vertices.0.sub(&self.vertices.1).length().gt(&near) && self.vertices.1.sub(
            &self.vertices.2,
        ).length().gt(&near) && self.vertices.2.sub(&self.vertices.0).length().gt(&near)
    }

    fn normal_at(&self, u: &Scalar, v: &Scalar) -> (r: Vec3)
        ensures
            r == self.blend(*u, *v),
    {
        let w = Scalar::one().sub(u).sub(v);
        self.normals.0.scale(&w).add(&self.normals.1.scale(u)).add(&self.normals.2.scale(v))
    }

    /// The hit of a ray on the triangle strictly inside the interval from
    /// `t_min` to `t_max`.  The barycentric coordinates of a hit are not
    /// below zero and their sum is not above one.
    pub fn hit(&self, ray: &Ray, t_min: Scalar, t_max: Scalar) -> (r: Option<HitRecord>)
        ensures
            r == self.struck(*ray, t_min, t_max),
            r matches Some(h) ==> ({
                &&& t_min.below(h.t) && h.t.below(t_max)
                &&& h.material == self.material
                &&& !h.u.nan() ==> h.u.rank() >= 0
                &&& !h.v.nan() ==> h.v.rank() >= 0
                &&& !h.u.plus(h.v).nan() ==> h.u.plus(h.v).rank() <= ONE_BITS
            }),
    {
        let zero = Scalar::zero();
        let one = Scalar::one();
        let eps = Scalar::from_bits(EPSILON_BITS);
        let v0 = self.vertices.0;
        let e1 = self.vertices.1.sub(&v0);
        let e2 = self.vertices.2.sub(&v0);
        let p = ray.direction.cross(&e2);
        let det = e1.dot(&p);
        if det.abs().lt(&eps) {
            return None;
        }
        let inv_det = one.div(&det);
        let s = ray.origin.sub(&v0);
        let u = inv_det.mul(&s.dot(&p));
        if u.lt(&zero) || u.gt(&one) {
            return None;
        }
        let q = s.cross(&e1);
        let v = inv_det.mul(&ray.direction.dot(&q));
        if v.lt(&zero) || u.add(&v).gt(&one) {
            return None;
        }
        let t = inv_det.mul(&e2.dot(&q));
        if t.gt(&t_min) && t.lt(&t_max) {
            let normal = self.normal_at(&u, &v).normalize();
            let mut rec = HitRecord::new(ray.at(t), normal, self.material, t, u, v, false);
            rec.set_face_normal(ray, &normal);
            Some(rec)
        } else {
            None
        }
    }

    /// The smallest box along the axes that holds the three vertices.
    pub fn aabb(&self) -> (r: Aabb)
        ensures
            r.min == self.vertices.0.lower(self.vertices.1).lower(self.vertices.2),
            r.max == self.vertices.0.upper(self.vertices.1).upper(self.vertices.2),
    {
        let lo = self.vertices.0.min(&self.vertices.1).min(&self.vertices.2);
        let hi = self.vertices.0.max(&self.vertices.1).max(&self.vertices.2);
        Aabb { min: lo, max: hi }
    }

    /// The density with which directions towards the triangle are drawn
    /// from `origin`.
    pub fn pdf_value(&self, origin: &Point3) -> (r: Scalar)
        ensures
            r == self.density(*origin),
    {
        let e1 = self.vertices.1.sub(&self.vertices.0);
        let e2 = self.vertices.2.sub(&self.vertices.0);
        let area = e1.cross(&e2).length().div(&Scalar::from_bits(TWO_BITS));
        let to_vertex = self.vertices.0.sub(origin);
        let distance_squared = to_vertex.length_squared();
        let zero = Scalar::zero();
        let normal = self.normal_at(&zero, &zero).normalize();
        let cosine = to_vertex.dot(&normal).div(&to_vertex.length());
        distance_squared.div(&cosine.mul(&area))
    }

    /// The direction from `origin` to the point of the triangle that two
    /// uniform numbers stand for.
    pub fn random(&self, origin: &Point3, s1: Scalar, s2: Scalar) -> (r: Vec3)
        ensures
            r == self.point(s1, s2).minus(*origin),
    {
        let one = Scalar::one();
        let r = s1.sqrt();
        let w = one.sub(&r);
        let u = r.mul(&one.sub(&s2));
        let v = r.mul(&s2);
        self.vertices.0.scale(&w).add(&self.vertices.1.scale(&u)).add(&self.vertices.2.scale(&v)).sub(
            origin,
        )
    }

    /// Whether the triangle is a light: whether its material is one of the
    /// table and is a light.
    pub fn is_light(&self, materials: &Vec<Material>) -> (r: bool)
        ensures
            r == (self.material < materials@.len() && materials@[self.material as int].emits()),
    {
        let place = self.material;
        place < materials.len() && materials[place].is_light()
    }

    pub fn bh_node_index(&self) -> (r: usize)
        ensures
            r == self.node_index,
    {
        self.node_index
    }

    pub fn set_bh_node_index(&mut self, index: usize)
        ensures
            *final(self) == (Triangle { node_index: index, ..*old(self) }),
    {
        self.node_index = index;
    }
}

} // verus!
