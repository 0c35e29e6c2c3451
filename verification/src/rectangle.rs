//! Axis-aligned rectangles, one kind for each coordinate plane.
//!
//! A rectangle lies in the plane where one coordinate is `k` and spans an
//! interval in each of the other two.  A ray meets the plane at the
//! parameter `t = (k - origin) / direction`, taken along the plane's axis;
//! the rectangle is hit where `t` lies in the interval asked for and the
//! point there lies within both spans.  The surface coordinates run from 0
//! to 1 across each span.
//!
//! A rectangle has two sides and no inside: the side that a ray comes from
//! is its outside.  So every ray that crosses the plane hits the front, and
//! the normal of the record is the unit vector along the axis that points
//! against the ray.
use vstd::prelude::*;
use crate::bbox::Aabb;
use crate::hit_record::HitRecord;
use crate::material::Material;
use crate::onb::{axis_vector, unit_axis};
use crate::ray::Ray;
use crate::scalar::{Scalar, INFINITY_BITS};
use crate::hittable_list::{in_range, is_in_range};
use crate::utility::{random_f32_range, ranged, EPSILON_BITS, NEAR_ZERO_BITS, TWO_BITS};
use crate::vec3::{Point3, Vec3};

verus! {

/// Whether `x` is outside the closed interval from `lo` to `hi`: below the
/// one or above the other.  What is not a number is not outside.
pub open spec fn outside(x: Scalar, lo: Scalar, hi: Scalar) -> bool {
    x.below(lo) || hi.below(x)
}

/// Whether `x` is outside the closed interval from `lo` to `hi`.
pub fn is_outside(x: &Scalar, lo: &Scalar, hi: &Scalar) -> (r: bool)
    ensures
        r == outside(*x, *lo, *hi),
        !r && !x.nan() && !lo.nan() && !hi.nan() ==> lo.at_most(*x) && x.at_most(*hi),
{
    x.lt(lo) || x.gt(hi)
}

/// A rectangle across the axis `axis` at the coordinate `k`, which spans
/// `a0..a1` along the axis `first` and `b0..b1` along the axis `second`.
pub ghost struct Flat {
    pub axis: int,
    pub first: int,
    pub second: int,
    pub a0: Scalar,
    pub a1: Scalar,
    pub b0: Scalar,
    pub b1: Scalar,
    pub k: Scalar,
    pub material: usize,
}

impl Flat {
    /// The parameter at which a ray meets the plane.
    pub open spec fn parameter(self, origin: Point3, direction: Vec3) -> Scalar {
        self.k.minus(origin.component(self.axis)).over(direction.component(self.axis))
    }

    /// Whether the point `p` lies within both spans.
    pub open spec fn spans(self, p: Point3) -> bool {
        !outside(p.component(self.first), self.a0, self.a1) && !outside(
            p.component(self.second),
            self.b0,
            self.b1,
        )
    }

    /// The record of a hit at `t`.
    pub open spec fn record(self, ray: Ray, t: Scalar) -> HitRecord {
        let p = ray.point(t);
        let n = unit_axis(self.axis);
        let zero = Scalar { bits: 0 };
        let product = ray.direction.dotted(n);
        HitRecord {
            p,
            normal: if product.below(zero) { n } else { n.negated() },
            material: self.material,
            t,
            u: p.component(self.first).minus(self.a0).over(self.a1.minus(self.a0)),
            v: p.component(self.second).minus(self.b0).over(self.b1.minus(self.b0)),
            front_face: product.below(zero) || zero.below(product),
            spherical: false,
        }
    }

    /// The hit of a ray strictly inside the interval from `t_min` to
    /// `t_max`.
    pub open spec fn hit(self, ray: Ray, t_min: Scalar, t_max: Scalar) -> Option<HitRecord> {
        let t = self.parameter(ray.origin, ray.direction);
        if !in_range(t, t_min, t_max) || !self.spans(ray.point(t)) {
            None
        } else {
            Some(self.record(ray, t))
        }
    }

    /// The area, the product of the two spans.
    pub open spec fn area(self) -> Scalar {
        self.a1.minus(self.a0).times(self.b1.minus(self.b0))
    }

    /// The density with which the direction `v` is drawn from `origin`
    /// towards the rectangle: zero where the direction misses it, else
    /// `d² / (cos θ · area)` with the distance `d` to the point that is met
    /// and the angle `θ` between the direction and the plane's axis.
    pub open spec fn density(self, origin: Point3, v: Vec3) -> Scalar {
        let t = self.parameter(origin, v);
        let near = Scalar { bits: NEAR_ZERO_BITS };
        let far = Scalar { bits: INFINITY_BITS };
        if !in_range(t, near, far) || !self.spans(origin.plus(v.scaled(t))) {
            Scalar { bits: 0 }
        } else {
            let distance_squared = t.times(t).times(v.norm_squared());
            let ratio = v.dotted(unit_axis(self.axis)).over(v.norm());
            let cosine = ratio.absolute();
            distance_squared.over(cosine.times(self.area()))
        }
    }

    /// The point of the rectangle that two uniform numbers stand for.
    pub open spec fn point(self, s1: Scalar, s2: Scalar) -> Point3 {
        let a = ranged(s1, self.a0, self.a1);
        let b = ranged(s2, self.b0, self.b1);
        if self.axis == 2 {
            Vec3 { x: a, y: b, z: self.k }
        } else if self.axis == 1 {
            Vec3 { x: a, y: self.k, z: b }
        } else {
            Vec3 { x: self.k, y: a, z: b }
        }
    }

    /// The box along the axes that holds the rectangle, with 0.0001 to
    /// either side of its plane.
    pub open spec fn bounds(self) -> Aabb {
        let eps = Scalar { bits: EPSILON_BITS };
        let lo = self.k.minus(eps);
        let hi = self.k.plus(eps);
        if self.axis == 2 {
            Aabb {
                min: Vec3 { x: self.a0, y: self.b0, z: lo },
                max: Vec3 { x: self.a1, y: self.b1, z: hi },
            }
        } else if self.axis == 1 {
            Aabb {
                min: Vec3 { x: self.a0, y: lo, z: self.b0 },
                max: Vec3 { x: self.a1, y: hi, z: self.b1 },
            }
        } else {
            Aabb {
                min: Vec3 { x: lo, y: self.a0, z: self.b0 },
                max: Vec3 { x: hi, y: self.a1, z: self.b1 },
            }
        }
    }
}

/// A rectangle in a plane of constant z.
#[derive(Clone, Copy, Debug, PartialEq, Eq, Structural)]
pub struct XYRectangle {
    pub x0: Scalar,
    pub x1: Scalar,
    pub y0: Scalar,
    pub y1: Scalar,
    pub k: Scalar,
    pub material: usize,
    pub node_index: usize,
}

/// A rectangle in a plane of constant y.
#[derive(Clone, Copy, Debug, PartialEq, Eq, Structural)]
pub struct XZRectangle {
    pub x0: Scalar,
    pub x1: Scalar,
    pub z0: Scalar,
    pub z1: Scalar,
    pub k: Scalar,
    pub material: usize,
    pub node_index: usize,
}

/// A rectangle in a plane of constant x.
#[derive(Clone, Copy, Debug, PartialEq, Eq, Structural)]
pub struct YZRectangle {
    pub y0: Scalar,
    pub y1: Scalar,
    pub z0: Scalar,
    pub z1: Scalar,
    pub k: Scalar,
    pub material: usize,
    pub node_index: usize,
}

/// A rectangle of one of the three kinds.
#[derive(Clone, Copy, Debug, PartialEq, Eq, Structural)]
pub enum Rectangle {
    XZRectangle(XZRectangle),
    YZRectangle(YZRectangle),
    XYRectangle(XYRectangle),
}

/// The numbers of a rectangle, and the axes they belong to.
struct Plane {
    axis: usize,
    first: usize,
    second: usize,
    a0: Scalar,
    a1: Scalar,
    b0: Scalar,
    b1: Scalar,
    k: Scalar,
    material: usize,
}

impl Plane {
    spec fn flat(self) -> Flat {
        Flat {
            axis: self.axis as int,
            first: self.first as int,
            second: self.second as int,
            a0: self.a0,
            a1: self.a1,
            b0: self.b0,
            b1: self.b1,
            k: self.k,
            material: self.material,
        }
    }

    spec fn wf(self) -> bool {
        self.axis < 3 && self.first < 3 && self.second < 3
    }

    fn parameter(&self, origin: &Point3, direction: &Vec3) -> (t: Scalar)
        requires
            self.wf(),
        ensures
            t == self.flat().parameter(*origin, *direction),
    {
        self.k.sub(&origin.index(self.axis)).div(&direction.index(self.axis))
    }

    fn spans(&self, p: &Point3) -> (r: bool)
        requires
            self.wf(),
        ensures
            r == self.flat().spans(*p),
            r && !p.component(self.first as int).nan() && !self.a0.nan() && !self.a1.nan()
                ==> self.a0.at_most(p.component(self.first as int)) && p.component(
                self.first as int,
            ).at_most(self.a1),
            r && !p.component(self.second as int).nan() && !self.b0.nan() && !self.b1.nan()
                ==> self.b0.at_most(p.component(self.second as int)) && p.component(
                self.second as int,
            ).at_most(self.b1),
    {
        !is_outside(&p.index(self.first), &self.a0, &self.a1) && !is_outside(
            &p.index(self.second),
            &self.b0,
            &self.b1,
        )
    }

    fn hit(&self, ray: &Ray, t_min: Scalar, t_max: Scalar) -> (r: Option<HitRecord>)
        requires
            self.wf(),
        ensures
            r == self.flat().hit(*ray, t_min, t_max),
            r matches Some(h) ==> ({
                let a = h.p.component(self.first as int);
                let b = h.p.component(self.second as int);
                &&& in_range(h.t, t_min, t_max)
                &&& h.material == self.material
                &&& !a.nan() && !self.a0.nan() && !self.a1.nan() ==> self.a0.at_most(a) && a.at_most(
                    self.a1,
                )
                &&& !b.nan() && !self.b0.nan() && !self.b1.nan() ==> self.b0.at_most(b) && b.at_most(
                    self.b1,
                )
            }),
    {
        let t = self.parameter(&ray.origin, &ray.direction);
        if !is_in_range(&t, &t_min, &t_max) {
            return None;
        }
        let p = ray.at(t);
        if !self.spans(&p) {
            return None;
        }
        let n = axis_vector(self.axis);
        let zero = Scalar::zero();
        let product = ray.direction.dot(&n);
        let u = p.index(self.first).sub(&self.a0).div(&self.a1.sub(&self.a0));
        let v = p.index(self.second).sub(&self.b0).div(&self.b1.sub(&self.b0));
        let front = product.lt(&zero);
        Some(
            HitRecord {
                p,
                normal: if front { n } else { n.neg() },
                material: self.material,
                t,
                u,
                v,
                front_face: front || product.gt(&zero),
                spherical: false,
            },
        )
    }

    fn density(&self, origin: &Point3, v: &Vec3) -> (r: Scalar)
        requires
            self.wf(),
        ensures
            r == self.flat().density(*origin, *v),
    {
        let t = self.parameter(origin, v);
        let near = Scalar::from_bits(NEAR_ZERO_BITS);
        let far = Scalar::infinity();
        if !is_in_range(&t, &near, &far) {
            return Scalar::zero();
        }
        let p = origin.add(&v.scale(&t));
        if !self.spans(&p) {
            return Scalar::zero();
        }
        let area = self.a1.sub(&self.a0).mul(&self.b1.sub(&self.b0));
        let distance_squared = t.mul(&t).mul(&v.length_squared());
        let n = axis_vector(self.axis);
        let cosine = v.dot(&n).div(&v.length()).abs();
        distance_squared.div(&cosine.mul(&area))
    }

    fn point(&self, s1: Scalar, s2: Scalar) -> (r: Point3)
        requires
            self.wf(),
        ensures
            r == self.flat().point(s1, s2),
    {
        let a = random_f32_range(s1, self.a0, self.a1);
        let b = random_f32_range(s2, self.b0, self.b1);
        if self.axis == 2 {
            Vec3::new(a, b, self.k)
        } else if self.axis == 1 {
            Vec3::new(a, self.k, b)
        } else {
            Vec3::new(self.k, a, b)
        }
    }

    fn bounds(&self) -> (r: Aabb)
        requires
            self.wf(),
        ensures
            r == self.flat().bounds(),
    {
        let eps = Scalar::from_bits(EPSILON_BITS);
        let lo = self.k.sub(&eps);
        let hi = self.k.add(&eps);
        if self.axis == 2 {
            Aabb { min: Vec3::new(self.a0, self.b0, lo), max: Vec3::new(self.a1, self.b1, hi) }
        } else if self.axis == 1 {
            Aabb { min: Vec3::new(self.a0, lo, self.b0), max: Vec3::new(self.a1, hi, self.b1) }
        } else {
            Aabb { min: Vec3::new(lo, self.a0, self.b0), max: Vec3::new(hi, self.a1, self.b1) }
        }
    }
}

impl XYRectangle {
    /// The rectangle as a plane across z that spans x and y.
    pub open spec fn flat(self) -> Flat {
        Flat {
            axis: 2,
            first: 0,
            second: 1,
            a0: self.x0,
            a1: self.x1,
            b0: self.y0,
            b1: self.y1,
            k: self.k,
            material: self.material,
        }
    }

    fn plane(&self) -> (r: Plane)
        ensures
            r.wf(),
            r.flat() == self.flat(),
    {
        Plane {
            axis: 2,
            first: 0,
            second: 1,
            a0: self.x0,
            a1: self.x1,
            b0: self.y0,
            b1: self.y1,
            k: self.k,
            material: self.material,
        }
    }

    pub fn new(
        x0: Scalar,
        x1: Scalar,
        y0: Scalar,
        y1: Scalar,
        k: Scalar,
        material: usize,
        node_index: usize,
    ) -> (r: XYRectangle)
        ensures
            r == (XYRectangle { x0, x1, y0, y1, k, material, node_index }),
    {
        XYRectangle { x0, x1, y0, y1, k, material, node_index }
    }

    /// The rectangle about `position` that is `width` wide along x and
    /// `height` along y: from the position less half of each to the
    /// position plus half of each.
    pub fn around(position: &Point3, width: Scalar, height: Scalar, material: usize, node_index: usize) -> (r:
        XYRectangle)
        ensures
            r == (XYRectangle {
                x0: position.x.minus(width.over(Scalar { bits: TWO_BITS })),
                x1: position.x.plus(width.over(Scalar { bits: TWO_BITS })),
                y0: position.y.minus(height.over(Scalar { bits: TWO_BITS })),
                y1: position.y.plus(height.over(Scalar { bits: TWO_BITS })),
                k: position.z,
                material,
                node_index,
            }),
    {
        let two = Scalar::from_bits(TWO_BITS);
        let w = width.div(&two);
        let h = height.div(&two);
        XYRectangle {
            x0: position.x.sub(&w),
            x1: position.x.add(&w),
            y0: position.y.sub(&h),
            y1: position.y.add(&h),
            k: position.z,
            material,
            node_index,
        }
    }

    /// The hit of a ray on the rectangle within the interval from `t_min` to
    /// `t_max`.  The point of a hit lies within the rectangle, and its
    /// parameter strictly inside the interval.
    pub fn hit(&self, ray: &Ray, t_min: Scalar, t_max: Scalar) -> (r: Option<HitRecord>)
        ensures
            r == self.flat().hit(*ray, t_min, t_max),
            r matches Some(h) ==> ({
                &&& in_range(h.t, t_min, t_max)
                &&& h.material == self.material
                &&& !h.p.x.nan() && !self.x0.nan() && !self.x1.nan() ==> self.x0.at_most(h.p.x)
                    && h.p.x.at_most(self.x1)
                &&& !h.p.y.nan() && !self.y0.nan() && !self.y1.nan() ==> self.y0.at_most(h.p.y)
                    && h.p.y.at_most(self.y1)
            }),
    {
        self.plane().hit(ray, t_min, t_max)
    }

    /// The box along the axes that holds the rectangle.
    pub fn aabb(&self) -> (r: Aabb)
        ensures
            r == self.flat().bounds(),
    {
        self.plane().bounds()
    }

    /// The density with which the direction `v` is drawn from `origin`
    /// towards the rectangle.
    pub fn pdf_value(&self, origin: &Point3, v: &Vec3) -> (r: Scalar)
        ensures
            r == self.flat().density(*origin, *v),
    {
        self.plane().density(origin, v)
    }

    /// The direction from `origin` to the point of the rectangle that two
    /// uniform numbers stand for.
    pub fn random(&self, origin: &Point3, s1: Scalar, s2: Scalar) -> (r: Vec3)
        ensures
            r == self.flat().point(s1, s2).minus(*origin),
    {
        self.plane().point(s1, s2).sub(origin)
    }
}

impl XZRectangle {
    /// The rectangle as a plane across y that spans x and z.
    pub open spec fn flat(self) -> Flat {
        Flat {
            axis: 1,
            first: 0,
            second: 2,
            a0: self.x0,
            a1: self.x1,
            b0: self.z0,
            b1: self.z1,
            k: self.k,
            material: self.material,
        }
    }

    fn plane(&self) -> (r: Plane)
        ensures
            r.wf(),
            r.flat() == self.flat(),
    {
        Plane {
            axis: 1,
            first: 0,
            second: 2,
            a0: self.x0,
            a1: self.x1,
            b0: self.z0,
            b1: self.z1,
            k: self.k,
            material: self.material,
        }
    }

    pub fn new(
        x0: Scalar,
        x1: Scalar,
        z0: Scalar,
        z1: Scalar,
        k: Scalar,
        material: usize,
        node_index: usize,
    ) -> (r: XZRectangle)
        ensures
            r == (XZRectangle { x0, x1, z0, z1, k, material, node_index }),
    {
        XZRectangle { x0, x1, z0, z1, k, material, node_index }
    }

    /// The rectangle about `position` that is `width` wide along x and
    /// `height` along z: from the position less half of each to the
    /// position plus half of each.
    pub fn around(position: &Point3, width: Scalar, height: Scalar, material: usize, node_index: usize) -> (r:
        XZRectangle)
        ensures
            r == (XZRectangle {
                x0: position.x.minus(width.over(Scalar { bits: TWO_BITS })),
                x1: position.x.plus(width.over(Scalar { bits: TWO_BITS })),
                z0: position.z.minus(height.over(Scalar { bits: TWO_BITS })),
                z1: position.z.plus(height.over(Scalar { bits: TWO_BITS })),
                k: position.y,
                material,
                node_index,
            }),
    {
        let two = Scalar::from_bits(TWO_BITS);
        let w = width.div(&two);
        let h = height.div(&two);
        XZRectangle {
            x0: position.x.sub(&w),
            x1: position.x.add(&w),
            z0: position.z.sub(&h),
            z1: position.z.add(&h),
            k: position.y,
            material,
            node_index,
        }
    }

    /// The hit of a ray on the rectangle within the interval from `t_min` to
    /// `t_max`.  The point of a hit lies within the rectangle, and its
    /// parameter strictly inside the interval.
    pub fn hit(&self, ray: &Ray, t_min: Scalar, t_max: Scalar) -> (r: Option<HitRecord>)
        ensures
            r == self.flat().hit(*ray, t_min, t_max),
            r matches Some(h) ==> ({
                &&& in_range(h.t, t_min, t_max)
                &&& h.material == self.material
                &&& !h.p.x.nan() && !self.x0.nan() && !self.x1.nan() ==> self.x0.at_most(h.p.x)
                    && h.p.x.at_most(self.x1)
                &&& !h.p.z.nan() && !self.z0.nan() && !self.z1.nan() ==> self.z0.at_most(h.p.z)
                    && h.p.z.at_most(self.z1)
            }),
    {
        self.plane().hit(ray, t_min, t_max)
    }

    /// The box along the axes that holds the rectangle.
    pub fn aabb(&self) -> (r: Aabb)
        ensures
            r == self.flat().bounds(),
    {
        self.plane().bounds()
    }

    /// The density with which the direction `v` is drawn from `origin`
    /// towards the rectangle.
    pub fn pdf_value(&self, origin: &Point3, v: &Vec3) -> (r: Scalar)
        ensures
            r == self.flat().density(*origin, *v),
    {
        self.plane().density(origin, v)
    }

    /// The direction from `origin` to the point of the rectangle that two
    /// uniform numbers stand for.
    pub fn random(&self, origin: &Point3, s1: Scalar, s2: Scalar) -> (r: Vec3)
        ensures
            r == self.flat().point(s1, s2).minus(*origin),
    {
        self.plane().point(s1, s2).sub(origin)
    }
}

impl YZRectangle {
    /// The rectangle as a plane across x that spans y and z.
    pub open spec fn flat(self) -> Flat {
        Flat {
            axis: 0,
            first: 1,
            second: 2,
            a0: self.y0,
            a1: self.y1,
            b0: self.z0,
            b1: self.z1,
            k: self.k,
            material: self.material,
        }
    }

    fn plane(&self) -> (r: Plane)
        ensures
            r.wf(),
            r.flat() == self.flat(),
    {
        Plane {
            axis: 0,
            first: 1,
            second: 2,
            a0: self.y0,
            a1: self.y1,
            b0: self.z0,
            b1: self.z1,
            k: self.k,
            material: self.material,
        }
    }

    pub fn new(
        y0: Scalar,
        y1: Scalar,
        z0: Scalar,
        z1: Scalar,
        k: Scalar,
        material: usize,
        node_index: usize,
    ) -> (r: YZRectangle)
        ensures
            r == (YZRectangle { y0, y1, z0, z1, k, material, node_index }),
    {
        YZRectangle { y0, y1, z0, z1, k, material, node_index }
    }

    /// The rectangle about `position` that is `width` wide along y and
    /// `height` along z: from the position less half of each to the
    /// position plus half of each.
    pub fn around(position: &Point3, width: Scalar, height: Scalar, material: usize, node_index: usize) -> (r:
        YZRectangle)
        ensures
            r == (YZRectangle {
                y0: position.y.minus(width.over(Scalar { bits: TWO_BITS })),
                y1: position.y.plus(width.over(Scalar { bits: TWO_BITS })),
                z0: position.z.minus(height.over(Scalar { bits: TWO_BITS })),
                z1: position.z.plus(height.over(Scalar { bits: TWO_BITS })),
                k: position.x,
                material,
                node_index,
            }),
    {
        let two = Scalar::from_bits(TWO_BITS);
        let w = width.div(&two);
        let h = height.div(&two);
        YZRectangle {
            y0: position.y.sub(&w),
            y1: position.y.add(&w),
            z0: position.z.sub(&h),
            z1: position.z.add(&h),
            k: position.x,
            material,
            node_index,
        }
    }

    /// The hit of a ray on the rectangle within the interval from `t_min` to
    /// `t_max`.  The point of a hit lies within the rectangle, and its
    /// parameter strictly inside the interval.
    pub fn hit(&self, ray: &Ray, t_min: Scalar, t_max: Scalar) -> (r: Option<HitRecord>)
        ensures
            r == self.flat().hit(*ray, t_min, t_max),
            r matches Some(h) ==> ({
                &&& in_range(h.t, t_min, t_max)
                &&& h.material == self.material
                &&& !h.p.y.nan() && !self.y0.nan() && !self.y1.nan() ==> self.y0.at_most(h.p.y)
                    && h.p.y.at_most(self.y1)
                &&& !h.p.z.nan() && !self.z0.nan() && !self.z1.nan() ==> self.z0.at_most(h.p.z)
                    && h.p.z.at_most(self.z1)
            }),
    {
        self.plane().hit(ray, t_min, t_max)
    }

    /// The box along the axes that holds the rectangle.
    pub fn aabb(&self) -> (r: Aabb)
        ensures
            r == self.flat().bounds(),
    {
        self.plane().bounds()
    }

    /// The density with which the direction `v` is drawn from `origin`
    /// towards the rectangle.
    pub fn pdf_value(&self, origin: &Point3, v: &Vec3) -> (r: Scalar)
        ensures
            r == self.flat().density(*origin, *v),
    {
        self.plane().density(origin, v)
    }

    /// The direction from `origin` to the point of the rectangle that two
    /// uniform numbers stand for.
    pub fn random(&self, origin: &Point3, s1: Scalar, s2: Scalar) -> (r: Vec3)
        ensures
            r == self.flat().point(s1, s2).minus(*origin),
    {
        self.plane().point(s1, s2).sub(origin)
    }
}

impl Rectangle {
    /// The rectangle as a plane.
    pub open spec fn flat(self) -> Flat {
        match self {
            Rectangle::YZRectangle(q) => q.flat(),
            Rectangle::XZRectangle(q) => q.flat(),
            Rectangle::XYRectangle(q) => q.flat(),
        }
    }

    /// The node of the bounding-volume hierarchy that holds the rectangle.
    pub open spec fn node_of(self) -> usize {
        match self {
            Rectangle::YZRectangle(r) => r.node_index,
            Rectangle::XZRectangle(r) => r.node_index,
            Rectangle::XYRectangle(r) => r.node_index,
        }
    }

    /// The hit of a ray on the rectangle within the interval from `t_min` to
    /// `t_max`.
    pub fn hit(&self, ray: &Ray, t_min: Scalar, t_max: Scalar) -> (r: Option<HitRecord>)
        ensures
            r == self.flat().hit(*ray, t_min, t_max),
            r matches Some(h) ==> in_range(h.t, t_min, t_max) && h.material == self.flat().material,
    {
        match self {
            Rectangle::YZRectangle(q) => q.hit(ray, t_min, t_max),
            Rectangle::XZRectangle(q) => q.hit(ray, t_min, t_max),
            Rectangle::XYRectangle(q) => q.hit(ray, t_min, t_max),
        }
    }

    /// The box along the axes that holds the rectangle.
    pub fn aabb(&self) -> (r: Aabb)
        ensures
            r == self.flat().bounds(),
    {
        match self {
            Rectangle::YZRectangle(q) => q.aabb(),
            Rectangle::XZRectangle(q) => q.aabb(),
            Rectangle::XYRectangle(q) => q.aabb(),
        }
    }

    /// The density with which the direction `v` is drawn from `origin`
    /// towards the rectangle.
    pub fn pdf_value(&self, origin: &Point3, v: &Vec3) -> (r: Scalar)
        ensures
            r == self.flat().density(*origin, *v),
    {
        match self {
            Rectangle::YZRectangle(q) => q.pdf_value(origin, v),
            Rectangle::XZRectangle(q) => q.pdf_value(origin, v),
            Rectangle::XYRectangle(q) => q.pdf_value(origin, v),
        }
    }

    /// The direction from `origin` to the point of the rectangle that two
    /// uniform numbers stand for.
    pub fn random(&self, origin: &Point3, s1: Scalar, s2: Scalar) -> (r: Vec3)
        ensures
            r == self.flat().point(s1, s2).minus(*origin),
    {
        match self {
            Rectangle::YZRectangle(q) => q.random(origin, s1, s2),
            Rectangle::XZRectangle(q) => q.random(origin, s1, s2),
            Rectangle::XYRectangle(q) => q.random(origin, s1, s2),
        }
    }

    /// The place of the rectangle's material.
    pub fn material(&self) -> (r: usize)
        ensures
            r == self.flat().material,
    {
        match self {
            Rectangle::YZRectangle(q) => q.material,
            Rectangle::XZRectangle(q) => q.material,
            Rectangle::XYRectangle(q) => q.material,
        }
    }

    /// Whether the rectangle is a light: whether its material is one of the
    /// table and is a light.
    pub fn is_light(&self, materials: &Vec<Material>) -> (r: bool)
        ensures
            r == (self.flat().material < materials@.len() && materials@[self.flat().material as int].emits()),
    {
        let place = self.material();
        place < materials.len() && materials[place].is_light()
    }

    pub fn bh_node_index(&self) -> (r: usize)
        ensures
            r == self.node_of(),
    {
        match self {
            Rectangle::YZRectangle(q) => q.node_index,
            Rectangle::XZRectangle(q) => q.node_index,
            Rectangle::XYRectangle(q) => q.node_index,
        }
    }

    pub fn set_bh_node_index(&mut self, index: usize)
        ensures
            final(self).node_of() == index,
            final(self).flat() == old(self).flat(),
    {
        match self {
            Rectangle::YZRectangle(q) => {
                q.node_index = index;
            },
            Rectangle::XZRectangle(q) => {
                q.node_index = index;
            },
            Rectangle::XYRectangle(q) => {
                q.node_index = index;
            },
        }
    }
}

/// The normal of a hit on a rectangle points against the ray: its scalar
/// product with the ray's direction is not above zero, wherever the product
/// of the direction with the plane's axis is a number.
pub proof fn lemma_flat_normal(flat: Flat, ray: Ray, t: Scalar)
    requires
        !ray.direction.dotted(unit_axis(flat.axis)).nan(),
    ensures
        !ray.direction.dotted(flat.record(ray, t).normal).nan(),
        ray.direction.dotted(flat.record(ray, t).normal).rank() <= 0,
{
    crate::vec3::lemma_dotted_negated(ray.direction, unit_axis(flat.axis));
}

} // verus!
