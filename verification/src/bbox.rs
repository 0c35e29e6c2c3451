//! Boxes: bounds along the axes, and the box of six rectangles.
use vstd::prelude::*;
use crate::hit_record::HitRecord;
use crate::hittable_list::{
    any_emits,
    any_light,
    closest_among,
    closest_candidate,
    closest_member,
    closest_of_all,
    direction_towards,
    mixture,
    mixture_density,
    Hittable,
    LightSamples,
};
use crate::material::Material;
use crate::onb::unit_axis;
use crate::ray::Ray;
use crate::rectangle::{Rectangle, XYRectangle, XZRectangle, YZRectangle};
use crate::scalar::{Scalar, INFINITY_BITS};
use crate::utility::TWO_BITS;
use crate::vec3::{Point3, Vec3};

verus! {

/// A box along the axes, from its smallest corner to its largest.
#[derive(Clone, Copy, Debug, PartialEq, Eq, Structural)]
pub struct Aabb {
    pub min: Point3,
    pub max: Point3,
}

impl Aabb {
    /// The box that holds nothing: from positive infinity to negative
    /// infinity on each axis.
    pub open spec fn nothing() -> Aabb {
        Aabb {
            min: Vec3 {
                x: Scalar { bits: INFINITY_BITS },
                y: Scalar { bits: INFINITY_BITS },
                z: Scalar { bits: INFINITY_BITS },
            },
            max: Vec3 {
                x: Scalar { bits: 0xff80_0000u32 },
                y: Scalar { bits: 0xff80_0000u32 },
                z: Scalar { bits: 0xff80_0000u32 },
            },
        }
    }

    /// The smallest box that holds both.
    pub open spec fn joined(self, other: Aabb) -> Aabb {
        Aabb { min: self.min.lower(other.min), max: self.max.upper(other.max) }
    }

    /// The smallest box that holds `start` and the first `n` of `boxes`.
    pub open spec fn joined_all(start: Aabb, boxes: Seq<Aabb>, n: int) -> Aabb
        decreases n,
    {
        if n <= 0 {
            start
        } else {
            Aabb::joined_all(start, boxes, n - 1).joined(boxes[n - 1])
        }
    }

    /// Whether `self` holds `other` on every axis.
    pub open spec fn holds(self, other: Aabb) -> bool {
        &&& self.min.x.rank() <= other.min.x.rank() && other.max.x.rank() <= self.max.x.rank()
        &&& self.min.y.rank() <= other.min.y.rank() && other.max.y.rank() <= self.max.y.rank()
        &&& self.min.z.rank() <= other.min.z.rank() && other.max.z.rank() <= self.max.z.rank()
    }

    /// No bound is not a number.
    pub open spec fn numbers(self) -> bool {
        !self.min.any_nan() && !self.max.any_nan()
    }

    pub fn with_bounds(min: Point3, max: Point3) -> (r: Aabb)
        ensures
            r == (Aabb { min, max }),
    {
        Aabb { min, max }
    }

    /// The box that holds nothing.
    pub fn empty() -> (r: Aabb)
        ensures
            r == Aabb::nothing(),
    {
        let hi = Scalar::infinity();
        let lo = Scalar::neg_infinity();
        Aabb { min: Vec3::splat(hi), max: Vec3::splat(lo) }
    }

    /// The smallest box that holds both.
    pub fn join(&self, other: &Aabb) -> (r: Aabb)
        ensures
            r == self.joined(*other),
    {
        Aabb { min: self.min.min(&other.min), max: self.max.max(&other.max) }
    }

    /// The smallest box that holds `start` and all of `boxes`.
    pub fn join_all(start: Aabb, boxes: &Vec<Aabb>) -> (r: Aabb)
        ensures
            r == Aabb::joined_all(start, boxes@, boxes@.len() as int),
    {
        let mut acc = start;
        let mut i: usize = 0;
        while i < boxes.len()
            invariant
                i <= boxes.len(),
                acc == Aabb::joined_all(start, boxes@, i as int),
            decreases boxes.len() - i,
        {
            acc = acc.join(&boxes[i]);
            i += 1;
        }
        acc
    }
}

/// The join of two boxes holds both, where their bounds are numbers.
pub proof fn lemma_joined_holds(a: Aabb, b: Aabb)
    requires
        a.numbers(),
        b.numbers(),
    ensures
        a.joined(b).numbers(),
        a.joined(b).holds(a),
        a.joined(b).holds(b),
{
}

/// A box that holds a second holds what the second holds.
pub proof fn lemma_holds_transitive(a: Aabb, b: Aabb, c: Aabb)
    requires
        a.holds(b),
        b.holds(c),
    ensures
        a.holds(c),
{
}

/// The join of many boxes holds each of them, where their bounds are
/// numbers.
pub proof fn lemma_joined_all_holds(start: Aabb, boxes: Seq<Aabb>, n: int, k: int)
    requires
        start.numbers(),
        forall|i: int| 0 <= i < boxes.len() ==> (#[trigger] boxes[i]).numbers(),
        0 <= k < n <= boxes.len(),
    ensures
        Aabb::joined_all(start, boxes, n).numbers(),
        Aabb::joined_all(start, boxes, n).holds(start),
        Aabb::joined_all(start, boxes, n).holds(boxes[k]),
    decreases n,
{
    lemma_joined_all_numbers(start, boxes, n - 1);
    let before = Aabb::joined_all(start, boxes, n - 1);
    assert(boxes[n - 1].numbers());
    lemma_joined_holds(before, boxes[n - 1]);
    lemma_holds_transitive(before.joined(boxes[n - 1]), before, start);
    if k < n - 1 {
        lemma_joined_all_holds(start, boxes, n - 1, k);
        lemma_holds_transitive(before.joined(boxes[n - 1]), before, boxes[k]);
    }
}

/// The join of many boxes holds the first, and its bounds are numbers where
/// theirs are.
pub proof fn lemma_joined_all_numbers(start: Aabb, boxes: Seq<Aabb>, n: int)
    requires
        start.numbers(),
        forall|i: int| 0 <= i < boxes.len() ==> (#[trigger] boxes[i]).numbers(),
        0 <= n <= boxes.len(),
    ensures
        Aabb::joined_all(start, boxes, n).numbers(),
        Aabb::joined_all(start, boxes, n).holds(start),
    decreases n,
{
    if n > 0 {
        lemma_joined_all_numbers(start, boxes, n - 1);
        let before = Aabb::joined_all(start, boxes, n - 1);
        assert(boxes[n - 1].numbers());
        lemma_joined_holds(before, boxes[n - 1]);
        lemma_holds_transitive(before.joined(boxes[n - 1]), before, start);
    }
}

/// A box of six rectangles, two across each axis.
#[derive(Debug)]
pub struct BBox {
    pub faces: Vec<Rectangle>,
    pub node_index: usize,
}

/// The six faces of the box from the corner `lo` to the corner `hi`, all of
/// one material: the two across z, the nearer first, then the two across y
/// and the two across x.
pub open spec fn faces_of(lo: Point3, hi: Point3, material: usize) -> Seq<Rectangle> {
    seq![
        Rectangle::XYRectangle(
            XYRectangle { x0: lo.x, x1: hi.x, y0: lo.y, y1: hi.y, k: lo.z, material, node_index: 0 },
        ),
        Rectangle::XYRectangle(
            XYRectangle { x0: lo.x, x1: hi.x, y0: lo.y, y1: hi.y, k: hi.z, material, node_index: 0 },
        ),
        Rectangle::XZRectangle(
            XZRectangle { x0: lo.x, x1: hi.x, z0: lo.z, z1: hi.z, k: lo.y, material, node_index: 0 },
        ),
        Rectangle::XZRectangle(
            XZRectangle { x0: lo.x, x1: hi.x, z0: lo.z, z1: hi.z, k: hi.y, material, node_index: 0 },
        ),
        Rectangle::YZRectangle(
            YZRectangle { y0: lo.y, y1: hi.y, z0: lo.z, z1: hi.z, k: lo.x, material, node_index: 0 },
        ),
        Rectangle::YZRectangle(
            YZRectangle { y0: lo.y, y1: hi.y, z0: lo.z, z1: hi.z, k: hi.x, material, node_index: 0 },
        ),
    ]
}

/// The corners of the box about `center` with the given dimensions: the
/// centre less, and plus, half of each dimension.
pub open spec fn corners(center: Point3, dimensions: Vec3) -> (Point3, Point3) {
    let half = dimensions.shrunk(Scalar { bits: TWO_BITS });
    (center.minus(half), center.plus(half))
}

/// The boxes of the faces.
pub open spec fn face_boxes(faces: Seq<Rectangle>) -> Seq<Aabb> {
    Seq::new(faces.len(), |i: int| faces[i].flat().bounds())
}

impl BBox {
    /// The box about `center` with the given dimensions, of one material.
    pub fn new(center: Point3, dimensions: Vec3, material: usize) -> (r: BBox)
        ensures
            r.faces@ == faces_of(corners(center, dimensions).0, corners(center, dimensions).1, material),
            r.node_index == 0,
    {
        let half = dimensions.div(&Scalar::from_bits(TWO_BITS));
        let lo = center.sub(&half);
        let hi = center.add(&half);
        let mut faces: Vec<Rectangle> = Vec::with_capacity(6);
        faces.push(Rectangle::XYRectangle(XYRectangle::new(lo.x, hi.x, lo.y, hi.y, lo.z, material, 0)));
        faces.push(Rectangle::XYRectangle(XYRectangle::new(lo.x, hi.x, lo.y, hi.y, hi.z, material, 0)));
        faces.push(Rectangle::XZRectangle(XZRectangle::new(lo.x, hi.x, lo.z, hi.z, lo.y, material, 0)));
        faces.push(Rectangle::XZRectangle(XZRectangle::new(lo.x, hi.x, lo.z, hi.z, hi.y, material, 0)));
        faces.push(Rectangle::YZRectangle(YZRectangle::new(lo.y, hi.y, lo.z, hi.z, lo.x, material, 0)));
        faces.push(Rectangle::YZRectangle(YZRectangle::new(lo.y, hi.y, lo.z, hi.z, hi.x, material, 0)));
        proof {
            assert(faces@ == faces_of(lo, hi, material));
        }
        BBox { faces, node_index: 0 }
    }

    /// The smallest box along the axes that holds all faces; the box that
    /// holds nothing where there is no face.
    pub fn aabb(&self) -> (r: Aabb)
        ensures
            r == Aabb::joined_all(Aabb::nothing(), face_boxes(self.faces@), self.faces@.len() as int),
    {
        let ghost boxes = face_boxes(self.faces@);
        let mut acc = Aabb::empty();
        let mut i: usize = 0;
        while i < self.faces.len()
            invariant
                i <= self.faces.len(),
                boxes == face_boxes(self.faces@),
                acc == Aabb::joined_all(Aabb::nothing(), boxes, i as int),
            decreases self.faces.len() - i,
        {
            let b = self.faces[i].aabb();
            assert(b == boxes[i as int]);
            acc = acc.join(&b);
            i += 1;
        }
        acc
    }

    /// The closest hit of a ray on the box, among the faces that the
    /// traversal of the hierarchy names.
    pub fn hit(&self, ray: &Ray, t_min: Scalar, t_max: Scalar, candidates: &Vec<usize>) -> (r: Option<
        HitRecord,
    >)
        ensures
            r == closest_candidate(self.faces@, candidates@, *ray, t_min, t_max),
    {
        closest_among(&self.faces, candidates, ray, t_min, t_max)
    }

    /// The closest hit of a ray on the box, every face asked.
    pub fn hit_all(&self, ray: &Ray, t_min: Scalar, t_max: Scalar) -> (r: Option<HitRecord>)
        ensures
            r == closest_member(self.faces@, *ray, t_min, t_max),
    {
        closest_of_all(&self.faces, ray, t_min, t_max)
    }

    /// Whether the box is a light: whether one of its faces is.
    pub fn is_light(&self, materials: &Vec<Material>) -> (r: bool)
        ensures
            r == any_emits(self.faces@, materials@),
    {
        any_light(&self.faces, materials)
    }

    /// The density with which `direction` is drawn from `origin` towards
    /// the box: the even mixture of the faces' densities.
    pub fn pdf_value(&self, origin: &Point3, direction: &Vec3) -> (r: Scalar)
        ensures
            r == mixture(self.faces@, *origin, *direction),
    {
        mixture_density(&self.faces, origin, direction)
    }

    /// A direction from `origin` towards face `member` of the box.
    pub fn random(&self, member: usize, origin: &Point3, samples: &LightSamples) -> (r: Vec3)
        ensures
            r == if member < self.faces@.len() {
                self.faces@[member as int].towards(*origin, *samples)
            } else {
                unit_axis(0)
            },
    {
        direction_towards(&self.faces, member, origin, samples)
    }

    pub fn bh_node_index(&self) -> (r: usize)
        ensures
            r == self.node_index,
    {
        self.node_index
    }

    pub fn set_bh_node_index(&mut self, index: usize)
        ensures
            final(self).node_index == index,
            final(self).faces == old(self).faces,
    {
        self.node_index = index;
    }
}

} // verus!
