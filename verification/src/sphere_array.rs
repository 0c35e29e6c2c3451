//! Sphere clusters: many spheres behind one hierarchy of bounding volumes.
use vstd::prelude::*;
use crate::bbox::Aabb;
use crate::hit_record::HitRecord;
use crate::hittable_list::{
    any_emits,
    any_light,
    closest_among,
    closest_candidate,
    closest_member,
    closest_of_all,
    direction_towards,
    mixture,
    mixture_density,
    Hittable,
    LightSamples,
};
use crate::material::Material;
use crate::onb::unit_axis;
use crate::ray::Ray;
use crate::scalar::Scalar;
use crate::sphere::Sphere;
use crate::vec3::{Point3, Vec3};

verus! {

/// A cluster of spheres.
#[derive(Debug)]
pub struct SphereArray {
    pub spheres: Vec<Sphere>,
    pub node_index: usize,
}

/// The boxes of the first `n` spheres.
pub open spec fn sphere_boxes(spheres: Seq<Sphere>) -> Seq<Aabb> {
    Seq::new(
        spheres.len(),
        |i: int|
            Aabb {
                min: spheres[i].center.minus(
                    Vec3 { x: spheres[i].radius, y: spheres[i].radius, z: spheres[i].radius },
                ),
                max: spheres[i].center.plus(
                    Vec3 { x: spheres[i].radius, y: spheres[i].radius, z: spheres[i].radius },
                ),
            },
    )
}

impl SphereArray {
    /// The cluster of the given spheres, which are copied.
    pub fn new(spheres: &Vec<Sphere>) -> (r: SphereArray)
        ensures
            r.spheres@ == spheres@,
            r.node_index == 0,
    {
        let mut copy: Vec<Sphere> = Vec::new();
        let mut i: usize = 0;
        while i < spheres.len()
            invariant
                i <= spheres.len(),
                copy@ == spheres@.subrange(0, i as int),
            decreases spheres.len() - i,
        {
            copy.push(spheres[i]);
            proof {
                assert(spheres@.subrange(0, i as int).push(spheres@[i as int]) == spheres@.subrange(
                    0,
                    i + 1,
                ));
            }
            i += 1;
        }
        proof {
            assert(spheres@.subrange(0, i as int) == spheres@);
        }
        SphereArray { spheres: copy, node_index: 0 }
    }

    /// The smallest box along the axes that holds all spheres: the box of
    /// the first joined with the box of each.
    pub fn aabb(&self) -> (r: Aabb)
        requires
            self.spheres@.len() > 0,
        ensures
            r == Aabb::joined_all(
                sphere_boxes(self.spheres@)[0],
                sphere_boxes(self.spheres@),
                self.spheres@.len() as int,
            ),
    {
        let ghost boxes = sphere_boxes(self.spheres@);
        let mut acc = self.spheres[0].aabb();
        let mut i: usize = 0;
        while i < self.spheres.len()
            invariant
                i <= self.spheres.len(),
                self.spheres@.len() > 0,
                boxes == sphere_boxes(self.spheres@),
                acc == Aabb::joined_all(boxes[0], boxes, i as int),
            decreases self.spheres.len() - i,
        {
            let b = self.spheres[i].aabb();
            assert(b == boxes[i as int]);
            acc = acc.join(&b);
            i += 1;
        }
        acc
    }

    /// The closest hit of a ray on the cluster, among the spheres that the
    /// traversal of the hierarchy names.
    pub fn hit(&self, ray: &Ray, t_min: Scalar, t_max: Scalar, candidates: &Vec<usize>) -> (r: Option<
        HitRecord,
    >)
        ensures
            r == closest_candidate(self.spheres@, candidates@, *ray, t_min, t_max),
    {
        closest_among(&self.spheres, candidates, ray, t_min, t_max)
    }

    /// The closest hit of a ray on the cluster, every sphere asked.
    pub fn hit_all(&self, ray: &Ray, t_min: Scalar, t_max: Scalar) -> (r: Option<HitRecord>)
        ensures
            r == closest_member(self.spheres@, *ray, t_min, t_max),
    {
        closest_of_all(&self.spheres, ray, t_min, t_max)
    }

    /// Whether the cluster is a light: whether one of its spheres is.
    pub fn is_light(&self, materials: &Vec<Material>) -> (r: bool)
        ensures
            r == any_emits(self.spheres@, materials@),
    {
        any_light(&self.spheres, materials)
    }

    /// The density with which `direction` is drawn from `origin` towards
    /// the cluster: the even mixture of the spheres' densities.
    pub fn pdf_value(&self, origin: &Point3, direction: &Vec3) -> (r: Scalar)
        ensures
            r == mixture(self.spheres@, *origin, *direction),
    {
        mixture_density(&self.spheres, origin, direction)
    }

    /// A direction from `origin` towards sphere `member` of the cluster.
    pub fn random(&self, member: usize, origin: &Point3, samples: &LightSamples) -> (r: Vec3)
        ensures
            r == if member < self.spheres@.len() {
                self.spheres@[member as int].towards(*origin, *samples)
            } else {
                unit_axis(0)
            },
    {
        direction_towards(&self.spheres, member, origin, samples)
    }

    pub fn bh_node_index(&self) -> (r: usize)
        ensures
            r == self.node_index,
    {
        self.node_index
    }

    pub fn set_bh_node_index(&mut self, index: usize)
        ensures
            final(self).node_index == index,
            final(self).spheres == old(self).spheres,
    {
        self.node_index = index;
    }
}

} // verus!
