//! Objects moved to another place.
use vstd::prelude::*;
use crate::bbox::Aabb;
use crate::hit_record::HitRecord;
use crate::hittable_list::{Hittable, LightSamples};
use crate::ray::Ray;
use crate::scalar::Scalar;
use crate::vec3::{Point3, Vec3};

verus! {

/// An object moved by an offset.
#[derive(Clone, Copy, Debug)]
pub struct Translate<T> {
    pub ptr: T,
    pub offset: Vec3,
    pub node_index: usize,
}

impl<T: Hittable> Translate<T> {
    /// The ray as the object sees it where it stood: moved back by the
    /// offset.
    pub open spec fn moved(self, ray: Ray) -> Ray {
        Ray { origin: ray.origin.minus(self.offset), direction: ray.direction }
    }

    /// A hit of the object where it stood, moved to where it stands: the
    /// point is moved by the offset, and the normal faces the ray.
    pub open spec fn placed(self, ray: Ray, h: HitRecord) -> HitRecord {
        HitRecord {
            p: h.p.plus(self.offset),
            normal: h.faced(ray.direction, h.normal).normal,
            ..h
        }
    }

    pub fn new(ptr: T, offset: Vec3, node_index: usize) -> (r: Translate<T>)
        ensures
            r.ptr == ptr,
            r.offset == offset,
            r.node_index == node_index,
    {
        Translate { ptr, offset, node_index }
    }

    /// The box of the moved object, given the box of the object where it
    /// stood: both corners moved by the offset.
    pub fn aabb(&self, inner: &Aabb) -> (r: Aabb)
        ensures
            r.min == inner.min.plus(self.offset),
            r.max == inner.max.plus(self.offset),
    {
        Aabb { min: inner.min.add(&self.offset), max: inner.max.add(&self.offset) }
    }

    pub fn bh_node_index(&self) -> (r: usize)
        ensures
            r == self.node_index,
    {
        self.node_index
    }

    pub fn set_bh_node_index(&mut self, index: usize)
        ensures
            final(self).node_index == index,
            final(self).ptr == old(self).ptr,
            final(self).offset == old(self).offset,
    {
        self.node_index = index;
    }
}

impl<T: Hittable> Hittable for Translate<T> {
    open spec fn answer(&self, ray: Ray, t_min: Scalar, t_max: Scalar) -> Option<HitRecord> {
        match self.ptr.answer(self.moved(ray), t_min, t_max) {
            Some(h) => Some(self.placed(ray, h)),
            None => None,
        }
    }

    open spec fn material_place(&self) -> usize {
        self.ptr.material_place()
    }

    open spec fn density(&self, origin: Point3, direction: Vec3) -> Scalar {
        self.ptr.density(origin.minus(self.offset), direction)
    }

    open spec fn towards(&self, origin: Point3, samples: LightSamples) -> Vec3 {
        self.ptr.towards(origin.minus(self.offset), samples)
    }

    fn hit(&self, ray: &Ray, t_min: Scalar, t_max: Scalar) -> (r: Option<HitRecord>) {
        let moved_r = Ray::new(ray.origin.sub(&self.offset), ray.direction);
        match self.ptr.hit(&moved_r, t_min, t_max) {
            Some(h) => {
                let mut rec = h;
                rec.set_face_normal(&moved_r, &h.normal);
                Some(HitRecord { p: h.p.add(&self.offset), normal: rec.normal, ..h })
            },
            None => None,
        }
    }

    fn material(&self) -> (r: usize) {
        self.ptr.material()
    }

    fn pdf_value(&self, origin: &Point3, direction: &Vec3) -> (r: Scalar) {
        self.ptr.pdf_value(&origin.sub(&self.offset), direction)
    }

    fn random(&self, origin: &Point3, samples: &LightSamples) -> (r: Vec3) {
        self.ptr.random(&origin.sub(&self.offset), samples)
    }
}

} // verus!
