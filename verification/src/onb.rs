//! Orthonormal bases.
//!
//! A basis is built around a direction `w`: a helper axis that is not
//! parallel to `w` is crossed with it to give `v`, and `w` with `v` gives
//! `u`.  The helper is the y axis where `w` runs mostly along x, and the x
//! axis otherwise.
use vstd::prelude::*;
use crate::scalar::{Scalar, ONE_BITS};
use crate::vec3::Vec3;

verus! {

/// The encoding of 0.9: beyond this share of x a direction counts as running
/// along x.
pub const MOSTLY_BITS: u32 = 0x3f66_6666;

/// Three directions at right angles.
#[derive(Clone, Copy, Debug, PartialEq, Eq, Structural)]
pub struct ONB {
    pub u: Vec3,
    pub v: Vec3,
    pub w: Vec3,
}

/// The unit vector along axis `axis` (0 for x, 1 for y, 2 for z).
pub open spec fn unit_axis(axis: int) -> Vec3 {
    Vec3 {
        x: Scalar { bits: if axis == 0 { ONE_BITS } else { 0 } },
        y: Scalar { bits: if axis == 1 { ONE_BITS } else { 0 } },
        z: Scalar { bits: if axis == 2 { ONE_BITS } else { 0 } },
    }
}

/// The unit vector along axis `axis`.
pub fn axis_vector(axis: usize) -> (r: Vec3)
    requires
        axis < 3,
    ensures
        r == unit_axis(axis as int),
{
    let one = Scalar::from_bits(ONE_BITS);
    let zero = Scalar::zero();
    if axis == 0 {
        Vec3::new(one, zero, zero)
    } else if axis == 1 {
        Vec3::new(zero, one, zero)
    } else {
        Vec3::new(zero, zero, one)
    }
}

impl ONB {
    /// The helper axis for a basis around `w`: the y axis where the size of
    /// `w`'s x component is above 0.9, else the x axis.
    pub open spec fn helper(w: Vec3) -> Vec3 {
        if (Scalar { bits: MOSTLY_BITS }).below(w.x.absolute()) {
            unit_axis(1)
        } else {
            unit_axis(0)
        }
    }

    /// The basis around the direction `n`: `w` is `n` at unit length, `v` is
    /// `w` crossed with the helper axis, at unit length, and `u` is `w`
    /// crossed with `v`.
    pub open spec fn around(n: Vec3) -> ONB {
        let w = n.unit();
        let v = w.crossed(ONB::helper(w)).unit();
        ONB { u: w.crossed(v), v, w }
    }

    /// The vector with the coordinates `a` in the basis:
    /// `u · a.x + v · a.y + w · a.z`.
    pub open spec fn local(self, a: Vec3) -> Vec3 {
        self.u.scaled(a.x).plus(self.v.scaled(a.y)).plus(self.w.scaled(a.z))
    }

    /// The basis of three zero vectors, to be built later.
    pub fn new() -> (r: ONB)
        ensures
            r.u == r.v && r.v == r.w,
            r.w.x.bits == 0 && r.w.y.bits == 0 && r.w.z.bits == 0,
    {
        ONB { u: Vec3::new_init(), v: Vec3::new_init(), w: Vec3::new_init() }
    }

    /// The helper axis for a basis around the unit direction `w`.
    pub fn helper_axis(w: &Vec3) -> (r: Vec3)
        ensures
            r == ONB::helper(*w),
    {
        let mostly = Scalar::from_bits(MOSTLY_BITS);
        if w.x.abs().gt(&mostly) {
            axis_vector(1)
        } else {
            axis_vector(0)
        }
    }

    /// The vector with the coordinates `a` in the basis.
    pub fn local_vec(&self, a: &Vec3) -> (r: Vec3)
        ensures
            r == self.local(*a),
    {
        self.u.scale(&a.x).add(&self.v.scale(&a.y)).add(&self.w.scale(&a.z))
    }

    /// Builds the basis around the direction `n`.
    pub fn build_from_w(&mut self, n: &Vec3)
        ensures
            *final(self) == ONB::around(*n),
    {
        self.w = n.normalize();
        let a = ONB::helper_axis(&self.w);
        self.v = self.w.cross(&a).normalize();
        self.u = self.w.cross(&self.v);
    }
}

} // verus!
