//! Triples of binary32 numbers: points, directions and colours.
use vstd::prelude::*;
use vstd::string::StringExecFns;
use crate::scalar::Scalar;

verus! {

/// Three binary32 numbers.
#[derive(Clone, Copy, Debug, PartialEq, Eq, Structural)]
pub struct Vec3 {
    pub x: Scalar,
    pub y: Scalar,
    pub z: Scalar,
}

/// A position.
pub type Point3 = Vec3;

/// An RGB colour, one number per channel.
pub type Color = Vec3;

impl Vec3 {
    /// The component with index `i`, counted from `x`.
    pub open spec fn component(self, i: int) -> Scalar {
        if i == 0 {
            self.x
        } else if i == 1 {
            self.y
        } else {
            self.z
        }
    }

    /// No component is infinite or not a number.
    pub open spec fn finite(self) -> bool {
        self.x.finite() && self.y.finite() && self.z.finite()
    }

    /// Some component is not a number.
    pub open spec fn any_nan(self) -> bool {
        self.x.nan() || self.y.nan() || self.z.nan()
    }

    /// The largest component that is a number; not a number only where all
    /// three are not.
    pub open spec fn largest(self) -> Scalar {
        self.x.larger(self.y.larger(self.z))
    }

    /// The smaller of each pair of components, as [`Scalar::min`] picks it.
    pub open spec fn lower(self, other: Vec3) -> Vec3 {
        Vec3 {
            x: self.x.smaller(other.x),
            y: self.y.smaller(other.y),
            z: self.z.smaller(other.z),
        }
    }

    /// The larger of each pair of components, as [`Scalar::max`] picks it.
    pub open spec fn upper(self, other: Vec3) -> Vec3 {
        Vec3 {
            x: self.x.larger(other.x),
            y: self.y.larger(other.y),
            z: self.z.larger(other.z),
        }
    }

    /// A vector as a text, given the texts of its three components as the
    /// machine writes them: `Vec3(1, 2, 3)`.
    pub fn text(x: &str, y: &str, z: &str) -> (r: String)
        ensures
            r@ == "Vec3("@ + x@ + ", "@ + y@ + ", "@ + z@ + ")"@,
    {
        let mut text = String::from_str("Vec3(");
        text.append(x);
        text.append(", ");
        text.append(y);
        text.append(", ");
        text.append(z);
        text.append(")");
        text
    }

    pub fn new(x: Scalar, y: Scalar, z: Scalar) -> (r: Vec3)
        ensures
            r == (Vec3 { x, y, z }),
    {
        Vec3 { x, y, z }
    }

    /// The vector of three positive zeros.
    pub fn new_init() -> (r: Vec3)
        ensures
            r.x.bits == 0 && r.y.bits == 0 && r.z.bits == 0,
    {
        Vec3 { x: Scalar::zero(), y: Scalar::zero(), z: Scalar::zero() }
    }

    pub fn new_from(v: &Vec3) -> (r: Vec3)
        ensures
            r == *v,
    {
        Vec3 { x: v.x, y: v.y, z: v.z }
    }

    /// The vector whose three components are `v`.
    pub fn splat(v: Scalar) -> (r: Vec3)
        ensures
            r == (Vec3 { x: v, y: v, z: v }),
    {
        Vec3 { x: v, y: v, z: v }
    }

    pub fn x(&self) -> (r: Scalar)
        ensures
            r == self.x,
    {
        self.x
    }

    pub fn y(&self) -> (r: Scalar)
        ensures
            r == self.y,
    {
        self.y
    }

    pub fn z(&self) -> (r: Scalar)
        ensures
            r == self.z,
    {
        self.z
    }

    /// The component with index `i`.
    pub fn index(&self, i: usize) -> (r: Scalar)
        requires
            i < 3,
        ensures
            r == self.component(i as int),
    {
        if i == 0 {
            self.x
        } else if i == 1 {
            self.y
        } else {
            self.z
        }
    }

    /// Replaces the component with index `i`.
    pub fn set(&mut self, i: usize, value: Scalar)
        requires
            i < 3,
        ensures
            final(self).component(i as int) == value,
            forall|j: int| 0 <= j < 3 && j != i ==> final(self).component(j) == old(self).component(j),
    {
        if i == 0 {
            self.x = value;
        } else if i == 1 {
            self.y = value;
        } else {
            self.z = value;
        }
    }

    /// The vector with every sign bit flipped.
    pub fn neg(&self) -> (r: Vec3)
        ensures
            r == self.negated(),
    {
        Vec3 { x: self.x.neg(), y: self.y.neg(), z: self.z.neg() }
    }

    /// The smaller of each pair of components.
    pub fn min(&self, other: &Vec3) -> (r: Vec3)
        ensures
            r == self.lower(*other),
    {
        Vec3 { x: self.x.min(&other.x), y: self.y.min(&other.y), z: self.z.min(&other.z) }
    }

    /// The larger of each pair of components.
    pub fn max(&self, other: &Vec3) -> (r: Vec3)
        ensures
            r == self.upper(*other),
    {
        Vec3 { x: self.x.max(&other.x), y: self.y.max(&other.y), z: self.z.max(&other.z) }
    }

    /// The largest of the three components.
    pub fn max_element(&self) -> (r: Scalar)
        ensures
            r == self.largest(),
            !self.any_nan() ==> r.rank() >= self.x.rank() && r.rank() >= self.y.rank() && r.rank()
                >= self.z.rank(),
            r == self.x || r == self.y || r == self.z,
    {
        let yz = self.y.max(&self.z);
        self.x.max(&yz)
    }

    /// Whether all three components are finite numbers.
    pub fn is_finite(&self) -> (r: bool)
        ensures
            r == self.finite(),
    {
        self.x.is_finite() && self.y.is_finite() && self.z.is_finite()
    }

    /// Whether some component is not a number.
    pub fn is_nan(&self) -> (r: bool)
        ensures
            r == self.any_nan(),
    {
        self.x.is_nan() || self.y.is_nan() || self.z.is_nan()
    }
}

impl Vec3 {
    /// The sum, component by component.
    pub open spec fn plus(self, other: Vec3) -> Vec3 {
        Vec3 { x: self.x.plus(other.x), y: self.y.plus(other.y), z: self.z.plus(other.z) }
    }

    /// The difference, component by component.
    pub open spec fn minus(self, other: Vec3) -> Vec3 {
        Vec3 { x: self.x.minus(other.x), y: self.y.minus(other.y), z: self.z.minus(other.z) }
    }

    /// The product, component by component.
    pub open spec fn times(self, other: Vec3) -> Vec3 {
        Vec3 { x: self.x.times(other.x), y: self.y.times(other.y), z: self.z.times(other.z) }
    }

    /// Each component times `k`.
    pub open spec fn scaled(self, k: Scalar) -> Vec3 {
        Vec3 { x: self.x.times(k), y: self.y.times(k), z: self.z.times(k) }
    }

    /// Each component over `k`.
    pub open spec fn shrunk(self, k: Scalar) -> Vec3 {
        Vec3 { x: self.x.over(k), y: self.y.over(k), z: self.z.over(k) }
    }

    /// Each component with its sign bit flipped.
    pub open spec fn negated(self) -> Vec3 {
        Vec3 { x: self.x.negated(), y: self.y.negated(), z: self.z.negated() }
    }

    /// The scalar product: `(x·x' + y·y') + z·z'`, each step rounded.
    pub open spec fn dotted(self, other: Vec3) -> Scalar {
        self.x.times(other.x).plus(self.y.times(other.y)).plus(self.z.times(other.z))
    }

    /// The vector product, each step rounded.
    pub open spec fn crossed(self, other: Vec3) -> Vec3 {
        Vec3 {
            x: self.y.times(other.z).minus(self.z.times(other.y)),
            y: self.z.times(other.x).minus(self.x.times(other.z)),
            z: self.x.times(other.y).minus(self.y.times(other.x)),
        }
    }

    /// The squared length.
    pub open spec fn norm_squared(self) -> Scalar {
        self.dotted(self)
    }

    /// The length.
    pub open spec fn norm(self) -> Scalar {
        self.norm_squared().root()
    }

    /// The vector scaled to unit length: each component over the length.
    pub open spec fn unit(self) -> Vec3 {
        self.shrunk(self.norm())
    }

    /// The vector scaled to unit length: each component times the inverse of
    /// the length.
    pub open spec fn unit_by_inverse(self) -> Vec3 {
        self.scaled((Scalar { bits: crate::scalar::ONE_BITS }).over(self.norm()))
    }

    /// The blend `self · (1 - s) + other · s`.
    pub open spec fn blended(self, other: Vec3, s: Scalar) -> Vec3 {
        self.scaled((Scalar { bits: crate::scalar::ONE_BITS }).minus(s)).plus(other.scaled(s))
    }

    /// The sum, component by component.
    pub fn add(&self, other: &Vec3) -> (r: Vec3)
        ensures
            r == self.plus(*other),
    {
        Vec3 { x: self.x.add(&other.x), y: self.y.add(&other.y), z: self.z.add(&other.z) }
    }

    /// The difference, component by component.
    pub fn sub(&self, other: &Vec3) -> (r: Vec3)
        ensures
            r == self.minus(*other),
    {
        Vec3 { x: self.x.sub(&other.x), y: self.y.sub(&other.y), z: self.z.sub(&other.z) }
    }

    /// The product, component by component.
    pub fn mul(&self, other: &Vec3) -> (r: Vec3)
        ensures
            r == self.times(*other),
    {
        Vec3 { x: self.x.mul(&other.x), y: self.y.mul(&other.y), z: self.z.mul(&other.z) }
    }

    /// Each component times `k`.
    pub fn scale(&self, k: &Scalar) -> (r: Vec3)
        ensures
            r == self.scaled(*k),
    {
        Vec3 { x: self.x.mul(k), y: self.y.mul(k), z: self.z.mul(k) }
    }

    /// Each component over `k`.
    pub fn div(&self, k: &Scalar) -> (r: Vec3)
        ensures
            r == self.shrunk(*k),
    {
        Vec3 { x: self.x.div(k), y: self.y.div(k), z: self.z.div(k) }
    }

    /// The scalar product.
    pub fn dot(&self, other: &Vec3) -> (r: Scalar)
        ensures
            r == self.dotted(*other),
    {
        let xx = self.x.mul(&other.x);
        let yy = self.y.mul(&other.y);
        let zz = self.z.mul(&other.z);
        xx.add(&yy).add(&zz)
    }

    /// The vector product.
    pub fn cross(&self, other: &Vec3) -> (r: Vec3)
        ensures
            r == self.crossed(*other),
    {
        Vec3 {
            x: self.y.mul(&other.z).sub(&self.z.mul(&other.y)),
            y: self.z.mul(&other.x).sub(&self.x.mul(&other.z)),
            z: self.x.mul(&other.y).sub(&self.y.mul(&other.x)),
        }
    }

    /// The squared length.
    pub fn length_squared(&self) -> (r: Scalar)
        ensures
            r == self.norm_squared(),
    {
        self.dot(self)
    }

    /// The length.
    pub fn length(&self) -> (r: Scalar)
        ensures
            r == self.norm(),
    {
        self.length_squared().sqrt()
    }

    /// The vector scaled to unit length, by the inverse of its length.
    pub fn unit_vector(&self) -> (r: Vec3)
        ensures
            r == self.unit_by_inverse(),
    {
        let k = Scalar::one().div(&self.length());
        self.scale(&k)
    }

    /// The vector scaled to unit length.
    pub fn normalize(&self) -> (r: Vec3)
        ensures
            r == self.unit(),
    {
        let len = self.length();
        self.div(&len)
    }

    /// The blend `self · (1 - s) + other · s`.
    pub fn lerp(&self, other: &Vec3, s: &Scalar) -> (r: Vec3)
        ensures
            r == self.blended(*other, *s),
    {
        let rest = Scalar::one().sub(s);
        self.scale(&rest).add(&other.scale(s))
    }
}

/// The scalar product with the negation of a vector mirrors the scalar
/// product with the vector: it is the same number with the opposite sign.
pub proof fn lemma_dotted_negated(d: Vec3, n: Vec3)
    requires
        !d.dotted(n).nan(),
    ensures
        crate::arith::mirrors(d.dotted(n), d.dotted(n.negated())),
{
    let m = n.negated();
    let xx = d.x.times(n.x);
    let yy = d.y.times(n.y);
    let zz = d.z.times(n.z);
    crate::arith::lemma_plus_numbers(xx.plus(yy), zz);
    crate::arith::lemma_plus_numbers(xx, yy);
    crate::arith::lemma_times_numbers(d.x, n.x);
    crate::arith::lemma_times_numbers(d.y, n.y);
    crate::arith::lemma_times_numbers(d.z, n.z);
    crate::arith::lemma_times_mirror(d.x, n.x, m.x);
    crate::arith::lemma_times_mirror(d.y, n.y, m.y);
    crate::arith::lemma_times_mirror(d.z, n.z, m.z);
    crate::arith::lemma_plus_mirror(xx, yy, d.x.times(m.x), d.y.times(m.y));
    crate::arith::lemma_plus_mirror(xx.plus(yy), zz, d.x.times(m.x).plus(d.y.times(m.y)), d.z.times(m.z));
}

} // verus!
