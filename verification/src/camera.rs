//! The camera: a thin lens that looks from a point at a point.
//!
//! The camera stands at `lookfrom` and looks at `lookat`; `w` points away
//! from what it looks at, `u` to its right and `v` up.  The viewport lies at
//! the focus distance, `2 · tan(vfov / 2)` times that distance high and the
//! aspect ratio times as wide.  A ray starts on the lens, a disk of half the
//! aperture about the camera, and aims at a point of the viewport.
use vstd::prelude::*;
use crate::mesh::RADIANS_PER_DEGREE_BITS;
use crate::ray::Ray;
use crate::scalar::{Scalar, ONE_BITS};
use crate::utility::TWO_BITS;
use crate::vec3::{Point3, Vec3};

verus! {

/// A camera, ready to give rays.
#[derive(Clone, Copy, Debug, PartialEq, Eq, Structural)]
pub struct Camera {
    pub origin: Point3,
    pub lower_left_corner: Point3,
    pub horizontal: Vec3,
    pub vertical: Vec3,
    pub u: Vec3,
    pub v: Vec3,
    pub lens_radius: Scalar,
}

/// The encoding of 40, the field of view of the built-in camera in degrees.
pub const BUILT_IN_VFOV_BITS: u32 = 0x4220_0000;

/// The encodings of 13 and 3: the built-in camera looks from (13, 2, 3).
pub const BUILT_IN_FROM_X_BITS: u32 = 0x4150_0000;

pub const BUILT_IN_FROM_Z_BITS: u32 = 0x4040_0000;

/// The encoding of 0.1, the aperture of the built-in camera.
pub const BUILT_IN_APERTURE_BITS: u32 = 0x3dcc_cccd;

/// The encoding of 10, the distance of the built-in camera's focus.
pub const BUILT_IN_FOCUS_BITS: u32 = 0x4120_0000;

impl Camera {
    /// Half the vertical field of view in radians, for a field of view
    /// given in degrees; its tangent is half the height of the viewport at
    /// the distance 1.
    pub open spec fn half_angle_of(vfov: Scalar) -> Scalar {
        vfov.times(Scalar { bits: RADIANS_PER_DEGREE_BITS }).over(Scalar { bits: TWO_BITS })
    }

    /// The camera that looks from `lookfrom` at `lookat` with `vup` upwards.
    /// `h` is the tangent of half the vertical field of view.
    pub open spec fn looking(
        lookfrom: Vec3,
        lookat: Vec3,
        vup: Vec3,
        h: Scalar,
        aspect_ratio: Scalar,
        aperture: Scalar,
        focus_dist: Scalar,
    ) -> Camera {
        let two = Scalar { bits: TWO_BITS };
        let viewport_height = two.times(h);
        let viewport_width = aspect_ratio.times(viewport_height);
        let w = lookfrom.minus(lookat).unit();
        let u = vup.crossed(w).unit();
        let v = w.crossed(u);
        let horizontal = u.scaled(focus_dist).scaled(viewport_width);
        let vertical = v.scaled(focus_dist).scaled(viewport_height);
        Camera {
            origin: lookfrom,
            lower_left_corner: lookfrom.minus(horizontal.shrunk(two)).minus(vertical.shrunk(two)).minus(
                w.scaled(focus_dist),
            ),
            horizontal,
            vertical,
            u,
            v,
            lens_radius: aperture.over(two),
        }
    }

    /// The ray through the point `(s, t)` of the viewport, both counted from
    /// 0 to 1 from its lower left corner, that starts at the point `lens`
    /// of the unit disk, scaled to the lens.
    pub open spec fn ray(self, s: Scalar, t: Scalar, lens: Vec3) -> Ray {
        let rd = lens.scaled(self.lens_radius);
        let offset = self.u.scaled(rd.x).plus(self.v.scaled(rd.y));
        Ray {
            origin: self.origin.plus(offset),
            direction: self.lower_left_corner.plus(self.horizontal.scaled(s)).plus(
                self.vertical.scaled(t),
            ).minus(self.origin).minus(offset),
        }
    }

    /// Half the vertical field of view in radians.
    pub fn half_angle(vfov: Scalar) -> (r: Scalar)
        ensures
            r == Camera::half_angle_of(vfov),
    {
        vfov.mul(&Scalar::from_bits(RADIANS_PER_DEGREE_BITS)).div(&Scalar::from_bits(TWO_BITS))
    }

    /// The camera of the built-in scene: it looks from (13, 2, 3) at the
    /// origin, with y upwards, an aperture of 0.1 and its focus at the
    /// distance 10.  `h` is the tangent of half its field of view.
    pub open spec fn built_in_looking(h: Scalar, aspect_ratio: Scalar) -> Camera {
        Camera::looking(
            Vec3 {
                x: Scalar { bits: BUILT_IN_FROM_X_BITS },
                y: Scalar { bits: TWO_BITS },
                z: Scalar { bits: BUILT_IN_FROM_Z_BITS },
            },
            Vec3 { x: Scalar { bits: 0 }, y: Scalar { bits: 0 }, z: Scalar { bits: 0 } },
            Vec3 { x: Scalar { bits: 0 }, y: Scalar { bits: ONE_BITS }, z: Scalar { bits: 0 } },
            h,
            aspect_ratio,
            Scalar { bits: BUILT_IN_APERTURE_BITS },
            Scalar { bits: BUILT_IN_FOCUS_BITS },
        )
    }

    /// Half the field of view of the built-in camera, which is 40 degrees,
    /// in radians.
    pub fn built_in_half_angle() -> (r: Scalar)
        ensures
            r == Camera::half_angle_of(Scalar { bits: BUILT_IN_VFOV_BITS }),
    {
        Camera::half_angle(Scalar::from_bits(BUILT_IN_VFOV_BITS))
    }

    /// The camera of the built-in scene.  `h` is the tangent of
    /// [`Camera::built_in_half_angle`].
    pub fn built_in(h: Scalar, aspect_ratio: Scalar) -> (r: Camera)
        ensures
            r == Camera::built_in_looking(h, aspect_ratio),
    {
        let zero = Scalar::zero();
        let from = Vec3::new(
            Scalar::from_bits(BUILT_IN_FROM_X_BITS),
            Scalar::from_bits(TWO_BITS),
            Scalar::from_bits(BUILT_IN_FROM_Z_BITS),
        );
        Camera::new(
            &from,
            &Vec3::new(zero, zero, zero),
            &Vec3::new(zero, Scalar::one(), zero),
            h,
            aspect_ratio,
            Scalar::from_bits(BUILT_IN_APERTURE_BITS),
            Scalar::from_bits(BUILT_IN_FOCUS_BITS),
        )
    }

    /// The camera that looks from `lookfrom` at `lookat`.
    pub fn new(
        lookfrom: &Vec3,
        lookat: &Vec3,
        vup: &Vec3,
        h: Scalar,
        aspect_ratio: Scalar,
        aperture: Scalar,
        focus_dist: Scalar,
    ) -> (r: Camera)
        ensures
            r == Camera::looking(*lookfrom, *lookat, *vup, h, aspect_ratio, aperture, focus_dist),
    {
        let two = Scalar::from_bits(TWO_BITS);
        let viewport_height = two.mul(&h);
        let viewport_width = aspect_ratio.mul(&viewport_height);
        let w = lookfrom.sub(lookat).normalize();
        let u = vup.cross(&w).normalize();
        let v = w.cross(&u);
        let horizontal = u.scale(&focus_dist).scale(&viewport_width);
        let vertical = v.scale(&focus_dist).scale(&viewport_height);
        let lower_left_corner = lookfrom.sub(&horizontal.div(&two)).sub(&vertical.div(&two)).sub(
            &w.scale(&focus_dist),
        );
        Camera {
            origin: *lookfrom,
            lower_left_corner,
            horizontal,
            vertical,
            u,
            v,
            lens_radius: aperture.div(&two),
        }
    }

    /// The ray through the point `(s, t)` of the viewport from the point
    /// `lens` of the unit disk.
    pub fn get_ray(&self, s: Scalar, t: Scalar, lens: &Vec3) -> (r: Ray)
        ensures
            r == self.ray(s, t, *lens),
    {
        let rd = lens.scale(&self.lens_radius);
        let offset = self.u.scale(&rd.x).add(&self.v.scale(&rd.y));
        Ray::new(
            self.origin.add(&offset),
            self.lower_left_corner.add(&self.horizontal.scale(&s)).add(&self.vertical.scale(&t)).sub(
                &self.origin,
            ).sub(&offset),
        )
    }
}

} // verus!
