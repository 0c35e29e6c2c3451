use raytracer::bbox::{Aabb, BBox};
use raytracer::camera::Camera;
use raytracer::hit_record::HitRecord;
use raytracer::hittable_list::{
    closest_among, closest_of_all, random_member, HittableList, LightSamples, LightSet, Object, Traversal,
};
use raytracer::material::{DiffuseLight, Lambertian, Material};
use raytracer::onb::ONB;
use raytracer::pdf::{random_cosine_direction, CosinePDF, HittablePDF};
use raytracer::ray::Ray;
use raytracer::rectangle::{is_outside, Rectangle, XYRectangle, XZRectangle, YZRectangle};
use raytracer::scalar::Scalar;
use raytracer::sphere::{sphere_uv, uv_arguments, Sphere};
use raytracer::sphere_array::SphereArray;
use raytracer::translate::Translate;
use raytracer::triangle::Triangle;
use raytracer::utility::{
    in_unit_ball, random_in_unit_disk, random_in_unit_sphere, random_f32_range, random_unit_vector,
    random_usize_range,
};
use raytracer::vec3::Vec3;

type V = [f32; 3];

fn n(x: f32) -> Scalar {
    Scalar::from_bits(x.to_bits())
}

fn f(s: Scalar) -> f32 {
    f32::from_bits(s.to_bits())
}

fn v3(a: V) -> Vec3 {
    Vec3::new(n(a[0]), n(a[1]), n(a[2]))
}

fn arr(v: Vec3) -> V {
    [f(v.x), f(v.y), f(v.z)]
}

fn bits(v: Vec3) -> [u32; 3] {
    [v.x.to_bits(), v.y.to_bits(), v.z.to_bits()]
}

fn vbits(a: V) -> [u32; 3] {
    [a[0].to_bits(), a[1].to_bits(), a[2].to_bits()]
}

fn sub(a: V, b: V) -> V {
    [a[0] - b[0], a[1] - b[1], a[2] - b[2]]
}

fn add(a: V, b: V) -> V {
    [a[0] + b[0], a[1] + b[1], a[2] + b[2]]
}

fn dot(a: V, b: V) -> f32 {
    a[0] * b[0] + a[1] * b[1] + a[2] * b[2]
}

fn cross(a: V, b: V) -> V {
    [a[1] * b[2] - a[2] * b[1], a[2] * b[0] - a[0] * b[2], a[0] * b[1] - a[1] * b[0]]
}

fn scale(a: V, k: f32) -> V {
    [a[0] * k, a[1] * k, a[2] * k]
}

fn shrink(a: V, k: f32) -> V {
    [a[0] / k, a[1] / k, a[2] / k]
}

fn at(o: V, d: V, t: f32) -> V {
    add(o, scale(d, t))
}

fn unit(a: V) -> V {
    shrink(a, dot(a, a).sqrt())
}

fn ray(o: V, d: V) -> Ray {
    Ray::new(v3(o), v3(d))
}

struct Dice(u64);

impl Dice {
    fn uniform(&mut self) -> f32 {
        self.0 = self.0.wrapping_mul(6364136223846793005).wrapping_add(1442695040888963407);
        ((self.0 >> 40) as f32) / 16777216.0
    }

    fn between(&mut self, lo: f32, hi: f32) -> f32 {
        self.uniform() * (hi - lo) + lo
    }

    fn vector(&mut self, size: f32) -> V {
        [self.between(-size, size), self.between(-size, size), self.between(-size, size)]
    }
}

/// The sphere test as the floating-point unit computes it.
fn sphere_reference(c: V, r: f32, o: V, d: V, t_min: f32, t_max: f32) -> Option<(f32, V, V, bool)> {
    let oc = sub(o, c);
    let a = dot(d, d);
    let half_b = dot(oc, d);
    let cc = dot(oc, oc) - r * r;
    let disc = half_b * half_b - a * cc;
    if disc < 0.0 {
        return None;
    }
    let sq = disc.sqrt();
    let mut root = (-half_b - sq) / a;
    if !(t_min < root && root < t_max) {
        root = (-half_b + sq) / a;
        if !(t_min < root && root < t_max) {
            return None;
        }
    }
    let p = at(o, d, root);
    let outward = shrink(sub(p, c), r);
    let front = dot(d, outward) < 0.0;
    let normal = if front { outward } else { [-outward[0], -outward[1], -outward[2]] };
    Some((root, p, normal, front))
}

/// Möller and Trumbore's test as the floating-point unit computes it.
fn triangle_reference(v: [V; 3], nrm: [V; 3], o: V, d: V, t_min: f32, t_max: f32) -> Option<(f32, f32, f32, V)> {
    let e1 = sub(v[1], v[0]);
    let e2 = sub(v[2], v[0]);
    let p = cross(d, e2);
    let det = dot(e1, p);
    if det.abs() < 0.0001 {
        return None;
    }
    let inv = 1.0 / det;
    let s = sub(o, v[0]);
    let u = inv * dot(s, p);
    if u < 0.0 || u > 1.0 {
        return None;
    }
    let q = cross(s, e1);
    let w = inv * dot(d, q);
    if w < 0.0 || u + w > 1.0 {
        return None;
    }
    let t = inv * dot(e2, q);
    if t > t_min && t < t_max {
        let blend = add(add(scale(nrm[0], 1.0 - u - w), scale(nrm[1], u)), scale(nrm[2], w));
        let normal = unit(blend);
        let front = dot(d, normal) < 0.0;
        Some((t, u, w, if front { normal } else { [-normal[0], -normal[1], -normal[2]] }))
    } else {
        None
    }
}

fn unit_triangle() -> Triangle {
    let up = v3([0.0, 0.0, 1.0]);
    Triangle::new((v3([0.0, 0.0, 0.0]), v3([1.0, 0.0, 0.0]), v3([0.0, 1.0, 0.0])), (up, up, up), 0, 0)
}

#[test]
fn test_length() {
    let v = v3([1.0, 2.0, 3.0]);
    assert_eq!(f(v.length_squared()), 14.0);
    assert_eq!(f(v.length()), 3.7416573867739413);
}

#[test]
fn test_dot() {
    let v1 = v3([1.0, 2.0, 3.0]);
    let v2 = v3([4.0, 5.0, 6.0]);
    assert_eq!(f(v1.dot(&v2)), 32.0);
}

#[test]
fn test_cross() {
    let v3_ = v3([1.0, 2.0, 3.0]).cross(&v3([4.0, 5.0, 6.0]));
    assert_eq!(f(v3_.x()), -3.0);
    assert_eq!(f(v3_.y()), 6.0);
    assert_eq!(f(v3_.z()), -3.0);
}

#[test]
fn test_unit_vector() {
    let v2 = v3([1.0, 2.0, 3.0]).unit_vector();
    assert!(f(v2.length()) - 1.0 < 0.0000001);
    let k = 1.0 / 14.0f32.sqrt();
    assert_eq!(bits(v2), vbits([1.0 * k, 2.0 * k, 3.0 * k]));
}

#[test]
fn test_add() {
    let r = v3([1.0, 2.0, 3.0]).add(&v3([4.0, 5.0, 6.0]));
    assert_eq!(arr(r), [5.0, 7.0, 9.0]);
}

#[test]
fn test_sub() {
    let r = v3([1.0, 2.0, 3.0]).sub(&v3([4.0, 5.0, 6.0]));
    assert_eq!(arr(r), [-3.0, -3.0, -3.0]);
}

#[test]
fn test_mul() {
    let r = v3([1.0, 2.0, 3.0]).mul(&v3([4.0, 5.0, 6.0]));
    assert_eq!(arr(r), [4.0, 10.0, 18.0]);
}

#[test]
fn test_mul_scalar() {
    let r = v3([1.0, 2.0, 3.0]).scale(&n(2.0));
    assert_eq!(arr(r), [2.0, 4.0, 6.0]);
}

#[test]
fn test_div() {
    let r = v3([1.0, 2.0, 3.0]).div(&n(2.0));
    assert_eq!(arr(r), [0.5, 1.0, 1.5]);
}

#[test]
fn test_add_assign() {
    let mut v1 = v3([1.0, 2.0, 3.0]);
    v1 = v1.add(&v3([4.0, 5.0, 6.0]));
    assert_eq!(arr(v1), [5.0, 7.0, 9.0]);
}

#[test]
fn test_sub_assign() {
    let mut v1 = v3([1.0, 2.0, 3.0]);
    v1 = v1.sub(&v3([4.0, 5.0, 6.0]));
    assert_eq!(arr(v1), [-3.0, -3.0, -3.0]);
}

#[test]
fn test_mul_assign() {
    let mut v1 = v3([1.0, 2.0, 3.0]);
    v1 = v1.mul(&v3([4.0, 5.0, 6.0]));
    assert_eq!(arr(v1), [4.0, 10.0, 18.0]);
}

#[test]
fn test_mul_assign_scalar() {
    let mut v1 = v3([1.0, 2.0, 3.0]);
    v1 = v1.scale(&n(2.0));
    assert_eq!(arr(v1), [2.0, 4.0, 6.0]);
}

#[test]
fn test_div_assign() {
    let mut v1 = v3([1.0, 2.0, 3.0]);
    v1 = v1.div(&n(2.0));
    assert_eq!(arr(v1), [0.5, 1.0, 1.5]);
}

#[test]
fn test_index_mut() {
    let mut v1 = v3([1.0, 2.0, 3.0]);
    v1.set(0, n(4.0));
    v1.set(1, n(5.0));
    v1.set(2, n(6.0));
    assert_eq!(f(v1.index(0)), 4.0);
    assert_eq!(f(v1.index(1)), 5.0);
    assert_eq!(f(v1.index(2)), 6.0);
}

#[test]
fn vectors_compute_as_the_hardware_does() {
    let mut dice = Dice(11);
    for _ in 0..2000 {
        let a = dice.vector(10.0);
        let b = dice.vector(3.0);
        let k = dice.between(-2.0, 2.0);
        assert_eq!(bits(v3(a).add(&v3(b))), vbits(add(a, b)));
        assert_eq!(bits(v3(a).sub(&v3(b))), vbits(sub(a, b)));
        assert_eq!(bits(v3(a).scale(&n(k))), vbits(scale(a, k)));
        assert_eq!(bits(v3(a).div(&n(k))), vbits(shrink(a, k)));
        assert_eq!(v3(a).dot(&v3(b)).to_bits(), dot(a, b).to_bits());
        assert_eq!(bits(v3(a).cross(&v3(b))), vbits(cross(a, b)));
        assert_eq!(v3(a).length().to_bits(), dot(a, a).sqrt().to_bits());
        assert_eq!(bits(v3(a).normalize()), vbits(unit(a)));
        let blend = add(scale(a, 1.0 - k), scale(b, k));
        assert_eq!(bits(v3(a).lerp(&v3(b), &n(k))), vbits(blend));
    }
}

#[test]
fn test_at() {
    let origin = v3([2.0, 3.0, 4.0]);
    let r = Ray::new(origin, v3([1.0, 0.0, 0.0]));
    assert_eq!(r.at(n(0.0)), origin);
    assert_eq!(r.at(n(1.0)), v3([3.0, 3.0, 4.0]));
    assert_eq!(r.at(n(-1.0)), v3([1.0, 3.0, 4.0]));
    assert_eq!(r.at(n(2.5)), v3([4.5, 3.0, 4.0]));
}

#[test]
fn a_ray_starts_at_its_origin() {
    let mut dice = Dice(5);
    for _ in 0..1000 {
        let o = dice.vector(100.0);
        let d = dice.vector(100.0);
        assert_eq!(arr(ray(o, d).at(n(0.0))), o);
    }
    let r = ray([-0.0, 0.0, 1e-40], [f32::MAX, -1e-45, 3.0]);
    assert_eq!(arr(r.at(n(0.0))), [0.0, 0.0, 1e-40]);
    assert_eq!(arr(r.origin()), [0.0, 0.0, 1e-40]);
    assert_eq!(arr(Ray::empty().direction()), [0.0, 0.0, 0.0]);
}

#[test]
fn test_camera() {
    let h = (90.0f32.to_radians() / 2.0).tan();
    assert_eq!(f(Camera::half_angle(n(90.0))), 90.0f32.to_radians() / 2.0);
    let camera = Camera::new(
        &v3([0.0, 0.0, 0.0]),
        &v3([0.0, 0.0, -1.0]),
        &v3([0.0, 1.0, 0.0]),
        n(h),
        n(1.0),
        n(0.0),
        n(1.0),
    );
    let r = camera.get_ray(n(0.0), n(0.0), &v3([0.3, -0.4, 0.0]));
    assert_eq!(camera.origin, v3([0.0, 0.0, 0.0]));
    assert_eq!(arr(r.origin()), [0.0, 0.0, 0.0]);
    assert_eq!(arr(r.direction()), [-h, -h, -1.0]);
    assert_eq!(arr(camera.u), [1.0, 0.0, 0.0]);
    assert_eq!(arr(camera.v), [0.0, 1.0, 0.0]);
    assert_eq!(arr(camera.horizontal), [2.0 * h, 0.0, 0.0]);
    assert_eq!(arr(camera.vertical), [0.0, 2.0 * h, 0.0]);
}

#[test]
fn the_camera_aims_through_the_viewport() {
    let h = (20.0f32.to_radians() / 2.0).tan();
    let camera = Camera::new(&v3([13.0, 2.0, 3.0]), &v3([0.0, 0.0, 0.0]), &v3([0.0, 1.0, 0.0]), n(h), n(2.0), n(0.1), n(10.0));
    assert_eq!(f(camera.lens_radius), 0.05);
    let centre = camera.get_ray(n(0.5), n(0.5), &v3([0.0, 0.0, 0.0]));
    let towards = unit(sub([0.0, 0.0, 0.0], [13.0, 2.0, 3.0]));
    let got = unit(arr(centre.direction()));
    assert!(dot(got, towards) > 0.99999);
    let off = camera.get_ray(n(0.5), n(0.5), &v3([1.0, 0.0, 0.0]));
    let moved = sub(arr(off.origin()), [13.0, 2.0, 3.0]);
    assert!((dot(moved, moved).sqrt() - 0.05).abs() < 1e-6);
}

#[test]
fn test_hitrecord() {
    let mut hit_record = HitRecord::empty();
    let r = ray([0.0, 0.0, 0.0], [0.0, 0.0, 1.0]);
    let outward_normal = v3([0.0, 0.0, 1.0]);
    hit_record.set_face_normal(&r, &outward_normal);
    let d = sub(arr(hit_record.normal), [0.0, 0.0, -1.0]);
    assert!(dot(d, d).sqrt() <= 0.0001);
    assert_eq!(hit_record.front_face, false);
}

#[test]
fn face_normals_turn_against_the_ray() {
    let mut dice = Dice(17);
    for _ in 0..2000 {
        let d = dice.vector(5.0);
        let nrm = unit(dice.vector(1.0));
        let mut rec = HitRecord::empty();
        rec.set_face_normal(&ray([0.0; 3], d), &v3(nrm));
        assert_eq!(rec.front_face, dot(d, nrm) < 0.0);
        assert!(f(v3(d).dot(&rec.normal)) <= 0.0);
    }
}

#[test]
fn records_are_made_and_reset() {
    let mut rec = HitRecord::new(v3([1.0, 2.0, 3.0]), v3([0.0, 1.0, 0.0]), 4, n(2.5), n(0.25), n(0.75), true);
    assert_eq!(rec.material, 4);
    assert_eq!(f(rec.t), 2.5);
    let moved = rec.with_uv(n(0.1), n(0.2));
    assert_eq!((f(moved.u), f(moved.v), moved.material), (0.1, 0.2, 4));
    rec.reset();
    assert_eq!(arr(rec.p), [0.0, 0.0, 0.0]);
    assert_eq!(arr(rec.normal), [0.0, 0.0, 0.0]);
    assert_eq!(rec.material, 0);
    assert_eq!(f(rec.t), 0.0);
    assert_eq!((f(rec.u), f(rec.v)), (0.25, 0.75));
    assert!(!rec.front_face);
}

#[test]
fn test_sphere_hit() {
    let sphere = Sphere::new(v3([0.0, 0.0, -1.0]), n(0.5), 0, 0);
    let r = ray([0.0, 0.0, 0.0], [0.0, 0.0, -1.0]);
    assert!(sphere.hit(&r, n(0.0), n(100.0)).is_some());
}

#[test]
fn spheres_are_hit_at_the_nearer_root_in_range() {
    let sphere = Sphere::new(v3([0.0, 0.0, -1.0]), n(0.5), 3, 0);
    let r = ray([0.0, 0.0, 0.0], [0.0, 0.0, -1.0]);
    let rec = sphere.hit(&r, n(0.0), n(100.0)).unwrap();
    assert_eq!(f(rec.t), 0.5);
    assert_eq!(arr(rec.p), [0.0, 0.0, -0.5]);
    assert_eq!(arr(rec.normal), [0.0, 0.0, 1.0]);
    assert!(rec.front_face);
    assert_eq!(rec.material, 3);
    let rec = sphere.hit(&r, n(0.75), n(100.0)).unwrap();
    assert_eq!(f(rec.t), 1.5);
    assert!(!rec.front_face);
    assert_eq!(arr(rec.normal), [0.0, 0.0, 1.0]);
    assert!(sphere.hit(&r, n(1.75), n(100.0)).is_none());
    assert!(sphere.hit(&r, n(0.0), n(0.25)).is_none());
    assert!(sphere.hit(&ray([0.0, 0.0, 0.0], [0.0, 1.0, 0.0]), n(0.0), n(100.0)).is_none());
    assert_eq!(sphere.select_root(&r, n(0.5), n(100.0)).map(f), Some(1.5));
    assert_eq!(sphere.select_root(&r, n(0.25), n(1.5)).map(f), Some(0.5));
    assert_eq!(sphere.select_root(&r, n(0.5), n(1.5)).map(f), None);
    assert_eq!(arr(sphere.surface_point(&v3([0.0, 0.5, -1.0]))), [0.0, 1.0, 0.0]);
}

#[test]
fn a_sphere_leaves_its_surface_coordinates_to_the_caller() {
    let sphere = Sphere::new(v3([0.0, 0.0, -1.0]), n(0.5), 3, 0);
    let r = ray([0.0, 0.0, 0.0], [0.0, 0.0, -1.0]);
    let front = sphere.hit(&r, n(0.0), n(100.0)).unwrap();
    assert!(front.spherical && front.front_face);
    assert_eq!((f(front.u), f(front.v)), (0.0, 0.0));
    assert_eq!(arr(front.outward_normal()), [0.0, 0.0, 1.0]);
    assert_eq!(bits(front.outward_normal()), bits(sphere.surface_point(&front.p)));
    let back = sphere.hit(&r, n(0.75), n(100.0)).unwrap();
    assert!(back.spherical && !back.front_face);
    assert_eq!(arr(back.normal), [0.0, 0.0, 1.0]);
    assert_eq!(arr(back.outward_normal()), [0.0, 0.0, -1.0]);
    assert_eq!(bits(back.outward_normal()), bits(sphere.surface_point(&back.p)));
    let mut dice = Dice(29);
    for _ in 0..500 {
        let slanted = ray(dice.vector(0.3), add(dice.vector(0.2), [0.0, 0.0, -1.0]));
        for t_min in [0.0, 0.9] {
            if let Some(rec) = sphere.hit(&slanted, n(t_min), n(100.0)) {
                assert!(rec.spherical);
                assert_eq!(bits(rec.outward_normal()), bits(sphere.surface_point(&rec.p)));
            }
        }
    }
    let flat = XYRectangle::new(n(-1.0), n(1.0), n(-1.0), n(1.0), n(-2.0), 0, 0);
    assert!(!flat.hit(&r, n(0.0), n(100.0)).unwrap().spherical);
    let up = v3([0.0, 0.0, 1.0]);
    let t = Triangle::new((v3([-1.0, -1.0, -2.0]), v3([1.0, -1.0, -2.0]), v3([0.0, 1.0, -2.0])), (up, up, up), 0, 0);
    assert!(!t.hit(&r, n(0.0), n(100.0)).unwrap().spherical);
    assert!(!HitRecord::empty().spherical);
    let mut made = HitRecord::new(v3([1.0, 2.0, 3.0]), v3([0.0, 1.0, 0.0]), 4, n(2.5), n(0.25), n(0.75), true);
    assert!(!made.spherical);
    assert_eq!(arr(made.outward_normal()), [0.0, 1.0, 0.0]);
    made.spherical = true;
    made.reset();
    assert!(!made.spherical);
}

#[test]
fn the_angles_of_a_sphere_give_its_surface_coordinates() {
    let pi = std::f32::consts::PI;
    let mut dice = Dice(53);
    for _ in 0..500 {
        let p = unit(dice.vector(1.0));
        let (minus_z, x, minus_y) = uv_arguments(&v3(p));
        assert_eq!([f(minus_z), f(x), f(minus_y)], [-p[2], p[0], -p[1]]);
        let (longitude, colatitude) = (f(minus_z).atan2(f(x)), f(minus_y).acos());
        let (u, v) = sphere_uv(n(longitude), n(colatitude));
        assert_eq!((f(u), f(v)), ((longitude + pi) / (2.0 * pi), colatitude / pi));
        assert!((0.0..=1.0).contains(&f(u)) && (0.0..=1.0).contains(&f(v)));
    }
    // the south pole is the bottom of the picture, the north pole its top
    assert_eq!(f(sphere_uv(n(0.0), n(1.0f32.acos())).1), 0.0);
    assert_eq!(f(sphere_uv(n(0.0), n((-1.0f32).acos())).1), 1.0);
    assert_eq!(f(sphere_uv(n(0.0), n(0.0)).0), 0.5);
}

#[test]
fn spheres_are_hit_as_the_hardware_computes() {
    let mut dice = Dice(23);
    let mut hits = 0;
    for _ in 0..3000 {
        let c = dice.vector(4.0);
        let r = dice.between(0.2, 3.0);
        let o = dice.vector(6.0);
        let d = sub(add(c, dice.vector(1.5 * r)), o);
        let sphere = Sphere::new(v3(c), n(r), 1, 0);
        let got = sphere.hit(&ray(o, d), n(0.001), n(f32::INFINITY));
        let want = sphere_reference(c, r, o, d, 0.001, f32::INFINITY);
        match (got, want) {
            (Some(h), Some((t, p, normal, front))) => {
                hits += 1;
                assert_eq!(h.t.to_bits(), t.to_bits());
                assert_eq!(bits(h.p), vbits(p));
                assert_eq!(bits(h.normal), vbits(normal));
                assert_eq!(h.front_face, front);
                let from_centre = sub(p, c);
                assert!((dot(from_centre, from_centre).sqrt() - r).abs() <= 0.001);
                assert!(t > 0.001 && t < f32::INFINITY);
                assert!(dot(d, normal) <= 0.0);
            }
            (None, None) => {}
            (g, w) => panic!("{g:?} against {w:?}"),
        }
    }
    assert!(hits > 300);
}

#[test]
fn test_xyrectangle_hit() {
    let rectangle = XYRectangle::new(n(-1.0), n(1.0), n(-1.0), n(1.0), n(0.0), 0, 0);
    assert!(rectangle.hit(&ray([0.0, 0.0, -1.0], [0.0, 0.0, 1.0]), n(0.0), n(100.0)).is_some());
}

#[test]
fn a_rectangle_is_hit_strictly_inside_the_interval() {
    let r = ray([0.0, 0.0, -1.0], [0.0, 0.0, 1.0]);
    let xy = XYRectangle::new(n(-1.0), n(1.0), n(-1.0), n(1.0), n(0.0), 0, 0);
    assert_eq!(xy.hit(&r, n(0.5), n(1.5)).map(|h| f(h.t)), Some(1.0));
    assert!(xy.hit(&r, n(1.0), n(100.0)).is_none());
    assert!(xy.hit(&r, n(0.0), n(1.0)).is_none());
    assert!(xy.hit(&r, n(f32::NAN), n(100.0)).is_none());
    assert!(xy.hit(&r, n(0.0), n(f32::NAN)).is_none());
    let up = ray([0.0, -1.0, 0.0], [0.0, 1.0, 0.0]);
    let xz = XZRectangle::new(n(-1.0), n(1.0), n(-1.0), n(1.0), n(0.0), 0, 0);
    assert!(xz.hit(&up, n(1.0), n(100.0)).is_none());
    assert!(xz.hit(&up, n(0.999), n(1.001)).is_some());
    let along = ray([-1.0, 0.0, 0.0], [1.0, 0.0, 0.0]);
    let yz = YZRectangle::new(n(-1.0), n(1.0), n(-1.0), n(1.0), n(0.0), 0, 0);
    assert!(yz.hit(&along, n(0.0), n(1.0)).is_none());
    assert!(yz.hit(&along, n(0.999), n(1.001)).is_some());
    // a ray along the plane never crosses it
    assert!(xy.hit(&ray([0.0, 0.0, -1.0], [1.0, 0.0, 0.0]), n(0.0), n(f32::INFINITY)).is_none());
    assert!(xy.hit(&ray([0.0, 0.0, 0.0], [1.0, 0.0, 0.0]), n(0.0), n(f32::INFINITY)).is_none());
}

#[test]
fn test_xzrectangle_hit() {
    let rectangle = XZRectangle::new(n(-1.0), n(1.0), n(-1.0), n(1.0), n(0.0), 0, 0);
    assert!(rectangle.hit(&ray([0.0, -1.0, 0.0], [0.0, 1.0, 0.0]), n(0.0), n(100.0)).is_some());
}

#[test]
fn test_yzrectangle_hit() {
    let rectangle = YZRectangle::new(n(-1.0), n(1.0), n(-1.0), n(1.0), n(0.0), 0, 0);
    assert!(rectangle.hit(&ray([-1.0, 0.0, 0.0], [1.0, 0.0, 0.0]), n(0.0), n(100.0)).is_some());
}

#[test]
fn test_rectangle_hit() {
    let rectangle = Rectangle::XYRectangle(XYRectangle::new(n(-1.0), n(1.0), n(-1.0), n(1.0), n(0.0), 0, 0));
    assert!(rectangle.hit(&ray([0.0, 0.0, -1.0], [0.0, 0.0, 1.0]), n(0.0), n(100.0)).is_some());
}

#[test]
fn a_rectangle_is_hit_head_on() {
    let rectangle = XYRectangle::new(n(-1.0), n(1.0), n(-1.0), n(1.0), n(0.0), 2, 0);
    let rec = rectangle.hit(&ray([0.0, 0.0, -1.0], [0.0, 0.0, 1.0]), n(0.0), n(100.0)).unwrap();
    assert!((f(rec.t) - 1.0).abs() <= 1e-5);
    assert_eq!(arr(rec.p), [0.0, 0.0, 0.0]);
    assert_eq!(arr(rec.normal), [0.0, 0.0, -1.0]);
    assert!(rec.front_face);
    assert_eq!(rec.material, 2);
    assert_eq!((f(rec.u), f(rec.v)), (0.5, 0.5));
    let back = rectangle.hit(&ray([0.5, 0.0, 2.0], [0.0, 0.0, -1.0]), n(0.0), n(100.0)).unwrap();
    assert_eq!(arr(back.normal), [0.0, 0.0, 1.0]);
    assert!(back.front_face);
    assert_eq!((f(back.t), f(back.u)), (2.0, 0.75));
}

#[test]
fn rectangle_hits_lie_within_the_rectangle() {
    let mut dice = Dice(29);
    let q = XZRectangle::new(n(-1.0), n(2.0), n(0.5), n(1.5), n(3.0), 0, 0);
    let mut hits = 0;
    for _ in 0..3000 {
        let o = dice.vector(4.0);
        let d = sub([dice.between(-1.5, 2.5), 3.0, dice.between(0.0, 2.0)], o);
        let t = (3.0 - o[1]) / d[1];
        let p = at(o, d, t);
        let inside = !(t < 0.0 || t > 100.0) && !(p[0] < -1.0 || p[0] > 2.0 || p[2] < 0.5 || p[2] > 1.5);
        match q.hit(&ray(o, d), n(0.0), n(100.0)) {
            Some(h) => {
                hits += 1;
                assert!(inside);
                assert_eq!(h.t.to_bits(), t.to_bits());
                assert_eq!(bits(h.p), vbits(p));
                assert!(f(h.p.x) >= -1.0 && f(h.p.x) <= 2.0 && f(h.p.z) >= 0.5 && f(h.p.z) <= 1.5);
                assert_eq!(f(h.u), (p[0] - -1.0) / (2.0 - -1.0));
                assert_eq!(f(h.v), (p[2] - 0.5) / (1.5 - 0.5));
                assert!(d[1] * f(h.normal.y) <= 0.0);
            }
            None => assert!(!inside),
        }
    }
    assert!(hits > 50);
    let yz = Rectangle::YZRectangle(YZRectangle::new(n(0.0), n(1.0), n(0.0), n(1.0), n(-2.0), 5, 0));
    let rec = yz.hit(&ray([0.0, 0.5, 0.5], [-1.0, 0.0, 0.0]), n(0.0), n(100.0)).unwrap();
    assert_eq!(arr(rec.normal), [1.0, 0.0, 0.0]);
    assert!(rec.front_face);
    assert_eq!(yz.material(), 5);
}

#[test]
fn rectangles_have_boxes_densities_and_points() {
    let q = XZRectangle::new(n(-1.0), n(1.0), n(-1.0), n(1.0), n(5.0), 0, 0);
    let b = q.aabb();
    assert_eq!(arr(b.min), [-1.0, 5.0 - 0.0001, -1.0]);
    assert_eq!(arr(b.max), [1.0, 5.0 + 0.0001, 1.0]);
    let xy = XYRectangle::new(n(0.0), n(2.0), n(0.0), n(3.0), n(1.0), 0, 0).aabb();
    assert_eq!(arr(xy.min), [0.0, 0.0, 1.0 - 0.0001]);
    let yz = YZRectangle::new(n(0.0), n(2.0), n(0.0), n(3.0), n(1.0), 0, 0).aabb();
    assert_eq!(arr(yz.max), [1.0 + 0.0001, 2.0, 3.0]);
    let o = [0.0f32, 0.0, 0.0];
    let v = [0.1f32, 1.0, 0.2];
    let t = (5.0 - o[1]) / v[1];
    let want = (t * t * dot(v, v)) / ((dot(v, [0.0, 1.0, 0.0]) / dot(v, v).sqrt()).abs() * ((1.0 - -1.0) * (1.0 - -1.0)));
    assert_eq!(f(q.pdf_value(&v3(o), &v3(v))), want);
    assert_eq!(f(q.pdf_value(&v3(o), &v3([1.0, 1.0, 0.0]))), 0.0);
    assert_eq!(f(q.pdf_value(&v3(o), &v3([0.0, -1.0, 0.0]))), 0.0);
    let towards = q.random(&v3([0.5, 0.0, 0.0]), n(0.25), n(0.75));
    assert_eq!(arr(towards), [-0.5 - 0.5, 5.0, 0.5]);
    assert_eq!(f(random_f32_range(n(0.25), n(-1.0), n(1.0))), -0.5);
}

#[test]
fn intervals_have_an_outside() {
    assert!(is_outside(&n(-0.1), &n(0.0), &n(1.0)));
    assert!(is_outside(&n(1.1), &n(0.0), &n(1.0)));
    assert!(!is_outside(&n(0.0), &n(0.0), &n(1.0)));
    assert!(!is_outside(&n(1.0), &n(0.0), &n(1.0)));
    assert!(!is_outside(&n(f32::NAN), &n(0.0), &n(1.0)));
}

#[test]
fn node_indices_are_kept() {
    let mut q = Rectangle::XYRectangle(XYRectangle::new(n(-1.0), n(1.0), n(-1.0), n(1.0), n(0.0), 2, 0));
    q.set_bh_node_index(9);
    assert_eq!(q.bh_node_index(), 9);
    assert_eq!(q.material(), 2);
    let mut s = Sphere::new(v3([0.0, 0.0, 0.0]), n(1.0), 1, 0);
    s.set_bh_node_index(5);
    assert_eq!(s.bh_node_index(), 5);
    assert_eq!(f(s.radius), 1.0);
    let mut t = unit_triangle();
    t.set_bh_node_index(6);
    assert_eq!(t.bh_node_index(), 6);
    let mut b = BBox::new(v3([0.0, 0.0, 0.0]), v3([1.0, 1.0, 1.0]), 0);
    b.set_bh_node_index(3);
    assert_eq!(b.bh_node_index(), 3);
    let mut a = SphereArray::new(&vec![s]);
    a.set_bh_node_index(8);
    assert_eq!(a.bh_node_index(), 8);
    assert_eq!(a.spheres.len(), 1);
}

#[test]
fn test_triangle_hit() {
    let triangle = unit_triangle();
    assert!(triangle.hit(&ray([0.0, 0.0, -1.0], [0.0, 0.0, 1.0]), n(0.0), n(100.0)).is_some());
}

#[test]
fn a_ray_beside_the_triangle_misses() {
    let triangle = unit_triangle();
    assert!(triangle.hit(&ray([-1.0, -1.0, -1.0], [0.0, 0.0, 1.0]), n(0.0), n(100.0)).is_none());
}

#[test]
fn triangles_are_hit_as_the_hardware_computes() {
    let mut dice = Dice(31);
    let mut hits = 0;
    for _ in 0..4000 {
        let v = [dice.vector(2.0), dice.vector(2.0), dice.vector(2.0)];
        let face = unit(cross(sub(v[1], v[0]), sub(v[2], v[0])));
        let nrm = [face, unit(add(face, dice.vector(0.3))), unit(add(face, dice.vector(0.3)))];
        let o = dice.vector(4.0);
        let middle = scale(add(add(v[0], v[1]), v[2]), 1.0 / 3.0);
        let d = sub(add(middle, dice.vector(1.0)), o);
        let tri = Triangle::new((v3(v[0]), v3(v[1]), v3(v[2])), (v3(nrm[0]), v3(nrm[1]), v3(nrm[2])), 2, 0);
        assert_eq!(bits(tri.vertices.1), vbits(v[1]));
        let got = tri.hit(&ray(o, d), n(0.001), n(100.0));
        let want = triangle_reference(v, nrm, o, d, 0.001, 100.0);
        match (got, want) {
            (Some(h), Some((t, u, w, normal))) => {
                hits += 1;
                assert_eq!(h.t.to_bits(), t.to_bits());
                assert_eq!((h.u.to_bits(), h.v.to_bits()), (u.to_bits(), w.to_bits()));
                assert_eq!(bits(h.normal), vbits(normal));
                assert!(u >= 0.0 && w >= 0.0 && u + w <= 1.0);
                assert!(t > 0.001 && t < 100.0);
                assert_eq!(h.material, 2);
            }
            (None, None) => {}
            (g, w) => panic!("{g:?} against {w:?}"),
        }
    }
    assert!(hits > 100);
}

#[test]
fn triangles_are_repaired() {
    let vertices = (v3([0.0, 0.0, 0.0]), v3([1.0, 0.0, 0.0]), v3([0.0, 1.0, 0.0]));
    let none = v3([0.0, 0.0, 0.0]);
    let tilted = v3([0.0, 0.6, 0.8]);
    let fixed = Triangle::new(vertices, (none, tilted, v3([0.01, 0.0, 0.0])), 0, 0);
    assert_eq!(arr(fixed.normals.0), [0.0, 0.0, 1.0]);
    assert_eq!(arr(fixed.normals.1), [0.0, 0.6, 0.8]);
    assert_eq!(arr(fixed.normals.2), [0.0, 0.0, 1.0]);
    let down = v3([0.0, 0.0, -1.0]);
    let swapped = Triangle::new(vertices, (down, v3([0.0, 0.6, -0.8]), down), 1, 2);
    assert_eq!(arr(swapped.vertices.1), [0.0, 1.0, 0.0]);
    assert_eq!(arr(swapped.vertices.2), [1.0, 0.0, 0.0]);
    assert_eq!(arr(swapped.normals.1), [0.0, 0.0, -1.0]);
    assert_eq!(arr(swapped.normals.2), [0.0, 0.6, -0.8]);
    let kept = Triangle::new(vertices, (down, tilted, down), 1, 2);
    assert_eq!(arr(kept.vertices.1), [1.0, 0.0, 0.0]);
    assert_eq!((kept.material, kept.node_index), (1, 2));
    assert!(unit_triangle().check_not_degenerate());
    let thin = Triangle::new((v3([0.0, 0.0, 0.0]), v3([0.0005, 0.0, 0.0]), v3([0.0, 1.0, 0.0])), (down, down, down), 0, 0);
    assert!(!thin.check_not_degenerate());
}

#[test]
fn triangles_have_densities_and_points() {
    let t = unit_triangle();
    let o = [0.2f32, 0.2, 2.0];
    let to_vertex = sub([0.0, 0.0, 0.0], o);
    let want = dot(to_vertex, to_vertex) / ((dot(to_vertex, [0.0, 0.0, 1.0]) / dot(to_vertex, to_vertex).sqrt()) * 0.5);
    assert_eq!(f(t.pdf_value(&v3(o))), want);
    let mut dice = Dice(37);
    for _ in 0..500 {
        let (s1, s2) = (dice.uniform(), dice.uniform());
        let p = arr(t.random(&v3([0.0, 0.0, 0.0]), n(s1), n(s2)));
        assert!(p[0] >= 0.0 && p[1] >= 0.0 && p[0] + p[1] <= 1.0001 && p[2] == 0.0);
    }
    assert_eq!(arr(t.random(&v3([0.0, 0.0, 1.0]), n(0.25), n(0.5))), [0.25, 0.25, -1.0]);
}

#[test]
fn boxes_hold_what_they_join() {
    let up = v3([0.0, 0.0, 1.0]);
    let t = Triangle::new((v3([0.0, 2.0, -1.0]), v3([1.0, 0.0, 5.0]), v3([-3.0, 1.0, 0.0])), (up, up, up), 0, 0);
    let b = t.aabb();
    assert_eq!(arr(b.min), [-3.0, 0.0, -1.0]);
    assert_eq!(arr(b.max), [1.0, 2.0, 5.0]);
    let other = Aabb::with_bounds(v3([-1.0, -1.0, -1.0]), v3([7.0, 1.0, 1.0]));
    let j = b.join(&other);
    assert_eq!(arr(j.min), [-3.0, -1.0, -1.0]);
    assert_eq!(arr(j.max), [7.0, 2.0, 5.0]);
    let e = Aabb::empty();
    assert_eq!(arr(e.min), [f32::INFINITY; 3]);
    assert_eq!(arr(e.max), [f32::NEG_INFINITY; 3]);
    assert_eq!(e.join(&b), b);
    assert_eq!(Aabb::join_all(e, &vec![b, other]), j);
    assert_eq!(Aabb::join_all(b, &vec![]), b);
    let s = Sphere::new(v3([1.0, 2.0, 3.0]), n(0.5), 0, 0);
    assert_eq!(arr(s.aabb().min), [0.5, 1.5, 2.5]);
    assert_eq!(arr(s.aabb().max), [1.5, 2.5, 3.5]);
    let cluster = SphereArray::new(&vec![s, Sphere::new(v3([-1.0, 0.0, 0.0]), n(1.0), 0, 0)]);
    assert_eq!(arr(cluster.aabb().min), [-2.0, -1.0, -1.0]);
    assert_eq!(arr(cluster.aabb().max), [1.5, 2.5, 3.5]);
    let bb = BBox::new(v3([0.0, 0.0, 0.0]), v3([2.0, 4.0, 6.0]), 0).aabb();
    assert_eq!(arr(bb.min), [-1.0 - 0.0001, -2.0 - 0.0001, -3.0 - 0.0001]);
    assert_eq!(arr(bb.max), [1.0 + 0.0001, 2.0 + 0.0001, 3.0 + 0.0001]);
}

#[test]
fn test_bbox() {
    let bbox = BBox::new(v3([0.0, 0.0, 0.0]), v3([1.0, 1.0, 1.0]), 0);
    let r = ray([0.0, 0.0, -2.0], [0.0, 0.0, 1.0]);
    assert!(bbox.hit_all(&r, n(0.0), n(100.0)).is_some());
    assert!(bbox.hit(&r, n(0.0), n(100.0), &vec![0, 1, 2, 3, 4, 5]).is_some());
}

#[test]
fn a_box_has_six_faces() {
    let bbox = BBox::new(v3([1.5, 1.5, 1.5]), v3([5.0, 7.0, 9.0]), 7);
    assert_eq!(bbox.faces.len(), 6);
    assert_eq!(bbox.faces[0], Rectangle::XYRectangle(XYRectangle::new(n(-1.0), n(4.0), n(-2.0), n(5.0), n(-3.0), 7, 0)));
    assert_eq!(bbox.faces[1], Rectangle::XYRectangle(XYRectangle::new(n(-1.0), n(4.0), n(-2.0), n(5.0), n(6.0), 7, 0)));
    assert_eq!(bbox.faces[2], Rectangle::XZRectangle(XZRectangle::new(n(-1.0), n(4.0), n(-3.0), n(6.0), n(-2.0), 7, 0)));
    assert_eq!(bbox.faces[3], Rectangle::XZRectangle(XZRectangle::new(n(-1.0), n(4.0), n(-3.0), n(6.0), n(5.0), 7, 0)));
    assert_eq!(bbox.faces[4], Rectangle::YZRectangle(YZRectangle::new(n(-2.0), n(5.0), n(-3.0), n(6.0), n(-1.0), 7, 0)));
    assert_eq!(bbox.faces[5], Rectangle::YZRectangle(YZRectangle::new(n(-2.0), n(5.0), n(-3.0), n(6.0), n(4.0), 7, 0)));
    let rec = bbox.hit_all(&ray([0.0, 0.0, -10.0], [0.0, 0.0, 1.0]), n(0.0), n(100.0)).unwrap();
    assert_eq!(f(rec.t), 7.0);
    assert_eq!(arr(rec.normal), [0.0, 0.0, -1.0]);
    assert!(rec.front_face);
    assert_eq!(rec.material, 7);
    let inside = bbox.hit_all(&ray([0.0, 0.0, 0.0], [0.0, 1.0, 0.0]), n(0.001), n(100.0)).unwrap();
    assert_eq!((f(inside.t), arr(inside.normal)), (5.0, [0.0, -1.0, 0.0]));
}

fn two_spheres() -> Vec<Sphere> {
    vec![
        Sphere::new(v3([0.0, 0.0, -1.0]), n(0.5), 0, 0),
        Sphere::new(v3([0.0, -100.5, -1.0]), n(100.0), 1, 0),
    ]
}

fn list_of(spheres: Vec<Sphere>) -> HittableList {
    let mut world = HittableList::new();
    for s in spheres {
        world.push(Object::Sphere(s));
    }
    world
}

#[test]
fn test_hit() {
    let world = list_of(two_spheres());
    let r = ray([0.0, 0.0, 0.0], [0.0, 0.0, -1.0]);
    assert!(world.hit(&r, n(0.0), n(100.0), &vec![]).is_some());
}

#[test]
fn test_sphere_array_hit() {
    let sphere_array = SphereArray::new(&two_spheres());
    let r = ray([0.0, 0.0, 0.0], [0.0, 0.0, -1.0]);
    assert!(sphere_array.hit_all(&r, n(0.0), n(100.0)).is_some());
    let rec = sphere_array.hit(&r, n(0.0), n(100.0), &vec![1, 0]).unwrap();
    assert_eq!((f(rec.t), rec.material), (0.5, 0));
}

#[test]
fn a_list_keeps_the_closest_hit_strictly_inside() {
    let world = list_of(vec![
        Sphere::new(v3([0.0, 0.0, -5.0]), n(1.0), 0, 0),
        Sphere::new(v3([0.0, 0.0, -2.0]), n(0.5), 1, 0),
        Sphere::new(v3([0.0, 0.0, -2.0]), n(0.5), 2, 0),
        Sphere::new(v3([0.0, 3.0, 0.0]), n(1.0), 3, 0),
    ]);
    let r = ray([0.0, 0.0, 0.0], [0.0, 0.0, -1.0]);
    let rec = world.hit(&r, n(0.001), n(f32::INFINITY), &vec![]).unwrap();
    assert_eq!((f(rec.t), rec.material), (1.5, 1));
    let rec = world.hit(&r, n(1.6), n(f32::INFINITY), &vec![]).unwrap();
    assert_eq!((f(rec.t), rec.material), (2.5, 1));
    // the ends of the interval are left out: a sphere whose nearer root is
    // an end answers with the farther one
    let rec = world.hit(&r, n(1.5), n(f32::INFINITY), &vec![]).unwrap();
    assert_eq!((f(rec.t), rec.material), (2.5, 1));
    let rec = world.hit(&r, n(2.6), n(f32::INFINITY), &vec![]).unwrap();
    assert_eq!((f(rec.t), rec.material), (4.0, 0));
    assert!(world.hit(&r, n(6.0), n(f32::INFINITY), &vec![]).is_none());
    assert!(world.hit(&r, n(0.001), n(1.5), &vec![]).is_none());
    assert!(world.hit(&r, n(f32::NAN), n(100.0), &vec![]).is_none());
    assert!(HittableList::new().hit(&r, n(0.0), n(100.0), &vec![]).is_none());
}

#[test]
fn of_two_hits_as_near_the_earlier_member_is_reported() {
    // two spheres in one place, of different materials, and a third behind them
    let spheres = vec![
        Sphere::new(v3([0.0, 0.0, -9.0]), n(1.0), 5, 0),
        Sphere::new(v3([0.0, 0.0, -3.0]), n(1.0), 6, 0),
        Sphere::new(v3([0.0, 0.0, -3.0]), n(1.0), 7, 0),
        Sphere::new(v3([0.0, 0.0, -3.0]), n(1.0), 8, 0),
    ];
    let cluster = SphereArray::new(&spheres);
    let r = ray([0.0, 0.0, 0.0], [0.0, 0.0, -1.0]);
    let (t_min, t_max) = (n(0.001), n(f32::INFINITY));
    let scan = cluster.hit_all(&r, t_min, t_max).unwrap();
    assert_eq!((f(scan.t), scan.material), (2.0, 6));
    for candidates in [vec![0, 1, 2, 3], vec![3, 2, 1, 0], vec![2, 0, 3, 1], vec![3, 1, 1, 2, 99, 0], vec![2, 3, 1]] {
        assert_eq!(cluster.hit(&r, t_min, t_max, &candidates), Some(scan), "{candidates:?}");
        assert_eq!(closest_among(&spheres, &candidates, &r, t_min, t_max), Some(scan));
    }
    // a traversal that leaves a hit member out is not complete, and the answer shows it
    assert_eq!(cluster.hit(&r, t_min, t_max, &vec![3, 2]).map(|h| h.material), Some(7));
    assert_eq!(cluster.hit(&r, t_min, t_max, &vec![0]).map(|h| (f(h.t), h.material)), Some((8.0, 5)));
    assert_eq!(cluster.hit(&r, t_min, t_max, &vec![]), None);
}

#[test]
fn candidates_that_leave_out_no_hit_give_the_same_hit() {
    let mut dice = Dice(41);
    let mut spheres = Vec::new();
    for i in 0..40 {
        spheres.push(Sphere::new(v3(dice.vector(10.0)), n(dice.between(0.3, 1.5)), i, 0));
    }
    let cluster = SphereArray::new(&spheres);
    let mut found = 0;
    for _ in 0..400 {
        let r = ray(dice.vector(12.0), dice.vector(1.0));
        let linear = cluster.hit_all(&r, n(0.001), n(f32::INFINITY));
        // the candidates: every sphere that the ray hits at all, in a shuffled order, and some more
        let mut candidates: Vec<usize> = (0..spheres.len())
            .filter(|&i| spheres[i].hit(&r, n(0.001), n(f32::INFINITY)).is_some() || i % 7 == 0)
            .collect();
        candidates.reverse();
        candidates.push(999);
        let pruned = cluster.hit(&r, n(0.001), n(f32::INFINITY), &candidates);
        assert_eq!(linear, pruned);
        assert_eq!(linear, closest_of_all(&spheres, &r, n(0.001), n(f32::INFINITY)));
        assert_eq!(pruned, closest_among(&spheres, &candidates, &r, n(0.001), n(f32::INFINITY)));
        let mut world = HittableList::new();
        world.push(Object::SphereArray(SphereArray::new(&spheres)));
        let traversals: Vec<Traversal> = vec![Some(candidates)];
        assert_eq!(world.hit(&r, n(0.001), n(f32::INFINITY), &traversals), linear);
        assert_eq!(world.hit(&r, n(0.001), n(f32::INFINITY), &vec![None]), linear);
        if let Some(h) = linear {
            found += 1;
            assert!(f(h.t) > 0.001);
        }
    }
    assert!(found > 20);
}

fn materials() -> Vec<Material> {
    vec![
        Material::Lambertian(Lambertian::new(v3([0.5, 0.5, 0.5]))),
        Material::DiffuseLight(DiffuseLight::new(v3([1.0, 1.0, 1.0]), n(8.0))),
    ]
}

#[test]
fn lights_are_found_in_order() {
    let m = materials();
    let mut world = HittableList::new();
    world.push(Object::Sphere(Sphere::new(v3([0.0, 0.0, 0.0]), n(1.0), 0, 0)));
    world.push(Object::Rectangle(Rectangle::XZRectangle(XZRectangle::new(n(-1.0), n(1.0), n(-1.0), n(1.0), n(5.0), 1, 0))));
    world.push(Object::BBox(BBox::new(v3([0.0, 0.0, 0.0]), v3([1.0, 1.0, 1.0]), 0)));
    world.push(Object::Triangle(unit_triangle()));
    world.push(Object::SphereArray(SphereArray::new(&vec![
        Sphere::new(v3([0.0, 0.0, 0.0]), n(1.0), 0, 0),
        Sphere::new(v3([3.0, 0.0, 0.0]), n(1.0), 1, 0),
    ])));
    world.push(Object::Sphere(Sphere::new(v3([0.0, 9.0, 0.0]), n(1.0), 7, 0)));
    assert_eq!(world.get_lights(&m), vec![1, 4]);
    assert!(world.is_light(&m));
    assert_eq!(world.objects[4].len(), 2);
    assert_eq!(world.objects[0].len(), 1);
    assert!(!HittableList::new().is_light(&m));
    assert_eq!(HittableList::new().get_lights(&m), Vec::<usize>::new());
}

#[test]
fn the_light_set_holds_the_lights_and_the_environment() {
    let m = materials();
    let mut world = HittableList::new();
    world.push(Object::Sphere(Sphere::new(v3([0.0, 0.0, 0.0]), n(1.0), 0, 0)));
    world.push(Object::Rectangle(Rectangle::XZRectangle(XZRectangle::new(n(-1.0), n(1.0), n(-1.0), n(1.0), n(5.0), 1, 0))));
    world.push(Object::Triangle(unit_triangle()));
    world.push(Object::SphereArray(SphereArray::new(&vec![
        Sphere::new(v3([0.0, 7.0, 0.0]), n(1.0), 0, 0),
        Sphere::new(v3([3.0, 7.0, 0.0]), n(1.0), 1, 0),
    ])));
    let sky = Sphere::new(v3([0.0, 0.0, 0.0]), n(1000.0), 1, 0);
    let set = LightSet::new(&world, &m, Some(sky));
    assert_eq!(set.places, vec![1, 3]);
    assert_eq!(set.environment, Some(sky));
    assert_eq!(set.len(), Some(3));
    let bare = LightSet::new(&world, &m, None);
    assert_eq!((bare.places.clone(), bare.environment, bare.len()), (vec![1, 3], None, Some(2)));

    let origin = v3([0.25, 1.0, 0.5]);
    let direction = v3([0.0, 1.0, 0.0]);
    let d1 = f(world.objects[1].pdf_value(&origin, &direction));
    let d3 = f(world.objects[3].pdf_value(&origin, &direction));
    let ds = f(sky.pdf_value(&origin));
    assert!(d1 > 0.0 && d3 > 0.0 && ds > 0.0);
    // from within, a sphere fills a half space
    assert_eq!(ds, 1.0 / (2.0 * std::f32::consts::PI * (1.0 - 0.0)));
    let inward = sky.random(&origin, n(0.0), n(1.0), n(0.0));
    assert!(f(inward.dot(&v3([-0.25, -1.0, -0.5]))).abs() < 1e-6);
    let w = 1.0f32 / 3.0;
    assert_eq!(f(set.pdf_value(&world, &origin, &direction)), ((0.0 + w * d1) + w * d3) + w * ds);
    let w = 1.0f32 / 2.0;
    assert_eq!(f(bare.pdf_value(&world, &origin, &direction)), (0.0 + w * d1) + w * d3);

    let samples = LightSamples { first: n(0.25), second: n(0.75), cos_phi: n(0.6), sin_phi: n(0.8) };
    assert_eq!(bits(set.random(&world, 0, 0, &origin, &samples)), bits(world.objects[1].random(0, &origin, &samples)));
    assert_eq!(bits(set.random(&world, 1, 1, &origin, &samples)), bits(world.objects[3].random(1, &origin, &samples)));
    assert_ne!(bits(set.random(&world, 1, 1, &origin, &samples)), bits(set.random(&world, 1, 0, &origin, &samples)));
    assert_eq!(
        bits(set.random(&world, 2, 0, &origin, &samples)),
        bits(sky.random(&origin, samples.first, samples.cos_phi, samples.sin_phi))
    );
    assert_eq!(arr(set.random(&world, 3, 0, &origin, &samples)), [1.0, 0.0, 0.0]);
    assert_eq!(arr(bare.random(&world, 2, 0, &origin, &samples)), [1.0, 0.0, 0.0]);

    let mut seen = [[false; 2]; 3];
    for _ in 0..600 {
        let (pick, member) = set.draw(&world).expect("the set holds lights");
        assert!(pick < 3 && member < [1, 2, 1][pick]);
        seen[pick][member] = true;
    }
    assert_eq!(seen, [[true, false], [true, true], [true, false]]);
    for _ in 0..100 {
        let (pick, _) = bare.draw(&world).expect("the set holds lights");
        assert!(pick < 2);
    }
    assert_eq!(LightSet::new(&HittableList::new(), &m, None).draw(&world), None);
    assert_eq!(LightSet::new(&HittableList::new(), &m, None).len(), Some(0));
    let hollow = LightSet { places: vec![3], environment: None };
    let mut empty = HittableList::new();
    for _ in 0..3 {
        empty.push(Object::Sphere(sky));
    }
    empty.push(Object::SphereArray(SphereArray::new(&vec![])));
    assert_eq!(hollow.draw(&empty), Some((0, 0)));
}

#[test]
fn a_scene_names_materials_of_its_table() {
    let mut world = HittableList::new();
    world.push(Object::Sphere(Sphere::new(v3([0.0, 0.0, -3.0]), n(1.0), 0, 0)));
    world.push(Object::Rectangle(Rectangle::XZRectangle(XZRectangle::new(n(-1.0), n(1.0), n(-1.0), n(1.0), n(5.0), 1, 0))));
    world.push(Object::Triangle(unit_triangle()));
    world.push(Object::BBox(BBox::new(v3([0.0, 0.0, 0.0]), v3([1.0, 1.0, 1.0]), 2)));
    world.push(Object::SphereArray(SphereArray::new(&vec![
        Sphere::new(v3([0.0, 7.0, 0.0]), n(1.0), 0, 0),
        Sphere::new(v3([3.0, 7.0, 0.0]), n(1.0), 3, 0),
    ])));
    world.push(Object::SphereArray(SphereArray::new(&vec![])));
    assert!(world.materials_within(4));
    assert!(world.materials_within(usize::MAX));
    assert!(!world.materials_within(3));
    assert!(!world.materials_within(0));
    let within: Vec<bool> = world.objects.iter().map(|o| o.materials_within(2)).collect();
    assert_eq!(within, [true, true, unit_triangle().material < 2, false, false, true]);
    assert!(HittableList::new().materials_within(0));
    // a hit names the material of what was hit
    let mut dice = Dice(61);
    let mut hits = 0;
    for _ in 0..600 {
        let from = dice.vector(9.0);
        let r = ray(from, sub(dice.vector(2.0), from));
        if let Some(h) = world.hit(&r, n(0.001), n(f32::INFINITY), &vec![]) {
            assert!(h.material < 4);
            hits += 1;
        }
    }
    assert!(hits > 50);
}

#[test]
fn objects_are_lights_by_their_material() {
    let m = materials();
    assert!(!Sphere::new(v3([0.0, 0.0, 0.0]), n(1.0), 0, 0).is_light(&m));
    assert!(Sphere::new(v3([0.0, 0.0, 0.0]), n(1.0), 1, 0).is_light(&m));
    let lit = Rectangle::XZRectangle(XZRectangle::new(n(-1.0), n(1.0), n(-1.0), n(1.0), n(5.0), 1, 0));
    assert!(lit.is_light(&m));
    assert!(!unit_triangle().is_light(&m));
    assert!(!BBox::new(v3([0.0, 0.0, 0.0]), v3([1.0, 1.0, 1.0]), 0).is_light(&m));
    assert!(BBox::new(v3([0.0, 0.0, 0.0]), v3([1.0, 1.0, 1.0]), 1).is_light(&m));
    assert!(!SphereArray::new(&vec![]).is_light(&m));
    // a material that the table does not have is no light
    assert!(!Sphere::new(v3([0.0, 0.0, 0.0]), n(1.0), 2, 0).is_light(&m));
    assert!(!Sphere::new(v3([0.0, 0.0, 0.0]), n(1.0), 1, 0).is_light(&vec![]));
    let dangling = Rectangle::XZRectangle(XZRectangle::new(n(-1.0), n(1.0), n(-1.0), n(1.0), n(5.0), 9, 0));
    assert!(!dangling.is_light(&m));
    let up = v3([0.0, 0.0, 1.0]);
    let lit = Triangle::new((v3([0.0, 0.0, 0.0]), v3([1.0, 0.0, 0.0]), v3([0.0, 1.0, 0.0])), (up, up, up), 1, 0);
    assert!(lit.is_light(&m) && !lit.is_light(&vec![]));
}

#[test]
fn the_density_of_a_list_is_the_mean_of_its_members() {
    let a = XZRectangle::new(n(-1.0), n(1.0), n(-1.0), n(1.0), n(5.0), 1, 0);
    let b = XZRectangle::new(n(-2.0), n(2.0), n(-2.0), n(2.0), n(8.0), 1, 0);
    let mut lights = HittableList::new();
    lights.push(Object::Rectangle(Rectangle::XZRectangle(a)));
    lights.push(Object::Rectangle(Rectangle::XZRectangle(b)));
    lights.push(Object::Sphere(Sphere::new(v3([5.0, 5.0, 5.0]), n(1.0), 1, 0)));
    let o = v3([0.0, 0.0, 0.0]);
    let d = v3([0.1, 1.0, 0.1]);
    let w = 1.0f32 / 3.0;
    let pa = f(a.pdf_value(&o, &d));
    let pb = f(b.pdf_value(&o, &d));
    let ps = f(Sphere::new(v3([5.0, 5.0, 5.0]), n(1.0), 1, 0).pdf_value(&o));
    assert!(pa > 0.0 && pb > 0.0 && ps > 0.0);
    assert_eq!(f(lights.pdf_value(&o, &d)), 0.0 + w * pa + w * pb + w * ps);
    let cos_max = (1.0f32 - (1.0 * 1.0) / 75.0).sqrt();
    assert_eq!(ps, 1.0 / (2.0 * std::f32::consts::PI * (1.0 - cos_max)));
    let samples = LightSamples { first: n(0.25), second: n(0.75), cos_phi: n(1.0), sin_phi: n(0.0) };
    assert_eq!(arr(lights.random(0, 0, &o, &samples)), [-0.5, 5.0, 0.5]);
    assert_eq!(arr(lights.random(1, 0, &o, &samples)), [-1.0, 8.0, 1.0]);
    assert_eq!(arr(lights.random(9, 0, &o, &samples)), [1.0, 0.0, 0.0]);
    let to_sphere = arr(lights.random(2, 0, &o, &samples));
    assert!(dot(unit(to_sphere), unit([5.0, 5.0, 5.0])) >= cos_max - 1e-5);
}

#[test]
fn members_are_picked_within_the_aggregate() {
    assert_eq!(random_member(0), None);
    assert_eq!(random_member(1), Some(0));
    let mut seen = [false; 4];
    for _ in 0..400 {
        let i = random_member(4).unwrap();
        seen[i] = true;
        let j = random_usize_range(3, 7);
        assert!((3..7).contains(&j));
    }
    assert_eq!(seen, [true; 4]);
}

#[test]
fn bases_are_orthonormal() {
    assert_eq!(arr(ONB::helper_axis(&v3([1.0, 0.0, 0.0]))), [0.0, 1.0, 0.0]);
    assert_eq!(arr(ONB::helper_axis(&v3([-0.95, 0.3, 0.0]))), [0.0, 1.0, 0.0]);
    assert_eq!(arr(ONB::helper_axis(&v3([0.9, 0.3, 0.3]))), [1.0, 0.0, 0.0]);
    let b = ONB::new();
    assert_eq!((arr(b.u), arr(b.v), arr(b.w)), ([0.0; 3], [0.0; 3], [0.0; 3]));
    let mut dice = Dice(43);
    for _ in 0..300 {
        let d = dice.vector(3.0);
        let mut onb = ONB::new();
        onb.build_from_w(&v3(d));
        let (u, v, w) = (arr(onb.u), arr(onb.v), arr(onb.w));
        assert_eq!(vbits(w), vbits(unit(d)));
        assert!(dot(u, v).abs() < 1e-5 && dot(u, w).abs() < 1e-5 && dot(v, w).abs() < 1e-5);
        assert!((dot(u, u) - 1.0).abs() < 1e-5 && (dot(v, v) - 1.0).abs() < 1e-5);
        let a = dice.vector(1.0);
        let want = add(add(scale(u, a[0]), scale(v, a[1])), scale(w, a[2]));
        assert_eq!(bits(onb.local_vec(&v3(a))), vbits(want));
    }
}

#[test]
fn the_cosine_density_is_normalized() {
    let normal = [0.0f32, 0.6, 0.8];
    let pdf = CosinePDF::new(&v3(normal));
    assert_eq!(vbits(arr(pdf.uvw.w)), vbits(unit(normal)));
    assert_eq!(f(pdf.value(&v3(normal))), dot(unit(normal), unit(normal)) / std::f32::consts::PI);
    assert_eq!(f(pdf.value(&v3([0.0, -0.6, -0.8]))), 0.0);
    let mut dice = Dice(47);
    let count = 20000;
    let mut sum = 0.0f64;
    for _ in 0..count {
        let phi = 2.0 * std::f32::consts::PI * dice.uniform();
        let d = pdf.generate(n(dice.uniform()), n(phi.cos()), n(phi.sin()));
        let da = arr(d);
        assert!((dot(da, da) - 1.0).abs() < 1e-4);
        if dot(da, unit(normal)) > 0.0 {
            // the mean of cos θ under the density cos θ / π, which is 2/3
            sum += (f(pdf.value(&d)) * std::f32::consts::PI) as f64;
        }
    }
    let mean = sum / count as f64;
    assert!((mean - 2.0 / 3.0).abs() < 0.01, "{mean}");
    // over directions spread evenly, the density times π averages to
    // 1/(2π) ∫ cos θ dΩ = 1/2
    let mut even = 0.0f64;
    for _ in 0..count {
        let a = dice.between(0.0, 2.0 * std::f32::consts::PI);
        let d = random_unit_vector(n(a.cos()), n(a.sin()), n(dice.uniform()));
        let up = if dot(arr(d), unit(normal)) > 0.0 { d } else { d.neg() };
        even += (f(pdf.value(&up)) * std::f32::consts::PI) as f64;
    }
    let mean = even / count as f64;
    assert!((mean - 0.5).abs() < 0.01, "{mean}");
    assert_eq!(arr(random_cosine_direction(n(0.25), n(1.0), n(0.0))), [0.5, 0.0, 0.75f32.sqrt()]);
    assert_eq!(HittablePDF::new(v3([1.0, 2.0, 3.0]), 4).target, 4);
    let mut world = HittableList::new();
    world.push(Object::Sphere(Sphere::new(v3([0.0, 9.0, 0.0]), n(1.0), 0, 0)));
    world.push(Object::SphereArray(SphereArray::new(&vec![
        Sphere::new(v3([5.0, 0.0, 0.0]), n(1.0), 0, 0),
        Sphere::new(v3([0.0, 0.0, 5.0]), n(2.0), 0, 0),
    ])));
    let from = v3([0.5, 0.25, 0.0]);
    let samples = LightSamples { first: n(0.3), second: n(0.6), cos_phi: n(0.8), sin_phi: n(0.6) };
    let towards = v3([0.0, 1.0, 0.0]);
    for target in 0..2 {
        let pdf = HittablePDF::new(from, target);
        assert_eq!(pdf.value(&world, &towards), world.objects[target].pdf_value(&from, &towards));
        assert!(f(pdf.value(&world, &towards)) > 0.0);
        for member in 0..2 {
            assert_eq!(bits(pdf.generate(&world, member, &samples)), bits(world.objects[target].random(member, &from, &samples)));
        }
    }
    assert_ne!(
        bits(HittablePDF::new(from, 1).generate(&world, 0, &samples)),
        bits(HittablePDF::new(from, 1).generate(&world, 1, &samples))
    );
    assert_eq!(f(HittablePDF::new(from, 2).value(&world, &towards)), 0.0);
    assert_eq!(arr(HittablePDF::new(from, 2).generate(&world, 0, &samples)), [1.0, 0.0, 0.0]);
}

#[test]
fn test_random_f32_range() {
    let mut dice = Dice(53);
    for _ in 0..1000 {
        let r = f(random_f32_range(n(dice.uniform()), n(0.0), n(1.0)));
        assert!(r >= 0.0 && r < 1.0);
    }
}

#[test]
fn test_random_in_unit_disk() {
    let mut dice = Dice(59);
    let mut taken = 0;
    for _ in 0..1000 {
        if let Some(r) = random_in_unit_disk(n(dice.uniform()), n(dice.uniform())) {
            taken += 1;
            assert!(f(r.dot(&r)) < 1.0);
            assert_eq!(f(r.z), 0.0);
        }
    }
    assert!(taken > 700 && taken < 850);
}

#[test]
fn test_random_unit_vector() {
    let mut dice = Dice(61);
    for _ in 0..1000 {
        let a = dice.between(0.0, 2.0 * std::f32::consts::PI);
        let r = random_unit_vector(n(a.cos()), n(a.sin()), n(dice.uniform()));
        assert!(f(r.length()) - 1.0 <= 0.0001);
        assert!((f(r.length()) - 1.0).abs() <= 0.0001);
    }
}

#[test]
fn test_random_in_unit_sphere() {
    let mut dice = Dice(67);
    let mut taken = 0;
    for _ in 0..1000 {
        if let Some(r) = random_in_unit_sphere(n(dice.uniform()), n(dice.uniform()), n(dice.uniform())) {
            taken += 1;
            assert!(f(r.dot(&r)) < 1.0);
            assert!(in_unit_ball(&r));
        }
    }
    assert!(taken > 450 && taken < 600);
}

#[test]
fn a_moved_object_is_hit_where_it_stands() {
    let sphere = Sphere::new(v3([0.0, 0.0, -1.0]), n(0.5), 3, 0);
    let mut moved = Translate::new(sphere, v3([10.0, 0.0, 0.0]), 0);
    use_hittable(&moved);
    let r = ray([10.0, 0.0, 0.0], [0.0, 0.0, -1.0]);
    let rec = raytracer::hittable_list::Hittable::hit(&moved, &r, n(0.0), n(100.0)).unwrap();
    assert_eq!(f(rec.t), 0.5);
    assert_eq!(arr(rec.p), [10.0, 0.0, -0.5]);
    assert_eq!(arr(rec.normal), [0.0, 0.0, 1.0]);
    assert!(rec.front_face);
    assert_eq!(rec.material, 3);
    let miss = ray([0.0, 0.0, 0.0], [0.0, 0.0, -1.0]);
    assert!(raytracer::hittable_list::Hittable::hit(&moved, &miss, n(0.0), n(100.0)).is_none());
    let b = moved.aabb(&sphere.aabb());
    assert_eq!(arr(b.min), [9.5, -0.5, -1.5]);
    assert_eq!(arr(b.max), [10.5, 0.5, -0.5]);
    moved.set_bh_node_index(4);
    assert_eq!(moved.bh_node_index(), 4);
    let both = vec![Translate::new(sphere, v3([10.0, 0.0, 0.0]), 0), Translate::new(sphere, v3([10.0, 0.0, -3.0]), 0)];
    assert_eq!(closest_of_all(&both, &r, n(0.0), n(100.0)), Some(rec));
}

fn use_hittable<T: raytracer::hittable_list::Hittable>(object: &T) {
    assert_eq!(object.material(), 3);
}
