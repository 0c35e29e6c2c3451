use bvh::aabb::{Bounded, AABB};
use bvh::bounding_hierarchy::BHShape;
use bvh::bvh::BVH;
use bvh::ray::Ray as BvhRay;
use bvh::{Point3 as BvhPoint3, Vector3 as BvhVector3};

use raytracer::bbox::{Aabb, BBox};
use raytracer::hittable_list::{HittableList, Object, Traversal};
use raytracer::mesh::{Mat3, Mesh, Placement, Turn};
use raytracer::ray::Ray;
use raytracer::scalar::Scalar;
use raytracer::sphere::Sphere;
use raytracer::sphere_array::SphereArray;
use raytracer::vec3::Vec3;

fn s(x: f32) -> Scalar {
    Scalar::from_bits(x.to_bits())
}

fn fl(x: Scalar) -> f32 {
    f32::from_bits(x.to_bits())
}

fn v(a: [f32; 3]) -> Vec3 {
    Vec3::new(s(a[0]), s(a[1]), s(a[2]))
}

/// The box of a member, with the member's place in its aggregate.
struct Shape {
    bounds: AABB,
    place: usize,
    node_index: usize,
}

impl Bounded for Shape {
    fn aabb(&self) -> AABB {
        self.bounds
    }
}

impl BHShape for Shape {
    fn set_bh_node_index(&mut self, index: usize) {
        self.node_index = index;
    }

    fn bh_node_index(&self) -> usize {
        self.node_index
    }
}

struct Hierarchy {
    bvh: BVH,
    shapes: Vec<Shape>,
}

fn point(p: &Vec3) -> BvhPoint3 {
    BvhPoint3::new(fl(p.x), fl(p.y), fl(p.z))
}

impl Hierarchy {
    fn build(boxes: &[Aabb]) -> Option<Hierarchy> {
        if boxes.is_empty() {
            return None;
        }
        let mut shapes: Vec<Shape> = boxes
            .iter()
            .enumerate()
            .map(|(place, b)| Shape { bounds: AABB::with_bounds(point(&b.min), point(&b.max)), place, node_index: 0 })
            .collect();
        let bvh = BVH::build(&mut shapes);
        Some(Hierarchy { bvh, shapes })
    }

    fn candidates(&self, ray: &Ray) -> Vec<usize> {
        let direction = BvhVector3::new(fl(ray.direction.x), fl(ray.direction.y), fl(ray.direction.z));
        let walk = BvhRay::new(point(&ray.origin), direction);
        self.bvh.traverse(&walk, &self.shapes).iter().map(|shape| shape.place).collect()
    }
}

struct Dice(u64);

impl Dice {
    fn next(&mut self) -> f32 {
        self.0 = self.0.wrapping_mul(6364136223846793005).wrapping_add(1442695040888963407);
        ((self.0 >> 40) as f32) / 16777216.0
    }

    fn between(&mut self, lo: f32, hi: f32) -> f32 {
        lo + (hi - lo) * self.next()
    }

    fn vector(&mut self, reach: f32) -> [f32; 3] {
        [self.between(-reach, reach), self.between(-reach, reach), self.between(-reach, reach)]
    }
}

fn lumpy_mesh(dice: &mut Dice) -> Mesh {
    let mut vertices = Vec::new();
    for _ in 0..60 {
        vertices.push(v(dice.vector(3.0)));
    }
    let mut faces = Vec::new();
    for i in 0..58 {
        faces.push((i, i + 1, i + 2));
    }
    let still = Turn { sin: s(0.0), cos: s(1.0) };
    let placement =
        Placement { position: v([0.0, 0.0, 0.0]), scaling_factor: s(6.0), rotation: Mat3::from_euler(still, still, still) };
    Mesh::new(&vertices, &faces, &placement, 0).expect("the faces name vertices of the mesh")
}

#[test]
fn a_hierarchy_finds_the_hit_that_a_scan_finds() {
    let mut dice = Dice(97);
    let mut spheres = Vec::new();
    for i in 0..80 {
        spheres.push(Sphere::new(v(dice.vector(10.0)), s(dice.between(0.2, 1.2)), i, 0));
    }
    let mut world = HittableList::new();
    world.push(Object::SphereArray(SphereArray::new(&spheres)));
    world.push(Object::Sphere(Sphere::new(v([0.0, -1000.0, 0.0]), s(990.0), 0, 0)));
    world.push(Object::BBox(BBox::new(v([2.0, 3.0, -1.0]), v([3.0, 2.0, 4.0]), 1)));
    world.push(Object::Mesh(lumpy_mesh(&mut dice)));
    world.push(Object::SphereArray(SphereArray::new(&vec![])));
    let hierarchies: Vec<Option<Hierarchy>> = world.objects.iter().map(|o| Hierarchy::build(&o.member_boxes())).collect();
    assert_eq!(hierarchies.iter().map(|h| h.is_some()).collect::<Vec<bool>>(), [true, false, true, true, false]);
    let counts: Vec<usize> = world.objects.iter().map(|o| o.member_boxes().len()).collect();
    assert_eq!(counts, [80, 0, 6, 58, 0]);
    assert_eq!(world.objects[0].member_boxes()[3], spheres[3].aabb());
    match &world.objects[3] {
        Object::Mesh(m) => assert_eq!(world.objects[3].member_boxes()[5], m.triangles[5].aabb()),
        other => panic!("{other:?}"),
    }
    match &world.objects[2] {
        Object::BBox(b) => assert_eq!(world.objects[2].member_boxes()[4], b.faces[4].aabb()),
        other => panic!("{other:?}"),
    }
    let scan: Vec<Traversal> = vec![None; 5];
    let (mut hits, mut pruned) = ([0usize; 4], 0usize);
    for _ in 0..1500 {
        let from = dice.vector(12.0);
        let towards = dice.vector(4.0);
        let ray = Ray::new(v(from), v([towards[0] - from[0], towards[1] - from[1], towards[2] - from[2]]));
        let traversals: Vec<Traversal> =
            hierarchies.iter().map(|h| h.as_ref().map(|h| h.candidates(&ray))).collect();
        pruned += traversals.iter().flatten().map(|c| c.len()).sum::<usize>();
        let (t_min, t_max) = (s(0.001), s(f32::INFINITY));
        let got = world.hit(&ray, t_min, t_max, &traversals);
        assert_eq!(got, world.hit(&ray, t_min, t_max, &scan));
        for (place, object) in world.objects.iter().enumerate() {
            let through = object.hit(&ray, t_min, t_max, &traversals[place]);
            assert_eq!(through, object.hit(&ray, t_min, t_max, &None));
            if through.is_some() && place < 4 {
                hits[place] += 1;
            }
        }
    }
    assert!(hits.iter().all(|&n| n > 30), "{hits:?}");
    // the hierarchies spare most of the members
    assert!(pruned < 1500 * (80 + 6 + 58) / 4, "{pruned}");
}
