use raytracer::camera::Camera;
use raytracer::color::to_rgb;
use raytracer::config::Constants;
use raytracer::hit_record::HitRecord;
use raytracer::hittable_list::{HittableList, LightSamples, LightSet, Object};
use raytracer::integrator::{
    accumulate, bounce_direction, bounce_pdf, environment_point, gather, mixture_pdf, sky, terminal_color, Action,
    Event, Frame, Limits, Scatter, Terminal, Walk,
};
use raytracer::material::{Dielectric, DiffuseLight, Lambertian, Material, Samples, ScatterRecord};
use raytracer::pdf::CosinePDF;
use raytracer::ray::Ray;
use raytracer::raytracer::{store_row, Built, Canvas};
use raytracer::rectangle::{Rectangle, XYRectangle, XZRectangle, YZRectangle};
use raytracer::sampling_filters::{pixel_coordinates, FilterKind};
use raytracer::scalar::Scalar;
use raytracer::sphere::{sphere_uv, uv_arguments, Sphere};
use raytracer::texture::{ChessBoard, GradientColor, Picture, SolidColor, Texture};
use raytracer::utility::{load_environment, near_zero, random_in_unit_disk, random_in_unit_sphere};
use raytracer::vec3::{Color, Point3, Vec3};

fn k(x: f32) -> Scalar {
    Scalar::from_bits(x.to_bits())
}

fn fl(s: Scalar) -> f32 {
    f32::from_bits(s.to_bits())
}

fn pt(x: f32, y: f32, z: f32) -> Vec3 {
    Vec3::new(k(x), k(y), k(z))
}

fn random_f32() -> Scalar {
    k(fastrand::f32())
}

fn angle() -> (Scalar, Scalar) {
    let (sin, cos) = (fastrand::f32() * (2.0 * std::f32::consts::PI)).sin_cos();
    (k(cos), k(sin))
}

fn point_in_disk() -> Vec3 {
    loop {
        if let Some(p) = random_in_unit_disk(random_f32(), random_f32()) {
            return p;
        }
    }
}

fn point_in_ball() -> Vec3 {
    loop {
        if let Some(p) = random_in_unit_sphere(random_f32(), random_f32(), random_f32()) {
            return p;
        }
    }
}

/// A scene ready to be rendered.
struct Scene {
    world: HittableList,
    materials: Vec<Material>,
    lights: LightSet,
    environment: Option<Sphere>,
    limits: Limits,
    filter: FilterKind,
}

struct Settings {
    max_depth: u32,
    min_depth: u32,
    distance: Option<f32>,
    intensity: Option<f32>,
    picture: Option<Picture>,
}

fn settings(max_depth: u32, min_depth: u32) -> Settings {
    Settings { max_depth, min_depth, distance: None, intensity: None, picture: None }
}

fn prepare(objects: Vec<(Object, Material)>, settings: Settings) -> Scene {
    let mut built = Built::new();
    for (object, material) in objects {
        built.add_material(material);
        built.world.push(object);
    }
    let mut constants = Constants::default();
    constants.max_depth = settings.max_depth;
    constants.min_depth = settings.min_depth;
    constants.environment_map = settings.picture.as_ref().map(|_| "sky.png".to_string());
    let environment = load_environment(&constants, settings.distance.map(k), settings.intensity.map(k));
    let stage = built.stage(&constants, &environment, settings.picture);
    assert!(built.world.materials_within(built.materials.len()));
    Scene {
        world: built.world,
        materials: built.materials,
        lights: stage.lights,
        environment: stage.environment,
        limits: stage.limits,
        filter: stage.filter,
    }
}

fn value(texture: &Texture, u: Scalar, v: Scalar, p: &Point3) -> Color {
    match texture {
        Texture::SolidColor(solid) => solid.value(),
        Texture::ChessBoard(board) => {
            let at = board.arguments(p);
            let sines = pt(fl(at.x).sin(), fl(at.y).sin(), fl(at.z).sin());
            value(board.select(&sines), u, v, p)
        }
        Texture::GradientColor(gradient) => {
            let bottom = value(&gradient.bottom, u, v, p);
            let top = value(&gradient.top, u, v, p);
            GradientColor::blend(p, &bottom, &top)
        }
        Texture::ImageTexture(t) => t.value(u, v),
        Texture::EnvironmentMapTexture(t) => t.value(u, v),
    }
}

fn surface_uv(rec: &HitRecord) -> (Scalar, Scalar) {
    if !rec.spherical {
        return (rec.u, rec.v);
    }
    let (minus_z, x, minus_y) = uv_arguments(&rec.outward_normal());
    let longitude = fl(minus_z).atan2(fl(x));
    let colatitude = fl(minus_y).acos();
    sphere_uv(k(longitude), k(colatitude))
}

/// The radiance along a ray: the caller's side of the integrator.
fn ray_color(first: &Ray, scene: &Scene) -> Color {
    let black = pt(0.0, 0.0, 0.0);
    let mut walk = Walk::begin();
    let mut frames: Vec<Frame> = Vec::new();
    let mut ray = *first;
    let mut event = Event::Ray;
    let mut hit: Option<HitRecord> = None;
    let mut environment = black;
    let mut emitted = black;
    let mut scattering: Option<ScatterRecord> = None;
    loop {
        let (next, action) = walk.step(&scene.limits, event).expect("the integrator and its caller are in step");
        walk = next;
        match action {
            Action::TraceScene => {
                hit = scene.world.hit(&ray, near_zero(), Scalar::infinity(), &vec![]);
                event = Event::Scene { hit: hit.is_some() };
            }
            Action::TraceEnvironment => {
                let met = scene.environment.and_then(|e| e.hit(&ray, near_zero(), Scalar::infinity()));
                if let Some(rec) = met {
                    let (u, v) = surface_uv(&rec);
                    let material = &scene.materials[rec.material];
                    environment = material.emitted(value(material.albedo(), u, v, &environment_point(&rec)));
                }
                event = Event::Environment { hit: met.is_some() };
            }
            Action::Shade => {
                let rec = hit.expect("a hit is shaded");
                let material = &scene.materials[rec.material];
                let (u, v) = surface_uv(&rec);
                let shade = value(material.albedo(), u, v, &rec.p);
                emitted = material.emitted(shade);
                let samples = Samples { first: random_f32(), second: random_f32(), fuzz: point_in_ball() };
                scattering = material.scatter(&ray, &rec, shade, &samples);
                let scatter = scattering.map(|s| Scatter { is_specular: s.is_specular, attenuation: s.attenuation });
                event = Event::Shaded { is_light: material.is_light(), scatter };
            }
            Action::DrawRoulette => {
                event = Event::Roulette { sample: random_f32() };
            }
            Action::FollowSpecular => {
                let s = scattering.expect("a scattering is followed");
                frames.push(Frame::Specular { emitted, attenuation: s.attenuation });
                ray = s.specular_ray;
                event = Event::Ray;
            }
            Action::FollowDiffuse { with_lights } => {
                let rec = hit.expect("a hit is left");
                let s = scattering.expect("a scattering is followed");
                let surface = CosinePDF::new(&s.pdf_ptr.expect("a diffuse scattering has an axis"));
                let (cos_phi, sin_phi) = angle();
                let samples = LightSamples { first: random_f32(), second: random_f32(), cos_phi, sin_phi };
                let (direction, _) =
                    bounce_direction(with_lights, &random_f32(), &surface, &scene.lights, &scene.world, &rec.p, &samples);
                let scattered = Ray::new(rec.p, direction);
                let pdf = bounce_pdf(with_lights, &surface, &scene.lights, &scene.world, &rec.p, &direction);
                let scattering_pdf = scene.materials[rec.material].scattering_pdf(&rec, &scattered);
                frames.push(Frame::Diffuse { emitted, attenuation: s.attenuation, scattering_pdf, pdf });
                ray = scattered;
                event = Event::Ray;
            }
            Action::Finish(terminal) => {
                let end = terminal_color(terminal, &ray.direction, emitted, environment);
                return gather(&frames, end);
            }
        }
    }
}

fn pixel(scene: &Scene, camera: &Camera, x: u32, y: u32, width: u32, height: u32, spp: u32) -> Color {
    let mut sum = pt(0.0, 0.0, 0.0);
    for _ in 0..spp {
        let (u, v) = pixel_coordinates(x, y, width, height, random_f32(), random_f32());
        let ray = camera.get_ray(u, v, &point_in_disk());
        sum = accumulate(sum, ray_color(&ray, scene));
    }
    sum
}

fn render(scene: &Scene, camera: &Camera, width: u32, height: u32, spp: u32) -> Vec<u8> {
    let mut canvas = Canvas::create(width, height).expect("the image is small");
    for y in 0..height {
        let row: Vec<Color> = (0..width).map(|x| pixel(scene, camera, x, y, width, height, spp)).collect();
        assert!(store_row(&mut canvas, y, &row, k(spp as f32)));
    }
    canvas.bytes()
}

fn luminance(rgb: [u8; 3]) -> f32 {
    (0.2126 * rgb[0] as f32 + 0.7152 * rgb[1] as f32 + 0.0722 * rgb[2] as f32) / 255.0
}

fn camera(from: [f32; 3], at: [f32; 3], vfov: f32, aspect: f32, aperture: f32, focus: f32) -> Camera {
    let h = fl(Camera::half_angle(k(vfov))).tan();
    Camera::new(
        &pt(from[0], from[1], from[2]),
        &pt(at[0], at[1], at[2]),
        &pt(0.0, 1.0, 0.0),
        k(h),
        k(aspect),
        k(aperture),
        k(focus),
    )
}

fn grey() -> Material {
    Material::Lambertian(Lambertian::new(pt(0.5, 0.5, 0.5)))
}

fn glass_on_the_ground() -> Vec<(Object, Material)> {
    vec![
        (Object::Sphere(Sphere::new(pt(0.0, -1000.0, 0.0), k(1000.0), 0, 0)), grey()),
        (
            Object::Sphere(Sphere::new(pt(0.0, 1.0, 0.0), k(1.0), 1, 0)),
            Material::Dielectric(Dielectric::new(pt(1.0, 1.0, 1.0), k(1.5), k(0.0))),
        ),
    ]
}

#[test]
fn a_glass_sphere_on_the_ground_is_neither_black_nor_white() {
    fastrand::seed(2023);
    let scene = prepare(glass_on_the_ground(), settings(10, 5));
    assert_eq!(scene.limits, Limits { max_depth: 10, min_depth: 5, lights: 1 });
    assert_eq!(scene.filter, FilterKind::Uniform);
    let cam = camera([13.0, 2.0, 3.0], [0.0, 0.0, 0.0], 20.0, 2.0, 0.1, 10.0);
    let rgb = to_rgb(pixel(&scene, &cam, 100, 50, 200, 100, 16), k(16.0));
    assert_ne!(rgb, [0, 0, 0]);
    assert_ne!(rgb, [255, 255, 255]);
    let l = luminance(rgb);
    assert!(l > 0.05 && l < 0.95, "{rgb:?}");
    // the ground beside the sphere is lit by the sky
    let ground = to_rgb(pixel(&scene, &cam, 30, 20, 200, 100, 16), k(16.0));
    assert!(luminance(ground) > 0.05, "{ground:?}");
    // without lights and without an environment that emits, the sky is all
    // the light there is
    let unlit = prepare(glass_on_the_ground(), Settings { intensity: Some(0.0), ..settings(10, 5) });
    assert_eq!((unlit.limits.lights, unlit.environment, unlit.materials.len()), (0, None, 2));
    let rgb = to_rgb(pixel(&unlit, &cam, 30, 20, 200, 100, 16), k(16.0));
    assert!(luminance(rgb) > 0.05 && luminance(rgb) < 0.95, "{rgb:?}");
}

fn cornell_box() -> Vec<(Object, Material)> {
    let wall = |r: Rectangle| (Object::Rectangle(r), grey());
    vec![
        wall(Rectangle::XZRectangle(XZRectangle::new(k(-5.0), k(5.0), k(-5.0), k(5.0), k(0.0), 0, 0))),
        wall(Rectangle::XZRectangle(XZRectangle::new(k(-5.0), k(5.0), k(-5.0), k(5.0), k(4.0), 1, 0))),
        wall(Rectangle::XYRectangle(XYRectangle::new(k(-5.0), k(5.0), k(0.0), k(4.0), k(5.0), 2, 0))),
        wall(Rectangle::XYRectangle(XYRectangle::new(k(-5.0), k(5.0), k(0.0), k(4.0), k(-5.0), 3, 0))),
        wall(Rectangle::YZRectangle(YZRectangle::new(k(0.0), k(4.0), k(-5.0), k(5.0), k(-5.0), 4, 0))),
        wall(Rectangle::YZRectangle(YZRectangle::new(k(0.0), k(4.0), k(-5.0), k(5.0), k(5.0), 5, 0))),
        (
            Object::Rectangle(Rectangle::XZRectangle(XZRectangle::new(k(-1.0), k(1.0), k(-1.0), k(1.0), k(3.99), 6, 0))),
            Material::DiffuseLight(DiffuseLight::new(pt(1.0, 1.0, 1.0), k(15.0))),
        ),
    ]
}

#[test]
fn the_floor_below_the_light_is_brighter_than_a_corner() {
    fastrand::seed(77);
    let scene = prepare(cornell_box(), Settings { intensity: Some(0.0), ..settings(8, 5) });
    assert_eq!(scene.lights.places, vec![6]);
    assert_eq!(scene.lights.environment, None);
    assert_eq!(scene.limits.lights, 1);
    let below = camera([0.0, 2.0, -4.5], [0.0, 0.0, 0.0], 40.0, 1.0, 0.0, 1.0);
    let corner = camera([0.0, 2.0, -4.5], [4.7, 0.0, 4.7], 40.0, 1.0, 0.0, 1.0);
    let (mut bright, mut dim) = (pt(0.0, 0.0, 0.0), pt(0.0, 0.0, 0.0));
    for _ in 0..64 {
        let centre = k(0.5);
        bright = accumulate(bright, ray_color(&below.get_ray(centre, centre, &pt(0.0, 0.0, 0.0)), &scene));
        dim = accumulate(dim, ray_color(&corner.get_ray(centre, centre, &pt(0.0, 0.0, 0.0)), &scene));
    }
    let (b, d) = (fl(bright.y) / 64.0, fl(dim.y) / 64.0);
    assert!(d > 0.0);
    assert!(b >= 3.0 * d, "{b} against {d}");
}

#[test]
fn an_empty_world_shows_the_sky() {
    fastrand::seed(5);
    let scene = prepare(vec![], Settings { intensity: Some(1.0), ..settings(10, 5) });
    assert_eq!(scene.limits.lights, 1);
    assert_eq!(scene.environment.map(|e| fl(e.radius)), Some(1000.0));
    let blue = [0.5f32, 0.7, 1.0];
    for cam in [
        camera([0.0, 0.0, 0.0], [0.0, 0.0, -1.0], 90.0, 2.0, 0.0, 1.0),
        camera([13.0, 2.0, 3.0], [0.0, 0.0, 0.0], 20.0, 2.0, 0.1, 10.0),
        camera([0.0, 1.0, 0.0], [1.0, 9.0, 0.5], 60.0, 2.0, 0.0, 1.0),
    ] {
        for (x, y) in [(0u32, 0u32), (100, 50), (199, 99), (37, 80), (150, 10)] {
            let (u, v) = pixel_coordinates(x, y, 200, 100, k(0.5), k(0.5));
            let ray = cam.get_ray(u, v, &pt(0.0, 0.0, 0.0));
            let got = to_rgb(ray_color(&ray, &scene), k(1.0));
            let d = [fl(ray.direction.x), fl(ray.direction.y), fl(ray.direction.z)];
            let len = (d[0] * d[0] + d[1] * d[1] + d[2] * d[2]).sqrt();
            let t = 0.5 * (d[1] / len + 1.0);
            for c in 0..3 {
                let want = ((1.0 - t) * 1.0 + t * blue[c]).sqrt().clamp(0.0, 0.999) * 256.0;
                assert!((got[c] as f32 - want.floor()).abs() <= 2.0, "{got:?} at {x}, {y}");
            }
        }
    }
    assert_eq!(
        [sky(&pt(0.0, 1.0, 0.0)), sky(&pt(0.0, -1.0, 0.0))],
        [pt(0.5, 0.7, 1.0), pt(1.0, 1.0, 1.0)]
    );
}

#[test]
fn without_an_environment_that_emits_the_sky_is_seen() {
    let scene = prepare(vec![], Settings { intensity: Some(0.0), ..settings(10, 5) });
    assert_eq!((scene.limits.lights, scene.environment, scene.materials.len()), (0, None, 0));
    for d in [[0.0f32, 1.0, 0.0], [0.0, -1.0, 0.0], [1.0, 0.5, -2.0]] {
        let direction = pt(d[0], d[1], d[2]);
        assert_eq!(ray_color(&Ray::new(pt(0.0, 0.0, 0.0), direction), &scene), sky(&direction));
    }
}

#[test]
fn a_picture_of_the_environment_is_seen_where_nothing_is_hit() {
    // the left half of the picture is red, the right half blue
    let mut bytes = Vec::new();
    for _ in 0..2 {
        for column in 0..4 {
            bytes.extend(if column < 2 { [255u8, 0, 0] } else { [0u8, 0, 255] });
        }
    }
    let picture = Picture::new(4, 2, bytes).expect("the bytes fill the picture");
    let scene = prepare(vec![], Settings { picture: Some(picture), intensity: Some(2.0), ..settings(10, 5) });
    // the longitude runs with atan2(-z, x): just short of the middle of the
    // picture on one side of the x axis, just past it on the other
    let seen = |d: [f32; 3]| {
        let c = ray_color(&Ray::new(pt(0.0, 0.0, 0.0), pt(d[0], d[1], d[2])), &scene);
        [fl(c.x), fl(c.y), fl(c.z)]
    };
    assert_eq!(seen([1.0, 0.0, 0.1]), [2.0, 0.0, 0.0]);
    assert_eq!(seen([1.0, 0.0, -0.1]), [0.0, 0.0, 2.0]);
    assert_eq!(seen([-1.0, 0.3, 0.1]), [2.0, 0.0, 0.0]);
    assert_eq!(seen([-1.0, -0.3, -0.1]), [0.0, 0.0, 2.0]);
    assert!(scene.environment.is_some());
    assert_eq!(scene.lights.environment, scene.environment);
}

#[test]
fn a_chess_board_shows_both_its_colours() {
    let board = Texture::ChessBoard(ChessBoard::new(
        Box::new(Texture::SolidColor(SolidColor::new(pt(0.9, 0.1, 0.1)))),
        Box::new(Texture::SolidColor(SolidColor::new(pt(0.1, 0.1, 0.9)))),
        k(10.0),
    ));
    let mut seen = std::collections::BTreeSet::new();
    for i in 0..40 {
        let p = pt(0.05 + 0.1 * i as f32, 0.05, 0.05);
        let c = value(&board, k(0.0), k(0.0), &p);
        seen.insert([c.x.to_bits(), c.y.to_bits(), c.z.to_bits()]);
    }
    assert_eq!(seen.len(), 2);
}

#[test]
fn with_no_depth_the_image_is_black() {
    fastrand::seed(1);
    let light = (
        Object::Sphere(Sphere::new(pt(0.0, 0.0, -3.0), k(1.0), 0, 0)),
        Material::DiffuseLight(DiffuseLight::new(pt(1.0, 1.0, 1.0), k(15.0))),
    );
    let scene = prepare(vec![light], settings(0, 0));
    let cam = camera([0.0, 0.0, 0.0], [0.0, 0.0, -1.0], 90.0, 2.0, 0.0, 1.0);
    assert_eq!(render(&scene, &cam, 16, 8, 4), vec![0u8; 3 * 16 * 8]);
    let empty = prepare(vec![], settings(0, 0));
    assert_eq!(render(&empty, &cam, 8, 4, 2), vec![0u8; 3 * 8 * 4]);
}

#[test]
fn the_same_samples_give_the_same_image() {
    let cam = camera([13.0, 2.0, 3.0], [0.0, 0.0, 0.0], 20.0, 2.0, 0.1, 10.0);
    let picture = |seed: u64| {
        fastrand::seed(seed);
        let scene = prepare(glass_on_the_ground(), settings(10, 2));
        render(&scene, &cam, 12, 6, 4)
    };
    let first = picture(42);
    assert_eq!(first.len(), 3 * 12 * 6);
    assert_eq!(first, picture(42));
    assert_ne!(first, picture(43));
}

#[test]
fn radiance_is_carried_back_through_the_bounces() {
    let e = pt(0.1, 0.2, 0.3);
    let a = pt(0.5, 0.25, 1.0);
    let l = pt(2.0, 4.0, 8.0);
    assert_eq!(gather(&vec![], l), l);
    let one = vec![Frame::Specular { emitted: e, attenuation: a }];
    assert_eq!(gather(&one, l), pt(0.1 + 0.5 * 2.0, 0.2 + 0.25 * 4.0, 0.3 + 1.0 * 8.0));
    let diffuse = Frame::Diffuse { emitted: e, attenuation: a, scattering_pdf: k(0.25), pdf: k(0.5) };
    let want = pt(0.1 + (0.5 * 0.25) * 2.0 / 0.5, 0.2 + (0.25 * 0.25) * 4.0 / 0.5, 0.3 + (1.0 * 0.25) * 8.0 / 0.5);
    assert_eq!(gather(&vec![diffuse], l), want);
    assert_eq!(gather(&vec![Frame::Specular { emitted: e, attenuation: a }, diffuse], l), {
        let inner = want;
        pt(0.1 + 0.5 * fl(inner.x), 0.2 + 0.25 * fl(inner.y), 0.3 + 1.0 * fl(inner.z))
    });
    let starved = Frame::Diffuse { emitted: e, attenuation: a, scattering_pdf: k(0.25), pdf: k(0.00005) };
    assert_eq!(gather(&vec![starved], l), e);
    assert_eq!(fl(mixture_pdf(k(0.25), k(0.75))), 0.5 * 0.25 + 0.5 * 0.75);
    assert_eq!(accumulate(e, l), pt(0.1 + 2.0, 0.2 + 4.0, 0.3 + 8.0));
    assert_eq!(accumulate(e, pt(1.0, f32::NAN, 1.0)), e);
    assert_eq!(accumulate(e, pt(1.0, f32::INFINITY, 1.0)), e);
}
