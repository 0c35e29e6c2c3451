use raytracer::hittable_list::{HittableList, LightSamples, LightSet, Object};
use raytracer::integrator::{
    bounce_direction, bounce_pdf, bounce_towards, continue_along, mixture_pdf, mixture_picks_surface, roulette_cuts, sky,
    terminal_color, Action, Event, Limits, Phase, Scatter, Terminal, Walk,
};
use raytracer::pdf::CosinePDF;
use raytracer::scalar::Scalar;
use raytracer::sphere::Sphere;
use raytracer::vec3::Vec3;

fn num(x: f32) -> Scalar {
    Scalar::from_bits(x.to_bits())
}

fn val(s: Scalar) -> f32 {
    f32::from_bits(s.to_bits())
}

fn grey(x: f32) -> Vec3 {
    Vec3::new(num(x), num(x), num(x))
}

fn limits(max_depth: u32, min_depth: u32, lights: usize) -> Limits {
    Limits { max_depth, min_depth, lights }
}

fn diffuse(x: f32) -> Scatter {
    Scatter { is_specular: false, attenuation: grey(x) }
}

fn mirror(x: f32) -> Scatter {
    Scatter { is_specular: true, attenuation: grey(x) }
}

#[test]
fn depth_zero_is_black() {
    let l = limits(0, 0, 3);
    let (walk, action) = Walk::begin().step(&l, Event::Ray).unwrap();
    assert_eq!(action, Action::Finish(Terminal::Black));
    assert!(walk.is_done());
    assert_eq!(walk.step(&l, Event::Ray), None);
}

#[test]
fn a_miss_ends_in_the_environment_or_the_sky() {
    let l = limits(10, 5, 0);
    let (w, a) = Walk::begin().step(&l, Event::Ray).unwrap();
    assert_eq!(a, Action::TraceScene);
    let (w, a) = w.step(&l, Event::Scene { hit: false }).unwrap();
    assert_eq!(a, Action::TraceEnvironment);
    let (done, a) = w.step(&l, Event::Environment { hit: true }).unwrap();
    assert_eq!(a, Action::Finish(Terminal::Environment));
    assert!(done.is_done());
    let (done, a) = w.step(&l, Event::Environment { hit: false }).unwrap();
    assert_eq!(a, Action::Finish(Terminal::Sky));
    assert!(done.is_done());
}

#[test]
fn a_light_ends_the_path() {
    let l = limits(10, 5, 1);
    let (w, _) = Walk::begin().step(&l, Event::Ray).unwrap();
    let (w, a) = w.step(&l, Event::Scene { hit: true }).unwrap();
    assert_eq!(a, Action::Shade);
    let (_, a) = w.step(&l, Event::Shaded { is_light: true, scatter: Some(diffuse(0.5)) }).unwrap();
    assert_eq!(a, Action::Finish(Terminal::Emitted));
    let (_, a) = w.step(&l, Event::Shaded { is_light: false, scatter: None }).unwrap();
    assert_eq!(a, Action::Finish(Terminal::Emitted));
}

#[test]
fn young_paths_are_not_cut_short() {
    let l = limits(10, 5, 2);
    let (w, _) = Walk::begin().step(&l, Event::Ray).unwrap();
    let (w, _) = w.step(&l, Event::Scene { hit: true }).unwrap();
    let (next, a) = w.step(&l, Event::Shaded { is_light: false, scatter: Some(diffuse(0.5)) }).unwrap();
    assert_eq!(a, Action::FollowDiffuse { with_lights: true });
    assert_eq!(next, Walk { depth: 1, phase: Phase::Ray });
    let (next, a) = w.step(&l, Event::Shaded { is_light: false, scatter: Some(mirror(0.5)) }).unwrap();
    assert_eq!(a, Action::FollowSpecular);
    assert_eq!(next.depth, 1);
}

#[test]
fn old_paths_face_the_roulette() {
    let l = limits(10, 0, 0);
    let w = Walk { depth: 1, phase: Phase::Shade };
    let (w, a) = w.step(&l, Event::Shaded { is_light: false, scatter: Some(diffuse(0.5)) }).unwrap();
    assert_eq!(a, Action::DrawRoulette);
    let (_, a) = w.step(&l, Event::Roulette { sample: num(0.25) }).unwrap();
    assert_eq!(a, Action::Finish(Terminal::Emitted));
    let (next, a) = w.step(&l, Event::Roulette { sample: num(0.5) }).unwrap();
    assert_eq!(a, Action::FollowDiffuse { with_lights: false });
    assert_eq!(next, Walk { depth: 2, phase: Phase::Ray });
    let at_limit = Walk { depth: 0, phase: Phase::Shade };
    let (_, a) = at_limit.step(&l, Event::Shaded { is_light: false, scatter: Some(mirror(0.9)) }).unwrap();
    assert_eq!(a, Action::FollowSpecular);
}

#[test]
fn events_out_of_turn_are_refused() {
    let l = limits(10, 5, 0);
    assert_eq!(Walk::begin().step(&l, Event::Scene { hit: true }), None);
    assert_eq!(Walk::begin().step(&l, Event::Roulette { sample: num(0.1) }), None);
    let (w, _) = Walk::begin().step(&l, Event::Ray).unwrap();
    assert_eq!(w.step(&l, Event::Ray), None);
    assert_eq!(w.step(&l, Event::Environment { hit: true }), None);
    // a path that waits for its ray at the depth limit or beyond it ends black
    for depth in [l.max_depth, l.max_depth + 1, l.max_depth + 1000, u32::MAX] {
        let late = Walk { depth, phase: Phase::Ray };
        assert!(late.within(&l));
        let (done, action) = late.step(&l, Event::Ray).unwrap();
        assert_eq!((done, action), (Walk { depth, phase: Phase::Done }, Action::Finish(Terminal::Black)));
        assert_eq!(done.step(&l, Event::Ray), None);
        assert_eq!(late.step(&l, Event::Scene { hit: true }), None);
    }
    let none = limits(0, 0, 3);
    let (_, action) = Walk { depth: 17, phase: Phase::Ray }.step(&none, Event::Ray).unwrap();
    assert_eq!(action, Action::Finish(Terminal::Black));
    // a path that has left the limits waits for nothing
    let lost = Walk { depth: l.max_depth, phase: Phase::Shade };
    assert!(!lost.within(&l));
    assert_eq!(lost.step(&l, Event::Shaded { is_light: true, scatter: None }), None);
    let beyond = Walk { depth: u32::MAX, phase: Phase::Roulette { scatter: mirror(0.5) } };
    assert_eq!(beyond.step(&l, Event::Roulette { sample: num(0.9) }), None);
}

#[test]
fn every_path_ends() {
    let l = limits(4, 1, 1);
    let mut walk = Walk::begin();
    let mut steps = 0;
    let mut bounces = 0;
    loop {
        let event = match walk.phase {
            Phase::Ray => Event::Ray,
            Phase::Scene => Event::Scene { hit: true },
            Phase::Environment => Event::Environment { hit: false },
            Phase::Shade => Event::Shaded { is_light: false, scatter: Some(diffuse(0.5)) },
            Phase::Roulette { .. } => Event::Roulette { sample: num(0.75) },
            Phase::Done => break,
        };
        let (next, action) = walk.step(&l, event).unwrap();
        if matches!(action, Action::FollowDiffuse { .. }) {
            bounces += 1;
        }
        walk = next;
        steps += 1;
        assert!(steps <= 5 * (4 + 1));
    }
    assert_eq!(bounces, 4);
    assert_eq!(walk.depth, 4);
}

#[test]
fn the_roulette_compares_with_the_largest_channel() {
    let a = Vec3::new(num(0.2), num(0.8), num(0.5));
    assert!(roulette_cuts(&num(0.79), &a));
    assert!(!roulette_cuts(&num(0.8), &a));
    assert!(!roulette_cuts(&num(0.95), &a));
    assert!(!roulette_cuts(&num(f32::NAN), &a));
}

#[test]
fn the_mixture_is_even() {
    assert!(mixture_picks_surface(&num(0.0)));
    assert!(mixture_picks_surface(&num(0.49999997)));
    assert!(!mixture_picks_surface(&num(0.5)));
    assert!(!mixture_picks_surface(&num(0.99)));
}

#[test]
fn continuation_follows_the_surface() {
    assert_eq!(continue_along(&limits(5, 5, 0), &mirror(0.5)), Action::FollowSpecular);
    assert_eq!(continue_along(&limits(5, 5, 0), &diffuse(0.5)), Action::FollowDiffuse { with_lights: false });
    assert_eq!(continue_along(&limits(5, 5, 7), &diffuse(0.5)), Action::FollowDiffuse { with_lights: true });
}

#[test]
fn the_end_of_a_path_has_its_colour() {
    let up = Vec3::new(num(0.0), num(1.0), num(0.0));
    let emitted = Vec3::new(num(0.1), num(0.2), num(0.3));
    let environment = Vec3::new(num(4.0), num(5.0), num(6.0));
    let zero = Vec3::new(num(0.0), num(0.0), num(0.0));
    assert_eq!(terminal_color(Terminal::Black, &up, emitted, environment), zero);
    assert_eq!(terminal_color(Terminal::Sky, &up, emitted, environment), sky(&up));
    assert_ne!(sky(&up), zero);
    assert_eq!(terminal_color(Terminal::Emitted, &up, emitted, environment), emitted);
    assert_eq!(terminal_color(Terminal::Environment, &up, emitted, environment), environment);
}

#[test]
fn a_bounce_is_drawn_from_the_surface_or_towards_a_light() {
    let mut world = HittableList::new();
    world.push(Object::Sphere(Sphere::new(Vec3::new(num(0.0), num(5.0), num(0.0)), num(1.0), 0, 0)));
    world.push(Object::Sphere(Sphere::new(Vec3::new(num(4.0), num(3.0), num(0.0)), num(1.0), 0, 0)));
    let lights = LightSet { places: vec![0, 1], environment: None };
    let none = LightSet { places: vec![], environment: None };
    let surface = CosinePDF::new(&Vec3::new(num(0.0), num(1.0), num(0.0)));
    let origin = Vec3::new(num(0.0), num(0.0), num(0.0));
    let samples = LightSamples { first: num(0.25), second: num(0.5), cos_phi: num(0.6), sin_phi: num(0.8) };
    let own = surface.generate(num(0.25), num(0.6), num(0.8));
    assert_eq!(bounce_direction(false, &num(0.9), &surface, &lights, &world, &origin, &samples), (own, None));
    assert_eq!(bounce_direction(true, &num(0.49), &surface, &lights, &world, &origin, &samples), (own, None));
    assert_eq!(bounce_direction(true, &num(0.9), &surface, &none, &world, &origin, &samples), (own, None));
    let mut seen = [false; 2];
    for _ in 0..200 {
        let (direction, drawn) = bounce_direction(true, &num(0.5), &surface, &lights, &world, &origin, &samples);
        let (pick, member) = drawn.expect("a light is drawn");
        assert!(pick < 2 && member == 0);
        seen[pick] = true;
        assert_eq!(direction, lights.random(&world, pick, member, &origin, &samples).normalize());
        assert_ne!(direction, own);
    }
    assert_eq!(seen, [true, true]);
    let d = Vec3::new(num(0.3), num(0.9), num(0.1));
    let s = surface.value(&d);
    assert_eq!(bounce_pdf(false, &surface, &lights, &world, &origin, &d), s);
    assert_eq!(bounce_pdf(false, &surface, &none, &world, &origin, &d), s);
    let l = lights.pdf_value(&world, &origin, &d);
    assert_eq!(bounce_pdf(true, &surface, &lights, &world, &origin, &d), mixture_pdf(s, l));
    assert_eq!(val(mixture_pdf(s, l)), 0.5 * val(s) + 0.5 * val(l));
    assert_ne!(mixture_pdf(s, l), s);
}

#[test]
fn a_bounce_towards_a_drawn_light_leaves_nothing_to_chance() {
    let mut world = HittableList::new();
    world.push(Object::Sphere(Sphere::new(Vec3::new(num(0.0), num(5.0), num(0.0)), num(1.0), 0, 0)));
    world.push(Object::Sphere(Sphere::new(Vec3::new(num(4.0), num(3.0), num(0.0)), num(1.0), 0, 0)));
    let lights = LightSet { places: vec![0, 1], environment: None };
    let surface = CosinePDF::new(&Vec3::new(num(0.0), num(1.0), num(0.0)));
    let origin = Vec3::new(num(0.0), num(0.0), num(0.0));
    let samples = LightSamples { first: num(0.25), second: num(0.5), cos_phi: num(0.6), sin_phi: num(0.8) };
    let own = (surface.generate(num(0.25), num(0.6), num(0.8)), None);
    let towards = |with_lights: bool, choice: f32, drawn: Option<(usize, usize)>| {
        bounce_towards(with_lights, &num(choice), drawn, &surface, &lights, &world, &origin, &samples)
    };
    for pick in 0..2 {
        let drawn = Some((pick, 0));
        let want = lights.random(&world, pick, 0, &origin, &samples).normalize();
        assert_eq!(towards(true, 0.5, drawn), (want, drawn));
        assert_eq!(towards(true, 0.99, drawn), (want, drawn));
        assert_eq!(towards(true, 0.49, drawn), own);
        assert_eq!(towards(false, 0.9, drawn), own);
    }
    assert_ne!(towards(true, 0.5, Some((0, 0))).0, towards(true, 0.5, Some((1, 0))).0);
    assert_eq!(towards(true, 0.9, None), own);
    // what chance draws is one of these
    for _ in 0..50 {
        let drawn = bounce_direction(true, &num(0.7), &surface, &lights, &world, &origin, &samples);
        assert_eq!(drawn, towards(true, 0.7, drawn.1));
        assert!(drawn.1.is_some());
    }
}
