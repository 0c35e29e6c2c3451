use raytracer::color::{encode, encode_channel, sanitize, to_rgb, CHANNEL_LIMIT_BITS};
use raytracer::onb::MOSTLY_BITS;
use raytracer::utility::TWO_BITS;
use raytracer::scalar::{Scalar, HALF_BITS, INFINITY_BITS, ONE_BITS};
use raytracer::utility::{
    sky_blue, ENVIRONMENT_DISTANCE_BITS, EPSILON_BITS, NEAR_ZERO_BITS, SKY_BLUE_BITS, SKY_GREEN_BITS, SKY_RED_BITS,
};
use raytracer::vec3::Vec3;

fn sc(x: f32) -> Scalar {
    Scalar::from_bits(x.to_bits())
}

fn fl(s: Scalar) -> f32 {
    f32::from_bits(s.to_bits())
}

fn samples() -> Vec<f32> {
    let mut v = vec![
        0.0f32,
        -0.0,
        1.0,
        -1.0,
        0.5,
        0.999,
        0.9990001,
        1.0000001,
        0.001,
        0.0001,
        255.0 / 256.0,
        254.99 / 256.0,
        1.0 / 256.0,
        0.003906249,
        2.5,
        -3.75,
        1e-40,
        -1e-40,
        f32::MIN_POSITIVE,
        f32::MAX,
        f32::MIN,
        f32::INFINITY,
        f32::NEG_INFINITY,
        f32::NAN,
        -f32::NAN,
        4294967040.0,
        4294967296.0,
        16777216.0,
        16777217.0,
        123456.78,
        65535.99,
        3.0e9,
        7.9e28,
    ];
    let mut state: u32 = 0x1234_5678;
    for _ in 0..2000 {
        state = state.wrapping_mul(1664525).wrapping_add(1013904223);
        v.push(f32::from_bits(state));
    }
    v
}

#[test]
fn ordering_follows_the_numbers() {
    let values = samples();
    for &a in values.iter().take(120) {
        for &b in values.iter().take(120) {
            assert_eq!(sc(a).lt(&sc(b)), a < b, "{a} < {b}");
            assert_eq!(sc(a).le(&sc(b)), a <= b, "{a} <= {b}");
            assert_eq!(sc(a).gt(&sc(b)), a > b, "{a} > {b}");
            assert_eq!(sc(a).ge(&sc(b)), a >= b, "{a} >= {b}");
            assert_eq!(sc(a).equals(&sc(b)), a == b, "{a} == {b}");
        }
    }
}

#[test]
fn classification_follows_the_numbers() {
    for a in samples() {
        assert_eq!(sc(a).is_nan(), a.is_nan());
        assert_eq!(sc(a).is_finite(), a.is_finite());
        assert_eq!(sc(a).is_sign_negative(), a.is_sign_negative());
    }
}

#[test]
fn negation_and_absolute_value_are_exact() {
    for a in samples() {
        assert_eq!(sc(a).neg().to_bits(), (-a).to_bits());
        assert_eq!(sc(a).abs().to_bits(), a.abs().to_bits());
    }
}

#[test]
fn minimum_and_maximum_follow_the_numbers() {
    let values = samples();
    for &a in values.iter().take(100) {
        for &b in values.iter().take(100) {
            let lo = fl(sc(a).min(&sc(b)));
            let hi = fl(sc(a).max(&sc(b)));
            let want_lo = a.min(b);
            let want_hi = a.max(b);
            if want_lo.is_nan() {
                assert!(lo.is_nan());
            } else {
                assert!(lo == want_lo, "min({a}, {b})");
            }
            if want_hi.is_nan() {
                assert!(hi.is_nan());
            } else {
                assert!(hi == want_hi, "max({a}, {b})");
            }
        }
    }
}

#[test]
fn clamp_follows_the_numbers() {
    for a in samples() {
        let got = sc(a).clamp(&sc(0.0), &sc(1.0));
        let want = a.clamp(0.0, 1.0);
        assert_eq!(got.to_bits(), want.to_bits(), "clamp({a})");
        let got = sc(a).clamp(&sc(-2.5), &sc(0.999));
        let want = a.clamp(-2.5, 0.999);
        assert_eq!(got.to_bits(), want.to_bits(), "clamp({a})");
    }
}

#[test]
fn truncation_is_the_saturating_cast() {
    for a in samples() {
        assert_eq!(sc(a).to_u32(), a as u32, "{a} as u32");
        assert_eq!(sc(a).truncate_scaled(0), a as u32);
        let scaled = a * 256.0;
        assert_eq!(sc(a).truncate_scaled(8), scaled as u32, "256 * {a}");
        let scaled = a * 4294967296.0;
        if scaled.is_finite() || a.is_nan() {
            assert_eq!(sc(a).truncate_scaled(32), scaled as u32, "2^32 * {a}");
        }
    }
}

#[test]
fn truncation_examples() {
    assert_eq!(sc(0.0).to_u32(), 0);
    assert_eq!(sc(0.99).to_u32(), 0);
    assert_eq!(sc(1.0).to_u32(), 1);
    assert_eq!(sc(2.5).to_u32(), 2);
    assert_eq!(sc(-2.5).to_u32(), 0);
    assert_eq!(sc(1e20).to_u32(), u32::MAX);
    assert_eq!(sc(f32::NAN).to_u32(), 0);
    assert_eq!(sc(f32::INFINITY).to_u32(), u32::MAX);
    assert_eq!(sc(0.5).truncate_scaled(8), 128);
}

#[test]
fn named_numbers_have_their_encodings() {
    assert_eq!(ONE_BITS, 1.0f32.to_bits());
    assert_eq!(HALF_BITS, 0.5f32.to_bits());
    assert_eq!(TWO_BITS, 2.0f32.to_bits());
    assert_eq!(INFINITY_BITS, f32::INFINITY.to_bits());
    assert_eq!(EPSILON_BITS, 0.0001f32.to_bits());
    assert_eq!(NEAR_ZERO_BITS, 0.001f32.to_bits());
    assert_eq!(CHANNEL_LIMIT_BITS, 0.999f32.to_bits());
    assert_eq!(MOSTLY_BITS, 0.9f32.to_bits());
    assert_eq!(ENVIRONMENT_DISTANCE_BITS, 1000.0f32.to_bits());
    assert_eq!([SKY_RED_BITS, SKY_GREEN_BITS, SKY_BLUE_BITS], [0.5f32.to_bits(), 0.7f32.to_bits(), 1.0f32.to_bits()]);
    assert_eq!(sky_blue(), Vec3::new(sc(0.5), sc(0.7), sc(1.0)));
    assert_eq!(Scalar::zero().to_bits(), 0.0f32.to_bits());
    assert_eq!(Scalar::one().to_bits(), 1.0f32.to_bits());
    assert_eq!(Scalar::infinity().to_bits(), f32::INFINITY.to_bits());
    assert_eq!(Scalar::neg_infinity().to_bits(), f32::NEG_INFINITY.to_bits());
}

#[test]
fn channels_encode_as_the_cast_does() {
    for a in samples() {
        let held = if a.is_nan() { 0.0 } else { a.clamp(0.0, 0.999) };
        let want = (256.0 * held) as u8;
        assert_eq!(encode_channel(sc(a)), want, "channel {a}");
    }
}

#[test]
fn channel_examples() {
    assert_eq!(encode_channel(sc(0.0)), 0);
    assert_eq!(encode_channel(sc(0.5)), 128);
    assert_eq!(encode_channel(sc(1.0)), 255);
    assert_eq!(encode_channel(sc(0.999)), 255);
    assert_eq!(encode_channel(sc(1.0 / 256.0)), 1);
    assert_eq!(encode_channel(sc(37.0)), 255);
    assert_eq!(encode_channel(sc(-0.25)), 0);
    assert_eq!(encode_channel(sc(f32::NAN)), 0);
    assert_eq!(encode_channel(sc(f32::INFINITY)), 255);
    assert_eq!(encode_channel(sc(f32::NEG_INFINITY)), 0);
}

#[test]
fn test_to_rgb() {
    let c = Vec3::new(sc(0.5), sc(1.0), sc(0.0));
    assert_eq!(to_rgb(c, sc(1.0)), [181, 255, 0]);
}

#[test]
fn pixels_encode_as_the_hardware_computes() {
    let values = samples();
    for (i, &a) in values.iter().enumerate().take(1500) {
        let b = values[(i * 7 + 1) % values.len()];
        let c = values[(i * 13 + 5) % values.len()];
        for spp in [1.0f32, 16.0, 64.0] {
            let scale = 1.0 / spp;
            let byte = |x: f32| {
                let clean = if x.is_nan() { 0.0 } else { x };
                let g = (clean * scale).sqrt();
                let held = if g.is_nan() { 0.0 } else { g.clamp(0.0, 0.999) };
                (256.0 * held) as u8
            };
            assert_eq!(to_rgb(Vec3::new(sc(a), sc(b), sc(c)), sc(spp)), [byte(a), byte(b), byte(c)]);
        }
    }
    assert_eq!(to_rgb(Vec3::new(sc(f32::NAN), sc(8.0), sc(4.0)), sc(16.0)), [0, 181, 128]);
    assert_eq!(encode(Vec3::new(sc(0.5), sc(f32::NAN), sc(2.0))), [128, 0, 255]);
}

#[test]
fn sanitize_replaces_what_is_not_a_number() {
    let c = sanitize(Vec3::new(sc(f32::NAN), sc(0.25), sc(-f32::NAN)));
    assert_eq!(c.x.to_bits(), 0);
    assert_eq!(c.y.to_bits(), 0.25f32.to_bits());
    assert_eq!(c.z.to_bits(), 0);
    let d = sanitize(Vec3::new(sc(1.0), sc(f32::INFINITY), sc(-3.0)));
    assert_eq!(fl(d.x), 1.0);
    assert_eq!(fl(d.y), f32::INFINITY);
    assert_eq!(fl(d.z), -3.0);
}

#[test]
fn vec3_test_new() {
    let v = Vec3::new(sc(1.0), sc(2.0), sc(3.0));
    assert_eq!(fl(v.x()), 1.0);
    assert_eq!(fl(v.y()), 2.0);
    assert_eq!(fl(v.z()), 3.0);
}

#[test]
fn point3_test_new() {
    let p = raytracer::vec3::Point3::new(sc(1.0), sc(2.0), sc(3.0));
    assert_eq!(fl(p.x), 1.0);
    assert_eq!(fl(p.y), 2.0);
    assert_eq!(fl(p.z), 3.0);
    assert_eq!(p, Vec3::new(sc(1.0), sc(2.0), sc(3.0)));
}

#[test]
fn test_index() {
    let v1 = Vec3::new(sc(1.0), sc(2.0), sc(3.0));
    assert_eq!(fl(v1.index(0)), 1.0);
    assert_eq!(fl(v1.index(1)), 2.0);
    assert_eq!(fl(v1.index(2)), 3.0);
}

#[test]
fn test_neg() {
    let v1 = Vec3::new(sc(1.0), sc(2.0), sc(3.0));
    let v2 = v1.neg();
    assert_eq!(fl(v2.x()), -1.0);
    assert_eq!(fl(v2.y()), -2.0);
    assert_eq!(fl(v2.z()), -3.0);
}

#[test]
fn vectors_select_by_component() {
    let a = Vec3::new(sc(1.0), sc(-2.0), sc(7.0));
    let b = Vec3::new(sc(0.5), sc(3.0), sc(f32::NAN));
    let lo = a.min(&b);
    let hi = a.max(&b);
    assert_eq!((fl(lo.x), fl(lo.y), fl(lo.z)), (0.5, -2.0, 7.0));
    assert_eq!((fl(hi.x), fl(hi.y), fl(hi.z)), (1.0, 3.0, 7.0));
    assert_eq!(fl(a.max_element()), 7.0);
    assert_eq!(fl(Vec3::new(sc(0.3), sc(0.9), sc(0.1)).max_element()), 0.9);
    assert!(a.is_finite());
    assert!(!b.is_finite());
    assert!(b.is_nan());
    assert!(!Vec3::new(sc(1.0), sc(f32::INFINITY), sc(0.0)).is_finite());
    let z = Vec3::new_init();
    assert_eq!((z.x.to_bits(), z.y.to_bits(), z.z.to_bits()), (0, 0, 0));
    assert_eq!(Vec3::new_from(&a), a);
    assert_eq!(Vec3::splat(sc(2.0)), Vec3::new(sc(2.0), sc(2.0), sc(2.0)));
}

fn written(v: &Vec3) -> String {
    Vec3::text(&format!("{}", fl(v.x)), &format!("{}", fl(v.y)), &format!("{}", fl(v.z)))
}

#[test]
fn test_display() {
    let v1 = Vec3::new(sc(1.0), sc(2.0), sc(3.0));
    assert_eq!(written(&v1), "Vec3(1, 2, 3)");
}

#[test]
fn vectors_are_written_component_by_component() {
    assert_eq!(written(&Vec3::new(sc(-0.5), sc(0.0), sc(1e10))), "Vec3(-0.5, 0, 10000000000)");
    assert_eq!(written(&Vec3::new(sc(f32::NAN), sc(f32::INFINITY), sc(0.1))), "Vec3(NaN, inf, 0.1)");
    assert_eq!(Vec3::text("a", "", "c d"), "Vec3(a, , c d)");
}
