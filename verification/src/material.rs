//! Materials: how a surface answers light.
//!
//! A material scatters an incoming ray, says with what density it scatters
//! into a direction, and may emit.  A scattering is either specular (one ray
//! to go on along) or diffuse (a normal around which a cosine-weighted
//! direction is drawn); with either comes the share of the light that the
//! surface passes on, which is the value of the material's texture at the
//! hit.  The uniform numbers and the random point that a scattering
//! consumes are drawn by the caller.
use vstd::prelude::*;
use crate::hit_record::HitRecord;
use crate::ray::Ray;
use crate::scalar::{Scalar, ONE_BITS};
use crate::texture::{clamp_unit, unit_clamped, SolidColor, Texture};
use crate::utility::{PI_BITS, TWO_BITS};
use crate::vec3::{Color, Vec3};

verus! {

/// What a scattering hands on: either one ray to continue along (a specular
/// surface) or the normal around which a cosine-weighted direction is to be
/// drawn (a diffuse one), and with either the part of the light passed on.
#[derive(Clone, Copy, Debug, PartialEq, Eq, Structural)]
pub struct ScatterRecord {
    pub specular_ray: Ray,
    pub is_specular: bool,
    pub attenuation: Color,
    /// The axis of the cosine-weighted distribution; `None` for a specular
    /// surface and for one that does not scatter.
    pub pdf_ptr: Option<Vec3>,
}

/// What chance contributes to a scattering: two uniform numbers of the
/// interval from 0 to 1 and a point drawn evenly from the unit ball.
#[derive(Clone, Copy, Debug, PartialEq, Eq, Structural)]
pub struct Samples {
    pub first: Scalar,
    pub second: Scalar,
    pub fuzz: Vec3,
}

/// The ray with no extent: from the zero point in the zero direction.
pub open spec fn no_ray() -> Ray {
    let zero = Vec3 { x: Scalar { bits: 0 }, y: Scalar { bits: 0 }, z: Scalar { bits: 0 } };
    Ray { origin: zero, direction: zero }
}

/// The record of a specular scattering.
pub open spec fn specular(ray: Ray, attenuation: Color) -> ScatterRecord {
    ScatterRecord { specular_ray: ray, is_specular: true, attenuation, pdf_ptr: None }
}

/// The record of a diffuse scattering around `normal`.
pub open spec fn diffuse(normal: Vec3, attenuation: Color) -> ScatterRecord {
    ScatterRecord { specular_ray: no_ray(), is_specular: false, attenuation, pdf_ptr: Some(normal) }
}

/// The mirror image of `v` at a surface with the normal `n`:
/// `v - n · (v·n) · 2`.
pub open spec fn reflected(v: Vec3, n: Vec3) -> Vec3 {
    v.minus(n.scaled(v.dotted(n)).scaled(Scalar { bits: TWO_BITS }))
}

/// The refraction of the unit direction `v` at a surface with the normal
/// `n`, for the ratio `eta` of the indices of refraction (Snell's law).
pub open spec fn refracted(v: Vec3, n: Vec3, eta: Scalar) -> Vec3 {
    let one = Scalar { bits: ONE_BITS };
    let cos_theta = v.negated().dotted(n).smaller(one);
    let perp = v.plus(n.scaled(cos_theta)).scaled(eta);
    let inner = one.minus(perp.norm_squared());
    let parallel = n.scaled(inner.absolute().root().negated());
    perp.plus(parallel)
}

/// The fifth power, `x · (x²)²`.
pub open spec fn fifth_power(x: Scalar) -> Scalar {
    let x2 = x.times(x);
    x.times(x2.times(x2))
}

/// Schlick's approximation of the reflectance of a dielectric at the cosine
/// `cos` of the angle of incidence: `r0 + (1 - r0)(1 - cos)^5` with
/// `r0 = ((1 - eta) / (1 + eta))²`.
pub open spec fn schlick(cos: Scalar, eta: Scalar) -> Scalar {
    let one = Scalar { bits: ONE_BITS };
    let r = one.minus(eta).over(one.plus(eta));
    let r0 = r.times(r);
    r0.plus(one.minus(r0).times(fifth_power(one.minus(cos))))
}

/// The larger of a number and zero; zero for what is not a number.
pub open spec fn floored(x: Scalar) -> Scalar {
    if x.nan() || x.below(Scalar { bits: 0 }) {
        Scalar { bits: 0 }
    } else {
        x
    }
}

/// A number held between 0 and 1, with 0 for what is not a number.
pub open spec fn fraction(x: Scalar) -> Scalar {
    if floored(x).at_most(Scalar { bits: ONE_BITS }) {
        floored(x)
    } else {
        Scalar { bits: ONE_BITS }
    }
}

/// The cosine-weighted density `cos / π`, zero where the cosine is below
/// zero.
pub open spec fn cosine_density(cos: Scalar) -> Scalar {
    if cos.below(Scalar { bits: 0 }) {
        Scalar { bits: 0 }
    } else {
        cos.over(Scalar { bits: PI_BITS })
    }
}

/// The density of a glossy or plastic surface for the direction `d`.
pub open spec fn glossy_density(normal: Vec3, d: Vec3) -> Scalar {
    if d.dotted(normal).below(Scalar { bits: 0 }) {
        Scalar { bits: 0 }
    } else {
        cosine_density(normal.dotted(d).over(d.norm()))
    }
}

fn floor_at_zero(x: &Scalar) -> (r: Scalar)
    ensures
        r == floored(*x),
        !r.nan(),
        r.rank() >= 0,
{
    let zero = Scalar::zero();
    if x.is_nan() || x.lt(&zero) {
        zero
    } else {
        *x
    }
}

fn to_fraction(x: &Scalar) -> (r: Scalar)
    ensures
        r == fraction(*x),
        !r.nan(),
        0 <= r.rank() <= ONE_BITS,
{
    let f = floor_at_zero(x);
    let one = Scalar::from_bits(ONE_BITS);
    if f.le(&one) {
        f
    } else {
        one
    }
}

/// The mirror image of `v` at a surface with the normal `n`.
pub fn reflect(v: &Vec3, n: &Vec3) -> (r: Vec3)
    ensures
        r == reflected(*v, *n),
{
    let two = Scalar::from_bits(TWO_BITS);
    v.sub(&n.scale(&v.dot(n)).scale(&two))
}

/// The refraction of the unit direction `v` at a surface with the normal `n`.
pub fn refract(v: &Vec3, n: &Vec3, eta: Scalar) -> (r: Vec3)
    ensures
        r == refracted(*v, *n, eta),
{
    let one = Scalar::one();
    let cos_theta = v.neg().dot(n).min(&one);
    let perp = v.add(&n.scale(&cos_theta)).scale(&eta);
    let parallel = n.scale(&one.sub(&perp.length_squared()).abs().sqrt().neg());
    perp.add(&parallel)
}

fn cosine_over_pi(cos: Scalar) -> (r: Scalar)
    ensures
        r == cosine_density(cos),
{
    let zero = Scalar::zero();
    if cos.lt(&zero) {
        zero
    } else {
        cos.div(&Scalar::from_bits(PI_BITS))
    }
}

fn glossy_pdf(normal: &Vec3, d: &Vec3) -> (r: Scalar)
    ensures
        r == glossy_density(*normal, *d),
{
    let zero = Scalar::zero();
    if d.dot(normal).lt(&zero) {
        zero
    } else {
        cosine_over_pi(normal.dot(d).div(&d.length()))
    }
}

impl ScatterRecord {
    /// A record that hands on nothing yet: the empty ray, no attenuation, no
    /// distribution.
    pub fn new() -> (r: ScatterRecord)
        ensures
            r == (ScatterRecord {
                specular_ray: no_ray(),
                is_specular: false,
                attenuation: no_ray().origin,
                pdf_ptr: None,
            }),
    {
        ScatterRecord {
            specular_ray: Ray::empty(),
            is_specular: false,
            attenuation: Vec3::new_init(),
            pdf_ptr: None,
        }
    }

    fn specular(ray: Ray, attenuation: Color) -> (r: ScatterRecord)
        ensures
            r == specular(ray, attenuation),
    {
        ScatterRecord { specular_ray: ray, is_specular: true, attenuation, pdf_ptr: None }
    }

    fn diffuse(normal: Vec3, attenuation: Color) -> (r: ScatterRecord)
        ensures
            r == diffuse(normal, attenuation),
    {
        ScatterRecord {
            specular_ray: Ray::empty(),
            is_specular: false,
            attenuation,
            pdf_ptr: Some(normal),
        }
    }
}

/// A surface that scatters evenly into the half-space above it.
#[derive(Debug)]
pub struct Lambertian {
    pub albedo: Texture,
}

/// A mirror, blurred by `fuzz`.
#[derive(Debug)]
pub struct Metal {
    pub albedo: Texture,
    pub fuzz: Scalar,
}

/// Glass: refracts or reflects; with a share `opacity` it scatters as a
/// diffuse surface instead.
#[derive(Debug)]
pub struct Dielectric {
    pub albedo: Texture,
    pub refr_idx: Scalar,
    pub opacity: Scalar,
}

/// A light: scatters nothing and emits its texture times `intensity`.
#[derive(Debug)]
pub struct DiffuseLight {
    pub emit: Texture,
    pub intensity: Scalar,
}

/// A diffuse surface that mirrors a share `reflectivity` of the rays.
#[derive(Debug)]
pub struct Plastic {
    pub albedo: Texture,
    pub reflectivity: Scalar,
    pub fuzz: Scalar,
}

/// A glossy surface with a roughness, which reflects a share `reflectivity`
/// of the rays.
#[derive(Debug)]
pub struct GGXGlossy {
    pub albedo: Texture,
    pub roughness: Scalar,
    pub reflectivity: Scalar,
}

/// A material of one of the kinds.
#[derive(Debug)]
pub enum Material {
    Lambertian(Lambertian),
    Metal(Metal),
    Dielectric(Dielectric),
    DiffuseLight(DiffuseLight),
    Plastic(Plastic),
    GGXGlossy(GGXGlossy),
}

/// The direction of a blurred mirror: the mirror image of `d` plus the
/// random point times the fuzz, at unit length.
pub open spec fn fuzzed(d: Vec3, normal: Vec3, fuzz: Scalar, point: Vec3) -> Vec3 {
    reflected(d, normal).plus(point.scaled(fuzz)).unit()
}

/// A specular scattering that counts only where it leaves the surface.
pub open spec fn leaving(rec: HitRecord, direction: Vec3, albedo: Color) -> Option<ScatterRecord> {
    if (Scalar { bits: 0 }).below(direction.dotted(rec.normal)) {
        Some(specular(Ray { origin: rec.p, direction }, albedo))
    } else {
        None
    }
}

fn leave(rec: &HitRecord, direction: Vec3, albedo: Color) -> (r: Option<ScatterRecord>)
    ensures
        r == leaving(*rec, direction, albedo),
{
    let zero = Scalar::zero();
    if direction.dot(&rec.normal).gt(&zero) {
        Some(ScatterRecord::specular(Ray::new(rec.p, direction), albedo))
    } else {
        None
    }
}

impl Lambertian {
    pub fn new(albedo: Color) -> (r: Lambertian)
        ensures
            r.albedo == Texture::SolidColor(SolidColor { color_value: albedo }),
    {
        Lambertian { albedo: Texture::SolidColor(SolidColor::new(albedo)) }
    }

    pub fn new_texture(albedo: Texture) -> (r: Lambertian)
        ensures
            r.albedo == albedo,
    {
        Lambertian { albedo }
    }

    /// A diffuse scattering around the normal of the hit.
    pub fn scatter(&self, rec: &HitRecord, albedo: Color) -> (r: ScatterRecord)
        ensures
            r == diffuse(rec.normal, albedo),
    {
        ScatterRecord::diffuse(rec.normal, albedo)
    }

    /// The density with which the surface scatters into `scattered`:
    /// `cos θ / π` above the surface, zero below.
    pub fn scattering_pdf(&self, rec: &HitRecord, scattered: &Ray) -> (r: Scalar)
        ensures
            r == cosine_density(rec.normal.dotted(scattered.direction)),
    {
        cosine_over_pi(rec.normal.dot(&scattered.direction))
    }
}

impl Metal {
    /// A metal; the fuzz is held to the interval from 0 to 1.
    pub fn new(albedo: Color, fuzz: Scalar) -> (r: Metal)
        ensures
            r.albedo == Texture::SolidColor(SolidColor { color_value: albedo }),
            r.fuzz == unit_clamped(fuzz),
    {
        Metal { albedo: Texture::SolidColor(SolidColor::new(albedo)), fuzz: clamp_unit(&fuzz) }
    }

    pub fn new_texture(albedo: Texture, fuzz: Scalar) -> (r: Metal)
        ensures
            r.albedo == albedo,
            r.fuzz == unit_clamped(fuzz),
    {
        Metal { albedo, fuzz: clamp_unit(&fuzz) }
    }

    /// A specular scattering along the mirrored direction, blurred by the
    /// fuzz; none where the blurred direction does not leave the surface.
    pub fn scatter(&self, ray_in: &Ray, rec: &HitRecord, albedo: Color, samples: &Samples) -> (r:
        Option<ScatterRecord>)
        ensures
            r == leaving(*rec, fuzzed(ray_in.direction.unit(), rec.normal, self.fuzz, samples.fuzz), albedo),
            r matches Some(s) ==> s.attenuation == albedo,
    {
        let unit = ray_in.direction.normalize();
        let direction = reflect(&unit, &rec.normal).add(&samples.fuzz.scale(&self.fuzz)).normalize();
        leave(rec, direction, albedo)
    }
}

impl Dielectric {
    /// The ratio of the indices of refraction for a hit: the inverse of the
    /// material's index for a ray that enters, the index for one that
    /// leaves.
    pub open spec fn ratio(self, front_face: bool) -> Scalar {
        if front_face {
            (Scalar { bits: ONE_BITS }).over(self.refr_idx)
        } else {
            self.refr_idx
        }
    }

    /// The cosine of the angle of incidence, at most 1.
    pub open spec fn incidence(unit: Vec3, normal: Vec3) -> Scalar {
        unit.dotted(normal).negated().smaller(Scalar { bits: ONE_BITS })
    }

    /// The ratio of the indices times the sine of the angle of incidence:
    /// above 1 no refracted ray exists.
    pub open spec fn grazing(self, ray_in: Ray, rec: HitRecord) -> Scalar {
        let one = Scalar { bits: ONE_BITS };
        let cos = Dielectric::incidence(ray_in.direction.unit(), rec.normal);
        self.ratio(rec.front_face).times(one.minus(cos.times(cos)).root())
    }

    /// The direction in which the ray goes on: reflected where the
    /// reflection is total or the reflectance is above the first sample,
    /// else refracted.
    pub open spec fn direction(self, ray_in: Ray, rec: HitRecord, samples: Samples) -> Vec3 {
        let one = Scalar { bits: ONE_BITS };
        let unit = ray_in.direction.unit();
        let rate = self.ratio(rec.front_face);
        let cos = Dielectric::incidence(unit, rec.normal);
        if one.below(self.grazing(ray_in, rec)) || samples.first.below(schlick(cos, rate)) {
            reflected(unit, rec.normal)
        } else {
            refracted(unit, rec.normal, rate)
        }
    }

    /// The scattering: specular along [`Dielectric::direction`] where the
    /// second sample is above the opacity, else diffuse around the normal.
    pub open spec fn scattered(self, ray_in: Ray, rec: HitRecord, albedo: Color, samples: Samples) -> ScatterRecord {
        if self.opacity.below(samples.second) {
            specular(Ray { origin: rec.p, direction: self.direction(ray_in, rec, samples) }, albedo)
        } else {
            diffuse(rec.normal, albedo)
        }
    }

    /// A dielectric; the index of refraction is held at or above 0 and the
    /// opacity to the interval from 0 to 1.
    pub fn new(albedo: Color, refr_idx: Scalar, opacity: Scalar) -> (r: Dielectric)
        ensures
            r.albedo == Texture::SolidColor(SolidColor { color_value: albedo }),
            r.refr_idx == floored(refr_idx),
            r.opacity == unit_clamped(opacity),
    {
        Dielectric {
            albedo: Texture::SolidColor(SolidColor::new(albedo)),
            refr_idx: floor_at_zero(&refr_idx),
            opacity: clamp_unit(&opacity),
        }
    }

    pub fn new_texture(albedo: Texture, refr_idx: Scalar, opacity: Scalar) -> (r: Dielectric)
        ensures
            r.albedo == albedo,
            r.refr_idx == floored(refr_idx),
            r.opacity == unit_clamped(opacity),
    {
        Dielectric { albedo, refr_idx: floor_at_zero(&refr_idx), opacity: clamp_unit(&opacity) }
    }

    /// Schlick's approximation of the reflectance.
    pub fn reflectance(cos: Scalar, ref_idx: Scalar) -> (r: Scalar)
        ensures
            r == schlick(cos, ref_idx),
    {
        let one = Scalar::one();
        let q = one.sub(&ref_idx).div(&one.add(&ref_idx));
        let r0 = q.mul(&q);
        let x = one.sub(&cos);
        let x2 = x.mul(&x);
        let x5 = x.mul(&x2.mul(&x2));
        r0.add(&one.sub(&r0).mul(&x5))
    }

    /// The scattering of a ray at a hit.  Where the ratio of the indices
    /// times the sine of the angle of incidence is above 1, a specular ray
    /// is the pure reflection.
    pub fn scatter(&self, ray_in: &Ray, rec: &HitRecord, albedo: Color, samples: &Samples) -> (r:
        ScatterRecord)
        ensures
            r == self.scattered(*ray_in, *rec, albedo, *samples),
            r.attenuation == albedo,
            r.is_specular && (Scalar { bits: ONE_BITS }).below(self.grazing(*ray_in, *rec))
                ==> r.specular_ray.direction == reflected(ray_in.direction.unit(), rec.normal),
    {
        let one = Scalar::one();
        let rate = if rec.front_face {
            one.div(&self.refr_idx)
        } else {
            self.refr_idx
        };
        let unit = ray_in.direction.normalize();
        let cos_theta = unit.dot(&rec.normal).neg().min(&one);
        let sin_theta = one.sub(&cos_theta.mul(&cos_theta)).sqrt();
        let direction = if rate.mul(&sin_theta).gt(&one) || Dielectric::reflectance(cos_theta, rate).gt(
            &samples.first,
        ) {
            reflect(&unit, &rec.normal)
        } else {
            refract(&unit, &rec.normal, rate)
        };
        if samples.second.gt(&self.opacity) {
            ScatterRecord::specular(Ray::new(rec.p, direction), albedo)
        } else {
            ScatterRecord::diffuse(rec.normal, albedo)
        }
    }

    /// The density with which the surface scatters: 1.
    pub fn scattering_pdf(&self) -> (r: Scalar)
        ensures
            r.bits == ONE_BITS,
    {
        Scalar::one()
    }
}

impl DiffuseLight {
    /// A light; the intensity is held at or above 0.
    pub fn new(emit: Color, intensity: Scalar) -> (r: DiffuseLight)
        ensures
            r.emit == Texture::SolidColor(SolidColor { color_value: emit }),
            r.intensity == floored(intensity),
    {
        DiffuseLight {
            emit: Texture::SolidColor(SolidColor::new(emit)),
            intensity: floor_at_zero(&intensity),
        }
    }

    pub fn new_texture(emit: Texture, intensity: Scalar) -> (r: DiffuseLight)
        ensures
            r.emit == emit,
            r.intensity == floored(intensity),
    {
        DiffuseLight { emit, intensity: floor_at_zero(&intensity) }
    }

    /// A light scatters nothing: the record it leaves passes on no light.
    pub fn scatter(&self, srec: &mut ScatterRecord) -> (r: bool)
        ensures
            !r,
            *final(srec) == (ScatterRecord {
                is_specular: false,
                attenuation: no_ray().origin,
                pdf_ptr: None,
                ..*old(srec)
            }),
    {
        srec.is_specular = false;
        srec.attenuation = Vec3::new_init();
        srec.pdf_ptr = None;
        false
    }

    /// What the light emits where its texture has the value `value`: the
    /// value times the intensity.
    pub fn emitted(&self, value: Color) -> (r: Color)
        ensures
            r == value.scaled(self.intensity),
    {
        value.scale(&self.intensity)
    }
}

impl Plastic {
    /// The scattering: where the first sample is below the reflectivity, a
    /// specular one along the blurred mirror image of the ray, which counts
    /// only where it leaves the surface; else a diffuse one.
    pub open spec fn scattered(self, ray_in: Ray, rec: HitRecord, albedo: Color, samples: Samples) -> Option<
        ScatterRecord,
    > {
        if samples.first.below(self.reflectivity) {
            leaving(rec, fuzzed(ray_in.direction, rec.normal, self.fuzz, samples.fuzz), albedo)
        } else {
            Some(diffuse(rec.normal, albedo))
        }
    }

    /// A plastic; reflectivity and fuzz are held to the interval from 0 to 1.
    pub fn new(albedo: Color, reflectivity: Scalar, fuzz: Scalar) -> (r: Plastic)
        ensures
            r.albedo == Texture::SolidColor(SolidColor { color_value: albedo }),
            r.reflectivity == fraction(reflectivity),
            r.fuzz == fraction(fuzz),
    {
        Plastic {
            albedo: Texture::SolidColor(SolidColor::new(albedo)),
            reflectivity: to_fraction(&reflectivity),
            fuzz: to_fraction(&fuzz),
        }
    }

    pub fn new_texture(albedo: Texture, reflectivity: Scalar, fuzz: Scalar) -> (r: Plastic)
        ensures
            r.albedo == albedo,
            r.reflectivity == fraction(reflectivity),
            r.fuzz == fraction(fuzz),
    {
        Plastic { albedo, reflectivity: to_fraction(&reflectivity), fuzz: to_fraction(&fuzz) }
    }

    /// The scattering of a ray at a hit.
    pub fn scatter(&self, ray_in: &Ray, rec: &HitRecord, albedo: Color, samples: &Samples) -> (r:
        Option<ScatterRecord>)
        ensures
            r == self.scattered(*ray_in, *rec, albedo, *samples),
            r matches Some(s) ==> s.attenuation == albedo,
    {
        if samples.first.lt(&self.reflectivity) {
            let direction = reflect(&ray_in.direction, &rec.normal).add(
                &samples.fuzz.scale(&self.fuzz),
            ).normalize();
            leave(rec, direction, albedo)
        } else {
            Some(ScatterRecord::diffuse(rec.normal, albedo))
        }
    }

    /// The density with which the surface scatters into `scattered`.
    pub fn scattering_pdf(&self, rec: &HitRecord, scattered: &Ray) -> (r: Scalar)
        ensures
            r == glossy_density(rec.normal, scattered.direction),
    {
        glossy_pdf(&rec.normal, &scattered.direction)
    }
}

impl GGXGlossy {
    /// The direction of a glossy reflection: the ray is mirrored at a half
    /// vector, which is the mirror image of the ray plus the normal over
    /// `sqrt((n · r)(roughness² - 1) + 1)`, at unit length.
    pub open spec fn glossy(self, d: Vec3, normal: Vec3) -> Vec3 {
        let one = Scalar { bits: ONE_BITS };
        let r = reflected(d, normal);
        let a = self.roughness.times(self.roughness).minus(one);
        let b = normal.dotted(r).times(a).plus(one).root();
        let half = r.plus(normal.shrunk(b)).unit();
        reflected(d, half).unit()
    }

    /// The scattering: where the first sample is below the reflectivity, a
    /// specular one along the glossy reflection of the ray; else a diffuse
    /// one.
    pub open spec fn scattered(self, ray_in: Ray, rec: HitRecord, albedo: Color, samples: Samples) -> ScatterRecord {
        if samples.first.below(self.reflectivity) {
            specular(
                Ray { origin: rec.p, direction: self.glossy(ray_in.direction, rec.normal) },
                albedo,
            )
        } else {
            diffuse(rec.normal, albedo)
        }
    }

    /// A glossy surface; roughness and reflectivity are held to the interval
    /// from 0 to 1.
    pub fn new(albedo: Color, roughness: Scalar, reflectivity: Scalar) -> (r: GGXGlossy)
        ensures
            r.albedo == Texture::SolidColor(SolidColor { color_value: albedo }),
            r.roughness == unit_clamped(roughness),
            r.reflectivity == unit_clamped(reflectivity),
    {
        GGXGlossy {
            albedo: Texture::SolidColor(SolidColor::new(albedo)),
            roughness: clamp_unit(&roughness),
            reflectivity: clamp_unit(&reflectivity),
        }
    }

    pub fn new_texture(albedo: Texture, roughness: Scalar, reflectivity: Scalar) -> (r: GGXGlossy)
        ensures
            r.albedo == albedo,
            r.roughness == unit_clamped(roughness),
            r.reflectivity == unit_clamped(reflectivity),
    {
        GGXGlossy { albedo, roughness: clamp_unit(&roughness), reflectivity: clamp_unit(&reflectivity) }
    }

    /// The scattering of a ray at a hit.
    pub fn scatter(&self, ray_in: &Ray, rec: &HitRecord, albedo: Color, samples: &Samples) -> (r:
        ScatterRecord)
        ensures
            r == self.scattered(*ray_in, *rec, albedo, *samples),
            r.attenuation == albedo,
    {
        if samples.first.lt(&self.reflectivity) {
            let one = Scalar::one();
            let normal = rec.normal;
            let r = reflect(&ray_in.direction, &normal);
            let a = self.roughness.mul(&self.roughness).sub(&one);
            let b = normal.dot(&r).mul(&a).add(&one).sqrt();
            let half = r.add(&normal.div(&b)).normalize();
            let direction = reflect(&ray_in.direction, &half).normalize();
            ScatterRecord::specular(Ray::new(rec.p, direction), albedo)
        } else {
            ScatterRecord::diffuse(rec.normal, albedo)
        }
    }

    /// The density with which the surface scatters into `scattered`.
    pub fn scattering_pdf(&self, rec: &HitRecord, scattered: &Ray) -> (r: Scalar)
        ensures
            r == glossy_density(rec.normal, scattered.direction),
    {
        glossy_pdf(&rec.normal, &scattered.direction)
    }
}

impl Material {
    /// Whether the material is a light.
    pub open spec fn emits(&self) -> bool {
        self is DiffuseLight
    }

    /// The texture from which the material takes its colour.
    pub open spec fn texture(&self) -> Texture {
        match *self {
            Material::Lambertian(m) => m.albedo,
            Material::Metal(m) => m.albedo,
            Material::Dielectric(m) => m.albedo,
            Material::DiffuseLight(m) => m.emit,
            Material::Plastic(m) => m.albedo,
            Material::GGXGlossy(m) => m.albedo,
        }
    }

    /// The scattering of a ray at a hit, for the value `albedo` of the
    /// material's texture there: as the kind of the material scatters, and
    /// none for a light.
    pub open spec fn scattered(&self, ray_in: Ray, rec: HitRecord, albedo: Color, samples: Samples) -> Option<
        ScatterRecord,
    > {
        match *self {
            Material::Lambertian(m) => Some(diffuse(rec.normal, albedo)),
            Material::Metal(m) => leaving(
                rec,
                fuzzed(ray_in.direction.unit(), rec.normal, m.fuzz, samples.fuzz),
                albedo,
            ),
            Material::Dielectric(m) => Some(m.scattered(ray_in, rec, albedo, samples)),
            Material::DiffuseLight(m) => None,
            Material::Plastic(m) => m.scattered(ray_in, rec, albedo, samples),
            Material::GGXGlossy(m) => Some(m.scattered(ray_in, rec, albedo, samples)),
        }
    }

    /// The density with which the material scatters a ray into the
    /// direction `d` at a hit: zero for a metal and for a light.
    pub open spec fn density(&self, rec: HitRecord, d: Vec3) -> Scalar {
        match *self {
            Material::Lambertian(m) => cosine_density(rec.normal.dotted(d)),
            Material::Metal(m) => Scalar { bits: 0 },
            Material::Dielectric(m) => Scalar { bits: ONE_BITS },
            Material::DiffuseLight(m) => Scalar { bits: 0 },
            Material::Plastic(m) => glossy_density(rec.normal, d),
            Material::GGXGlossy(m) => glossy_density(rec.normal, d),
        }
    }

    /// What the material emits where its texture has the value `value`:
    /// the value times the intensity for a light, and nothing otherwise.
    pub open spec fn emission(&self, value: Color) -> Color {
        match *self {
            Material::DiffuseLight(m) => value.scaled(m.intensity),
            _ => no_ray().origin,
        }
    }

    /// Whether the material is a light.
    pub fn is_light(&self) -> (r: bool)
        ensures
            r == self.emits(),
    {
        match self {
            Material::DiffuseLight(_) => true,
            _ => false,
        }
    }

    /// The texture from which the material takes its colour: the share of
    /// the light it passes on or, for a light, what it emits.
    pub fn albedo(&self) -> (r: &Texture)
        ensures
            *r == self.texture(),
    {
        match self {
            Material::Lambertian(m) => &m.albedo,
            Material::Metal(m) => &m.albedo,
            Material::Dielectric(m) => &m.albedo,
            Material::DiffuseLight(m) => &m.emit,
            Material::Plastic(m) => &m.albedo,
            Material::GGXGlossy(m) => &m.albedo,
        }
    }

    /// The scattering of a ray at a hit.  `albedo` is the value of the
    /// material's texture at the hit.  A material that is no light passes
    /// on exactly that share of the light.
    pub fn scatter(&self, ray_in: &Ray, rec: &HitRecord, albedo: Color, samples: &Samples) -> (r:
        Option<ScatterRecord>)
        ensures
            r == self.scattered(*ray_in, *rec, albedo, *samples),
            r matches Some(s) ==> s.attenuation == albedo && !self.emits(),
    {
        match self {
            Material::Lambertian(m) => Some(m.scatter(rec, albedo)),
            Material::Metal(m) => m.scatter(ray_in, rec, albedo, samples),
            Material::Dielectric(m) => Some(m.scatter(ray_in, rec, albedo, samples)),
            Material::DiffuseLight(_) => None,
            Material::Plastic(m) => m.scatter(ray_in, rec, albedo, samples),
            Material::GGXGlossy(m) => Some(m.scatter(ray_in, rec, albedo, samples)),
        }
    }

    /// The density with which the material scatters a ray into the
    /// direction of `scattered`.
    pub fn scattering_pdf(&self, rec: &HitRecord, scattered: &Ray) -> (r: Scalar)
        ensures
            r == self.density(*rec, scattered.direction),
    {
        match self {
            Material::Lambertian(m) => m.scattering_pdf(rec, scattered),
            Material::Metal(_) => Scalar::zero(),
            Material::Dielectric(m) => m.scattering_pdf(),
            Material::DiffuseLight(_) => Scalar::zero(),
            Material::Plastic(m) => m.scattering_pdf(rec, scattered),
            Material::GGXGlossy(m) => m.scattering_pdf(rec, scattered),
        }
    }

    /// What the material emits where its texture has the value `value`.
    pub fn emitted(&self, value: Color) -> (r: Color)
        ensures
            r == self.emission(value),
    {
        match self {
            Material::DiffuseLight(m) => m.emitted(value),
            _ => Vec3::new_init(),
        }
    }
}

/// No surface that is not a light adds light: where the value of its texture
/// is at most 1 in every channel, so is the largest channel of what it
/// passes on.
pub proof fn lemma_no_amplification(
    material: Material,
    ray_in: Ray,
    rec: HitRecord,
    albedo: Color,
    samples: Samples,
)
    requires
        albedo.x.at_most(Scalar { bits: ONE_BITS }),
        albedo.y.at_most(Scalar { bits: ONE_BITS }),
        albedo.z.at_most(Scalar { bits: ONE_BITS }),
    ensures
        material.scattered(ray_in, rec, albedo, samples) matches Some(s) ==> s.attenuation.largest().at_most(
            Scalar { bits: ONE_BITS },
        ),
{
}

} // verus!
