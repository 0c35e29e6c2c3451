//! The image that a render fills, the table of materials beside a scene,
//! the stage that is set for a render, and the scene that is rendered where
//! none is described.
//!
//! The image is a buffer of the `image` crate: `width` by `height` pixels of
//! three bytes.  Rows are rendered one by one, by whichever worker takes
//! them, and stored as they are done; storing a row touches no other row.
//!
//! The built-in scene strews small spheres over the ground, one to a cell
//! of a grid, each with a material drawn by chance.
use vstd::prelude::*;
use crate::color::{bytes_of, gamma, to_rgb};
use crate::config::Constants;
use crate::hittable_list::{light_places, HittableList, LightSet, Object};
use crate::integrator::Limits;
use crate::sampling_filters::FilterKind;
use crate::material::{floored, Dielectric, DiffuseLight, Lambertian, Material, Metal};
use crate::mesh::{Mat3, Mesh, Placement, Turn};
use crate::sphere_array::SphereArray;
use crate::rounding::rounded;
use crate::scalar::{Scalar, HALF_BITS, ONE_BITS};
use crate::sphere::Sphere;
use crate::texture::{EnvironmentMapTexture, GradientColor, Picture, SolidColor, Texture};
use crate::utility::{
    blue_sky, filter_named, load_filter, random_f32_range, ranged, sky_blue, Environment, MINUS_ONE_BITS,
};
use crate::vec3::Vec3;
use crate::vec3::Color;
use image::{ImageBuffer, Rgb};

verus! {

/// An image of the `image` crate: a buffer of three bytes a pixel.
#[verifier::external_body]
pub struct Canvas {
    buffer: ImageBuffer<Rgb<u8>, Vec<u8>>,
}

/// The pixels of an image: what stands at column `x` of row `y`, for every
/// place `(x, y)` of the image.
pub uninterp spec fn image_pixels(img: Canvas) -> Map<(int, int), (u8, u8, u8)>;

/// The width and the height of an image.
pub uninterp spec fn image_size(img: Canvas) -> (u32, u32);

/// The places of an image of the given size.
pub open spec fn places(size: (u32, u32)) -> Set<(int, int)> {
    Set::new(|k: (int, int)| 0 <= k.0 < size.0 && 0 <= k.1 < size.1)
}

impl Canvas {
    /// `ImageBuffer::new`: an image of the given size whose every pixel is
    /// black.  It forms the length of its buffer as three times the width,
    /// and that times the height, and panics where either product is more
    /// than the machine counts; the vector that holds the buffer panics
    /// where its bytes are more than the largest signed number of the
    /// machine.  The precondition leaves all three out.
    #[verifier::external_body]
    pub(crate) fn new(width: u32, height: u32) -> (img: Canvas)
        requires
            3 * width <= usize::MAX,
            3 * width * height <= isize::MAX,
        ensures
            image_size(img) == (width, height),
            image_pixels(img) == Map::new(
                |k: (int, int)| places((width, height)).contains(k),
                |k: (int, int)| (0u8, 0u8, 0u8),
            ),
    {
        Canvas { buffer: ImageBuffer::new(width, height) }
    }

    /// `ImageBuffer::put_pixel`: the pixel at `(x, y)` is replaced, the
    /// others and the size stay.  It panics for a place outside the image,
    /// which the precondition leaves out.
    #[verifier::external_body]
    pub(crate) fn put_pixel(&mut self, x: u32, y: u32, rgb: [u8; 3])
        requires
            x < image_size(*old(self)).0,
            y < image_size(*old(self)).1,
        ensures
            image_size(*final(self)) == image_size(*old(self)),
            image_pixels(*final(self)) == image_pixels(*old(self)).insert(
                (x as int, y as int),
                (rgb@[0], rgb@[1], rgb@[2]),
            ),
    {
        self.buffer.put_pixel(x, y, Rgb(rgb))
    }

    /// `ImageBuffer::get_pixel`: the pixel at `(x, y)`.  It panics for a
    /// place outside the image, which the precondition leaves out.
    #[verifier::external_body]
    pub(crate) fn get_pixel(&self, x: u32, y: u32) -> (rgb: [u8; 3])
        requires
            x < image_size(*self).0,
            y < image_size(*self).1,
        ensures
            (rgb@[0], rgb@[1], rgb@[2]) == image_pixels(*self)[(x as int, y as int)],
    {
        self.buffer.get_pixel(x, y).0
    }

    /// `ImageBuffer::dimensions`: the width and the height.
    #[verifier::external_body]
    pub(crate) fn dimensions(&self) -> (r: (u32, u32))
        ensures
            r == image_size(*self),
    {
        self.buffer.dimensions()
    }

    /// `ImageBuffer::into_raw`: the bytes of the image, row after row and
    /// within a row pixel after pixel, three bytes each.
    #[verifier::external_body]
    pub(crate) fn into_raw(self) -> (raw: Vec<u8>)
        ensures
            raw@.len() == 3 * image_size(self).0 * image_size(self).1,
            forall|x: int, y: int|
                0 <= x < image_size(self).0 && 0 <= y < image_size(self).1 ==> #[trigger] image_pixels(
                    self,
                )[(x, y)] == (
                    raw@[3 * (y * image_size(self).0 + x)],
                    raw@[3 * (y * image_size(self).0 + x) + 1],
                    raw@[3 * (y * image_size(self).0 + x) + 2],
                ),
    {
        self.buffer.into_raw()
    }
}

impl Canvas {
    /// Whether an image of the given size can be held: whether three bytes
    /// for each pixel of a row are no more than the machine counts, and
    /// three bytes for each pixel of the image no more than a vector holds,
    /// which is the largest signed number of the machine.
    pub open spec fn fits(width: u32, height: u32) -> bool {
        3 * width <= usize::MAX && 3 * width * height <= isize::MAX
    }

    /// A black image of the given size; none where the size is more than
    /// can be held.
    pub fn create(width: u32, height: u32) -> (r: Option<Canvas>)
        ensures
            r is Some <==> Canvas::fits(width, height),
            r matches Some(img) ==> image_size(img) == (width, height) && image_pixels(img)
                == Map::new(
                |k: (int, int)| places((width, height)).contains(k),
                |k: (int, int)| (0u8, 0u8, 0u8),
            ),
    {
        assert(0 <= width * height <= 0xffff_ffff * 0xffff_ffff) by (nonlinear_arith)
            requires
                0 <= width <= 0xffff_ffff,
                0 <= height <= 0xffff_ffff,
        ;
        let pixels: u128 = (width as u128) * (height as u128);
        assert(3 * width * height == 3 * (width * height)) by (nonlinear_arith);
        if 3 * (width as u128) <= usize::MAX as u128 && 3 * pixels <= isize::MAX as u128 {
            Some(Canvas::new(width, height))
        } else {
            None
        }
    }

    /// The width and the height.
    pub fn size(&self) -> (r: (u32, u32))
        ensures
            r == image_size(*self),
    {
        self.dimensions()
    }

    /// The pixel at column `x` of row `y`; none outside the image.
    pub fn pixel(&self, x: u32, y: u32) -> (r: Option<[u8; 3]>)
        ensures
            r is Some <==> x < image_size(*self).0 && y < image_size(*self).1,
            r matches Some(rgb) ==> (rgb@[0], rgb@[1], rgb@[2]) == image_pixels(*self)[(
                x as int,
                y as int,
            )],
    {
        let (width, height) = self.dimensions();
        if x < width && y < height {
            Some(self.get_pixel(x, y))
        } else {
            None
        }
    }

    /// The bytes of the image as an encoder takes them: row after row, and
    /// within a row pixel after pixel, red, green and blue.
    pub fn bytes(self) -> (raw: Vec<u8>)
        ensures
            raw@.len() == 3 * image_size(self).0 * image_size(self).1,
            forall|x: int, y: int|
                0 <= x < image_size(self).0 && 0 <= y < image_size(self).1 ==> #[trigger] image_pixels(
                    self,
                )[(x, y)] == (
                    raw@[3 * (y * image_size(self).0 + x)],
                    raw@[3 * (y * image_size(self).0 + x) + 1],
                    raw@[3 * (y * image_size(self).0 + x) + 2],
                ),
    {
        self.into_raw()
    }
}

/// The pixels of an image once row `y` is stored: pixel `x` of the row is
/// the bytes of `row[x]`, the sum of the pixel's samples, of which there
/// are `samples_per_pixel`; every other pixel is as it was.
pub open spec fn with_row(
    pixels: Map<(int, int), (u8, u8, u8)>,
    y: int,
    row: Seq<Color>,
    samples_per_pixel: Scalar,
) -> Map<(int, int), (u8, u8, u8)> {
    Map::new(
        |k: (int, int)| pixels.dom().contains(k) || (k.1 == y && 0 <= k.0 < row.len()),
        |k: (int, int)|
            if k.1 == y && 0 <= k.0 < row.len() {
                bytes_of(gamma(row[k.0], samples_per_pixel))
            } else {
                pixels[k]
            },
    )
}

/// Stores row `y` of the image: pixel `x` of the row becomes the bytes of
/// `row[x]`, the sum of the pixel's samples, of which there are
/// `samples_per_pixel`.  No other row changes.  Nothing is stored, and
/// `false` returned, where the image has no row `y` or the row given is not
/// as wide as the image.
pub fn store_row(img: &mut Canvas, y: u32, row: &Vec<Color>, samples_per_pixel: Scalar) -> (r: bool)
    ensures
        r == (y < image_size(*old(img)).1 && row@.len() == image_size(*old(img)).0),
        image_size(*final(img)) == image_size(*old(img)),
        image_pixels(*final(img)) == if r {
            with_row(image_pixels(*old(img)), y as int, row@, samples_per_pixel)
        } else {
            image_pixels(*old(img))
        },
{
    let (width, height) = img.dimensions();
    if y >= height || row.len() != width as usize {
        return false;
    }
    let mut x: u32 = 0;
    while x < width
        invariant
            x <= width,
            y < height,
            row@.len() == width,
            image_size(*img) == (width, height),
            image_size(*old(img)) == (width, height),
            image_pixels(*img) == with_row(
                image_pixels(*old(img)),
                y as int,
                row@.subrange(0, x as int),
                samples_per_pixel,
            ),
        decreases width - x,
    {
        let rgb = to_rgb(row[x as usize], samples_per_pixel);
        let ghost before = image_pixels(*img);
        img.put_pixel(x, y, rgb);
        proof {
            let so_far = row@.subrange(0, x as int);
            let now = row@.subrange(0, x as int + 1);
            assert forall|i: int| 0 <= i < x implies so_far[i] == now[i] by {}
            assert(now[x as int] == row@[x as int]);
            assert(image_pixels(*img) =~= with_row(image_pixels(*old(img)), y as int, now, samples_per_pixel));
        }
        x += 1;
    }
    proof {
        assert(row@.subrange(0, width as int) == row@);
    }
    true
}

/// Rows may be stored in any order: two different rows stored one after the
/// other give the same image as the two stored the other way round, and
/// each pixel of a stored row is the bytes of its own sum of samples,
/// whatever else was stored.
pub proof fn lemma_rows_in_any_order(
    pixels: Map<(int, int), (u8, u8, u8)>,
    first: int,
    first_row: Seq<Color>,
    second: int,
    second_row: Seq<Color>,
    samples_per_pixel: Scalar,
)
    requires
        first != second,
    ensures
        with_row(with_row(pixels, first, first_row, samples_per_pixel), second, second_row, samples_per_pixel)
            == with_row(with_row(pixels, second, second_row, samples_per_pixel), first, first_row, samples_per_pixel),
        forall|x: int|
            0 <= x < first_row.len() ==> #[trigger] with_row(
                with_row(pixels, first, first_row, samples_per_pixel),
                second,
                second_row,
                samples_per_pixel,
            )[(x, first)] == bytes_of(gamma(first_row[x], samples_per_pixel)),
{
    assert(with_row(with_row(pixels, first, first_row, samples_per_pixel), second, second_row, samples_per_pixel)
        =~= with_row(with_row(pixels, second, second_row, samples_per_pixel), first, first_row, samples_per_pixel));
}

/// A row of black pixels is stored as zero bytes: with `max_depth` zero
/// every sum of samples is black ([`crate::integrator::lemma_depth_zero_pixel`]),
/// so that every row stored, and with it the image, is black.
pub proof fn lemma_dark_row(
    pixels: Map<(int, int), (u8, u8, u8)>,
    y: int,
    row: Seq<Color>,
    samples_per_pixel: Scalar,
)
    requires
        forall|x: int| 0 <= x < row.len() ==> crate::color::dark(#[trigger] row[x]),
    ensures
        forall|x: int|
            0 <= x < row.len() ==> #[trigger] with_row(pixels, y, row, samples_per_pixel)[(x, y)] == (
                0u8,
                0u8,
                0u8,
            ),
{
    assert forall|x: int| 0 <= x < row.len() implies #[trigger] with_row(pixels, y, row, samples_per_pixel)[(
        x,
        y,
    )] == (0u8, 0u8, 0u8) by {
        crate::color::lemma_dark_pixel(row[x], row[x], samples_per_pixel);
    }
}

/// The encoding of 0.2, the radius of the small spheres of the random
/// scene and the height of their centres.
pub const SMALL_RADIUS_BITS: u32 = 0x3e4c_cccd;

/// The encoding of 0.9: how far a small sphere may be moved within its cell,
/// and how far it keeps from the large metal sphere.
pub const SPREAD_BITS: u32 = 0x3f66_6666;

/// The encoding of 0.7: below this a small sphere is diffuse.
pub const DIFFUSE_SHARE_BITS: u32 = 0x3f33_3333;

/// The encoding of 0.95: below this, and not diffuse, a small sphere is of
/// metal; the rest are of glass.
pub const METAL_SHARE_BITS: u32 = 0x3f73_3333;

/// The encoding of 1.5, the index of refraction of glass.
pub const GLASS_INDEX_BITS: u32 = 0x3fc0_0000;

/// The encoding of 4, where the large metal sphere stands on the x axis.
pub const FOUR_BITS: u32 = 0x4080_0000;

/// What chance contributes to a small sphere of the random scene.
#[derive(Clone, Copy, Debug, PartialEq, Eq, Structural)]
pub struct SphereSamples {
    /// Chooses the material.
    pub choice: Scalar,
    /// Move the sphere within its cell, along x and along z.
    pub shift_x: Scalar,
    pub shift_z: Scalar,
    /// Two colours, of which a diffuse sphere takes the product and a metal
    /// one the first.
    pub first: Vec3,
    pub second: Vec3,
    /// The fuzz of a metal sphere.
    pub fuzz: Scalar,
}

/// The whole number `n` as a binary32 number.
pub open spec fn whole(n: i32) -> Scalar {
    if n < 0 {
        rounded(false, (-n) as nat, 0).negated()
    } else {
        rounded(false, n as nat, 0)
    }
}

/// The centre of the small sphere in the cell `(a, b)`.
pub open spec fn cell_centre(a: i32, b: i32, samples: SphereSamples) -> Vec3 {
    let spread = Scalar { bits: SPREAD_BITS };
    Vec3 {
        x: whole(a).plus(spread.times(samples.shift_x)),
        y: Scalar { bits: SMALL_RADIUS_BITS },
        z: whole(b).plus(spread.times(samples.shift_z)),
    }
}

/// Whether the cell gets a sphere: whether its centre is further than 0.9
/// from the point (4, 0.2, 0), where the large metal sphere touches the
/// ground.
pub open spec fn cell_filled(a: i32, b: i32, samples: SphereSamples) -> bool {
    let spot = Vec3 {
        x: Scalar { bits: FOUR_BITS },
        y: Scalar { bits: SMALL_RADIUS_BITS },
        z: Scalar { bits: 0 },
    };
    (Scalar { bits: SPREAD_BITS }).below(cell_centre(a, b, samples).minus(spot).norm())
}

/// The material of a small sphere.
pub open spec fn cell_material(samples: SphereSamples) -> Material {
    let half = Scalar { bits: HALF_BITS };
    let one = Scalar { bits: ONE_BITS };
    let zero = Scalar { bits: 0 };
    if samples.choice.below(Scalar { bits: DIFFUSE_SHARE_BITS }) {
        Material::Lambertian(
            Lambertian {
                albedo: crate::texture::Texture::SolidColor(
                    crate::texture::SolidColor { color_value: samples.first.times(samples.second) },
                ),
            },
        )
    } else if samples.choice.below(Scalar { bits: METAL_SHARE_BITS }) {
        Material::Metal(
            Metal {
                albedo: crate::texture::Texture::SolidColor(
                    crate::texture::SolidColor {
                        color_value: Vec3 {
                            x: ranged(samples.first.x, half, one),
                            y: ranged(samples.first.y, half, one),
                            z: ranged(samples.first.z, half, one),
                        },
                    },
                ),
                fuzz: crate::texture::unit_clamped(ranged(samples.fuzz, zero, half)),
            },
        )
    } else {
        Material::Dielectric(
            Dielectric {
                albedo: crate::texture::Texture::SolidColor(
                    crate::texture::SolidColor { color_value: Vec3 { x: one, y: one, z: one } },
                ),
                refr_idx: Scalar { bits: GLASS_INDEX_BITS },
                opacity: zero,
            },
        )
    }
}

fn number(n: i32) -> (r: Scalar)
    ensures
        r == whole(n),
{
    if n < 0 {
        Scalar::from_u32((-(n as i64)) as u32).neg()
    } else {
        Scalar::from_u32(n as u32)
    }
}

/// The small sphere of the cell `(a, b)` of the random scene, if the cell
/// gets one, and its material, which is to stand in place `material` of the
/// table of materials.  Seven in ten spheres are diffuse, with the product
/// of two random colours; a quarter are of metal, with a colour between
/// one half and 1 in each channel and a fuzz up to one half; the rest are of
/// glass.
pub fn random_sphere(a: i32, b: i32, samples: &SphereSamples, material: usize) -> (r: Option<(Sphere, Material)>)
    ensures
        r is Some <==> cell_filled(a, b, *samples),
        r matches Some((sphere, m)) ==> {
            &&& sphere == (Sphere {
                center: cell_centre(a, b, *samples),
                radius: Scalar { bits: SMALL_RADIUS_BITS },
                material,
                node_index: 0,
            })
            &&& m == cell_material(*samples)
        },
{
    let spread = Scalar::from_bits(SPREAD_BITS);
    let radius = Scalar::from_bits(SMALL_RADIUS_BITS);
    let center = Vec3::new(
        number(a).add(&spread.mul(&samples.shift_x)),
        radius,
        number(b).add(&spread.mul(&samples.shift_z)),
    );
    let spot = Vec3::new(Scalar::from_bits(FOUR_BITS), radius, Scalar::zero());
    if !center.sub(&spot).length().gt(&spread) {
        return None;
    }
    let sphere = Sphere::new(center, radius, material, 0);
    let half = Scalar::from_bits(HALF_BITS);
    let one = Scalar::one();
    let m = if samples.choice.lt(&Scalar::from_bits(DIFFUSE_SHARE_BITS)) {
        Material::Lambertian(Lambertian::new(samples.first.mul(&samples.second)))
    } else if samples.choice.lt(&Scalar::from_bits(METAL_SHARE_BITS)) {
        let albedo = Vec3::new(
            random_f32_range(samples.first.x, half, one),
            random_f32_range(samples.first.y, half, one),
            random_f32_range(samples.first.z, half, one),
        );
        Material::Metal(Metal::new(albedo, random_f32_range(samples.fuzz, Scalar::zero(), half)))
    } else {
        Material::Dielectric(Dielectric::new(Vec3::new(one, one, one), Scalar::from_bits(GLASS_INDEX_BITS), Scalar::zero()))
    };
    Some((sphere, m))
}

/// How many cells the grid of the random scene has along each side.
pub const GRID_SIDE: usize = 22;

/// How many cells the grid has.
pub const GRID_CELLS: usize = 484;

/// The row and the column of cell `n` of the grid, each from -11 to 10.
pub open spec fn cell_of(n: int) -> (i32, i32) {
    ((n / (GRID_SIDE as int) - 11) as i32, (n % (GRID_SIDE as int) - 11) as i32)
}

/// The small spheres of the first `n` cells and their materials, which stand
/// from place `base` of the table of materials on.  A cell for which no
/// samples are given stays empty.
pub open spec fn strewn(samples: Seq<SphereSamples>, base: int, n: int) -> (Seq<Sphere>, Seq<Material>)
    decreases n,
{
    if n <= 0 {
        (Seq::empty(), Seq::empty())
    } else {
        let (spheres, materials) = strewn(samples, base, n - 1);
        let (a, b) = cell_of(n - 1);
        if n - 1 < samples.len() && cell_filled(a, b, samples[n - 1]) {
            (
                spheres.push(
                    Sphere {
                        center: cell_centre(a, b, samples[n - 1]),
                        radius: Scalar { bits: SMALL_RADIUS_BITS },
                        material: (base + materials.len()) as usize,
                        node_index: 0,
                    },
                ),
                materials.push(cell_material(samples[n - 1])),
            )
        } else {
            (spheres, materials)
        }
    }
}

/// A scene as it is built: its objects and the table of their materials.
#[derive(Debug)]
pub struct Built {
    pub world: HittableList,
    pub materials: Vec<Material>,
}

/// The encoding of 1000, the radius of the ground.
pub const GROUND_RADIUS_BITS: u32 = 0x447a_0000;

/// The encoding of -1000, the height of the ground's centre.
pub const GROUND_HEIGHT_BITS: u32 = 0xc47a_0000;

/// The encodings of the colour (0.4, 0.2, 0.1) of the large diffuse sphere.
pub const BROWN_RED_BITS: u32 = 0x3ecc_cccd;

pub const BROWN_GREEN_BITS: u32 = 0x3e4c_cccd;

pub const BROWN_BLUE_BITS: u32 = 0x3dcc_cccd;

/// The encodings of the colour (0.7, 0.6, 0.5) of the large metal sphere.
pub const STEEL_RED_BITS: u32 = 0x3f33_3333;

pub const STEEL_GREEN_BITS: u32 = 0x3f19_999a;

/// The encoding of -4, where the large diffuse sphere stands on the x axis.
pub const MINUS_FOUR_BITS: u32 = 0xc080_0000;

/// The encoding of 0.3, the grey of the jet.
pub const JET_GREY_BITS: u32 = 0x3e99_999a;

/// The encoding of 0.1, the fuzz of the jet.
pub const JET_FUZZ_BITS: u32 = 0x3dcc_cccd;

/// The encoding of 8, the intensity of the light of the built-in scene.
pub const LIGHT_INTENSITY_BITS: u32 = 0x4100_0000;

/// The place of the jet's material in the table of the built-in scene.
pub const JET_MATERIAL: usize = 1;

/// The encodings of 90 and 220: the jet is turned by 90, 90 and 220 degrees
/// about the x, the y and the z axis.
pub const JET_QUARTER_TURN_BITS: u32 = 0x42b4_0000;

pub const JET_LAST_TURN_BITS: u32 = 0x435c_0000;

/// The encoding of 2.5, the length of the jet.
pub const JET_LENGTH_BITS: u32 = 0x4020_0000;

/// The encoding of 8: the jet stands at (-1, 1, 8).
pub const JET_DEPTH_BITS: u32 = 0x4100_0000;

/// The file that holds the mesh of the jet.
pub fn jet_file() -> (r: &'static str)
    ensures
        r@ == "models/jet/jet2.obj"@,
{
    "models/jet/jet2.obj"
}

/// The angles by which the jet is turned, in degrees.
pub fn jet_angles() -> (r: Vec3)
    ensures
        r == triple(JET_QUARTER_TURN_BITS, JET_QUARTER_TURN_BITS, JET_LAST_TURN_BITS),
{
    point(JET_QUARTER_TURN_BITS, JET_QUARTER_TURN_BITS, JET_LAST_TURN_BITS)
}

/// How the jet is placed in the built-in scene: at (-1, 1, 8), 2.5 long,
/// turned by the three turns, which are those of [`jet_angles`].
pub fn jet_placement(x: Turn, y: Turn, z: Turn) -> (r: Placement)
    ensures
        r == (Placement {
            position: triple(MINUS_ONE_BITS, ONE_BITS, JET_DEPTH_BITS),
            scaling_factor: Scalar { bits: JET_LENGTH_BITS },
            rotation: Mat3::euler(x, y, z),
        }),
{
    Placement::new(point(MINUS_ONE_BITS, ONE_BITS, JET_DEPTH_BITS), Scalar::from_bits(JET_LENGTH_BITS), x, y, z)
}

fn point(x: u32, y: u32, z: u32) -> (r: Vec3)
    ensures
        r == triple(x, y, z),
{
    Vec3::new(Scalar::from_bits(x), Scalar::from_bits(y), Scalar::from_bits(z))
}

/// The vector of the three numbers with the given encodings.
pub open spec fn triple(x: u32, y: u32, z: u32) -> Vec3 {
    Vec3 { x: Scalar { bits: x }, y: Scalar { bits: y }, z: Scalar { bits: z } }
}

/// The texture of one colour.
pub open spec fn plain(color: Vec3) -> Texture {
    Texture::SolidColor(SolidColor { color_value: color })
}

/// Clear glass.
pub open spec fn glass() -> Material {
    Material::Dielectric(
        Dielectric {
            albedo: plain(triple(ONE_BITS, ONE_BITS, ONE_BITS)),
            refr_idx: Scalar { bits: GLASS_INDEX_BITS },
            opacity: Scalar { bits: 0 },
        },
    )
}

/// The diffuse brown of the second large sphere.
pub open spec fn brown() -> Material {
    Material::Lambertian(Lambertian { albedo: plain(triple(BROWN_RED_BITS, BROWN_GREEN_BITS, BROWN_BLUE_BITS)) })
}

/// The polished metal of the third large sphere.
pub open spec fn steel() -> Material {
    Material::Metal(
        Metal { albedo: plain(triple(STEEL_RED_BITS, STEEL_GREEN_BITS, HALF_BITS)), fuzz: Scalar { bits: 0 } },
    )
}

/// The diffuse grey of the ground.
pub open spec fn ground_grey() -> Material {
    Material::Lambertian(Lambertian { albedo: plain(triple(HALF_BITS, HALF_BITS, HALF_BITS)) })
}

/// The dull metal of the jet.
pub open spec fn jet_metal() -> Material {
    Material::Metal(
        Metal {
            albedo: plain(triple(JET_GREY_BITS, JET_GREY_BITS, JET_GREY_BITS)),
            fuzz: Scalar { bits: JET_FUZZ_BITS },
        },
    )
}

/// The white light of the built-in scene.
pub open spec fn lamp() -> Material {
    Material::DiffuseLight(
        DiffuseLight {
            emit: plain(triple(ONE_BITS, ONE_BITS, ONE_BITS)),
            intensity: Scalar { bits: LIGHT_INTENSITY_BITS },
        },
    )
}

/// A sphere of the scene as an object.
pub open spec fn ball(center: Vec3, radius: u32, material: int) -> Object {
    Object::Sphere(Sphere { center, radius: Scalar { bits: radius }, material: material as usize, node_index: 0 })
}

/// The three large spheres, of radius 1 on the ground: one at the origin,
/// one behind it and one before it.  Their materials stand from place
/// `base` of the table on.
pub open spec fn large_spheres(base: int) -> Seq<Object> {
    seq![
        ball(triple(0, ONE_BITS, 0), ONE_BITS, base),
        ball(triple(MINUS_FOUR_BITS, ONE_BITS, 0), ONE_BITS, base + 1),
        ball(triple(FOUR_BITS, ONE_BITS, 0), ONE_BITS, base + 2),
    ]
}

/// The materials of the three large spheres: glass, diffuse brown and
/// polished metal.
pub open spec fn large_materials() -> Seq<Material> {
    seq![glass(), brown(), steel()]
}

/// The ground: a sphere of radius 1000 whose top is the origin.
pub open spec fn ground(material: int) -> Object {
    ball(triple(0, GROUND_HEIGHT_BITS, 0), GROUND_RADIUS_BITS, material)
}

/// The light of the environment: it shows the picture, or without one the
/// sky, white below and the sky's blue above, with the given intensity.
pub open spec fn environment_light(intensity: Scalar, picture: Option<Picture>) -> Material {
    Material::DiffuseLight(
        DiffuseLight {
            emit: match picture {
                Some(image) => Texture::EnvironmentMapTexture(EnvironmentMapTexture { image }),
                None => Texture::GradientColor(
                    GradientColor {
                        top: Box::new(plain(blue_sky())),
                        bottom: Box::new(plain(triple(ONE_BITS, ONE_BITS, ONE_BITS))),
                    },
                ),
            },
            intensity: floored(intensity),
        },
    )
}

/// What a render needs besides the scene: the light set, the environment
/// sphere where the environment emits, the limits of a path and the filter.
/// Without an environment sphere a ray that misses the scene shows the sky.
#[derive(Debug)]
pub struct Stage {
    pub lights: LightSet,
    pub environment: Option<Sphere>,
    pub limits: Limits,
    pub filter: FilterKind,
}

/// The sphere of the environment: about the origin, of the given radius, of
/// the material in the given place.
pub open spec fn environment_sphere(distance: Scalar, material: int) -> Sphere {
    Sphere { center: triple(0, 0, 0), radius: distance, material: material as usize, node_index: 0 }
}

/// The environment sphere of a scene: there is one where the intensity of
/// the environment is above zero.
pub open spec fn environment_lit(settings: Environment, material: int) -> Option<Sphere> {
    if settings.lit() {
        Some(environment_sphere(settings.distance, material))
    } else {
        None
    }
}

/// The table of materials once the stage is set: with the light of the
/// environment at its end where the environment emits.
pub open spec fn staged_materials(materials: Seq<Material>, settings: Environment, picture: Option<Picture>) -> Seq<
    Material,
> {
    if settings.lit() {
        materials.push(environment_light(settings.intensity, picture))
    } else {
        materials
    }
}

/// A count as the machine holds it: the count itself, and the largest
/// number of the machine for a count beyond that.
pub open spec fn counted(n: nat) -> usize {
    if n <= usize::MAX {
        n as usize
    } else {
        usize::MAX
    }
}

/// Whether the object is the cluster of the given spheres.
pub open spec fn is_cluster(object: Object, spheres: Seq<Sphere>) -> bool {
    object matches Object::SphereArray(cluster) && cluster.spheres@ == spheres && cluster.node_index == 0
}

impl Built {
    /// A scene without objects.
    pub fn new() -> (r: Built)
        ensures
            r.world.objects@ == Seq::<Object>::empty(),
            r.materials@ == Seq::<Material>::empty(),
    {
        Built { world: HittableList::new(), materials: Vec::new() }
    }

    /// Adds a material to the table; its place is returned.
    pub fn add_material(&mut self, material: Material) -> (place: usize)
        ensures
            place == old(self).materials@.len(),
            final(self).materials@ == old(self).materials@.push(material),
            final(self).world == old(self).world,
    {
        let place = self.materials.len();
        self.materials.push(material);
        place
    }

    /// Adds a sphere of the given material.
    pub fn add_sphere(&mut self, center: Vec3, radius: Scalar, material: Material)
        ensures
            final(self).materials@ == old(self).materials@.push(material),
            final(self).world.objects@ == old(self).world.objects@.push(
                ball(center, radius.bits, old(self).materials@.len() as int),
            ),
    {
        let place = self.add_material(material);
        self.world.push(Object::Sphere(Sphere::new(center, radius, place, 0)));
    }

    /// Adds the material of the environment to the table and gives the
    /// sphere about the origin that carries it.  The sphere is no object of
    /// the world: it is asked only where a ray misses the world.
    pub fn add_environment(&mut self, settings: &Environment, picture: Option<Picture>) -> (sphere: Sphere)
        ensures
            final(self).world == old(self).world,
            final(self).materials@ == old(self).materials@.push(environment_light(settings.intensity, picture)),
            sphere == (Sphere {
                center: triple(0, 0, 0),
                radius: settings.distance,
                material: old(self).materials@.len() as usize,
                node_index: 0,
            }),
    {
        let texture = match picture {
            Some(image) => Texture::EnvironmentMapTexture(EnvironmentMapTexture::new(image)),
            None => {
                let one = Scalar::one();
                Texture::GradientColor(
                    GradientColor::new(
                        Box::new(Texture::SolidColor(SolidColor::new(sky_blue()))),
                        Box::new(Texture::SolidColor(SolidColor::new(Vec3::new(one, one, one)))),
                    ),
                )
            },
        };
        let place = self.add_material(Material::DiffuseLight(DiffuseLight::new_texture(texture, settings.intensity)));
        Sphere::new(point(0, 0, 0), settings.distance, place, 0)
    }

    /// Sets the stage for a render: where the environment emits, its
    /// material is added to the table and its sphere joins the lights of
    /// the scene; the limits and the filter are those of the settings.
    pub fn stage(&mut self, constants: &Constants, settings: &Environment, picture: Option<Picture>) -> (stage:
        Stage)
        ensures
            final(self).world == old(self).world,
            final(self).materials@ == staged_materials(old(self).materials@, *settings, picture),
            stage.environment == environment_lit(*settings, old(self).materials@.len() as int),
            stage.lights.environment == stage.environment,
            stage.lights.places@ == light_places(
                final(self).world.objects@,
                final(self).materials@,
                final(self).world.objects@.len() as int,
            ),
            stage.limits == (Limits {
                max_depth: constants.max_depth,
                min_depth: constants.min_depth,
                lights: counted(stage.lights.count()),
            }),
            stage.filter == filter_named(
                match constants.filter {
                    Some(n) => Some(n@),
                    None => None,
                },
            ),
    {
        let environment = if settings.emits() {
            Some(self.add_environment(settings, picture))
        } else {
            None
        };
        let lights = LightSet::new(&self.world, &self.materials, environment);
        let count = match lights.len() {
            Some(count) => count,
            None => usize::MAX,
        };
        let limits = Limits { max_depth: constants.max_depth, min_depth: constants.min_depth, lights: count };
        Stage { lights, environment, limits, filter: load_filter(constants) }
    }

    /// Strews the small spheres over the ground: one cluster of the spheres
    /// of all cells, cell after cell, each with its material.
    pub fn add_random_world_spheres(&mut self, samples: &Vec<SphereSamples>)
        ensures
            final(self).materials@ == old(self).materials@ + strewn(
                samples@,
                old(self).materials@.len() as int,
                GRID_CELLS as int,
            ).1,
            final(self).world.objects@.len() == old(self).world.objects@.len() + 1,
            final(self).world.objects@.drop_last() == old(self).world.objects@,
            is_cluster(
                final(self).world.objects@.last(),
                strewn(samples@, old(self).materials@.len() as int, GRID_CELLS as int).0,
            ),
    {
        let ghost base = self.materials@.len() as int;
        let ghost before = self.materials@;
        let mut spheres: Vec<Sphere> = Vec::new();
        let mut n: usize = 0;
        while n < GRID_CELLS
            invariant
                n <= GRID_CELLS,
                base == before.len(),
                self.world == old(self).world,
                self.materials@ == before + strewn(samples@, base, n as int).1,
                spheres@ == strewn(samples@, base, n as int).0,
            decreases GRID_CELLS - n,
        {
            if n < samples.len() {
                let a: i32 = (n / GRID_SIDE) as i32 - 11;
                let b: i32 = (n % GRID_SIDE) as i32 - 11;
                let ghost so_far = strewn(samples@, base, n as int).1;
                assert(self.materials@.len() == base + so_far.len());
                match random_sphere(a, b, &samples[n], self.materials.len()) {
                    Some((sphere, material)) => {
                        self.materials.push(material);
                        spheres.push(sphere);
                        assert(self.materials@ == before + so_far.push(material));
                    },
                    None => {},
                }
            }
            n += 1;
        }
        let cluster = SphereArray::new(&spheres);
        self.world.push(Object::SphereArray(cluster));
        assert(self.world.objects@.drop_last() == old(self).world.objects@);
    }

    /// Adds the three large spheres: one of glass at the origin, a diffuse
    /// brown one behind it and one of polished metal before it, each of
    /// radius 1 on the ground.
    pub fn add_large_spheres(&mut self)
        ensures
            final(self).materials@ == old(self).materials@ + large_materials(),
            final(self).world.objects@ == old(self).world.objects@ + large_spheres(
                old(self).materials@.len() as int,
            ),
    {
        let one = Scalar::one();
        let zero = Scalar::zero();
        let glass = Dielectric::new(Vec3::new(one, one, one), Scalar::from_bits(GLASS_INDEX_BITS), zero);
        self.add_sphere(Vec3::new(zero, one, zero), one, Material::Dielectric(glass));
        let brown = Lambertian::new(point(BROWN_RED_BITS, BROWN_GREEN_BITS, BROWN_BLUE_BITS));
        self.add_sphere(Vec3::new(Scalar::from_bits(MINUS_FOUR_BITS), one, zero), one, Material::Lambertian(brown));
        let steel = Metal::new(point(STEEL_RED_BITS, STEEL_GREEN_BITS, HALF_BITS), zero);
        self.add_sphere(Vec3::new(Scalar::from_bits(FOUR_BITS), one, zero), one, Material::Metal(steel));
        proof {
            let m = old(self).materials@.len() as int;
            assert(self.materials@ == old(self).materials@ + large_materials());
            assert(self.world.objects@ == old(self).world.objects@ + large_spheres(m));
        }
    }

    /// Adds the ground: a diffuse grey sphere of radius 1000 whose top is
    /// the origin.
    pub fn add_ground(&mut self)
        ensures
            final(self).materials@ == old(self).materials@.push(ground_grey()),
            final(self).world.objects@ == old(self).world.objects@.push(ground(old(self).materials@.len() as int)),
    {
        let grey = Lambertian::new(point(HALF_BITS, HALF_BITS, HALF_BITS));
        self.add_sphere(
            point(0, GROUND_HEIGHT_BITS, 0),
            Scalar::from_bits(GROUND_RADIUS_BITS),
            Material::Lambertian(grey),
        );
    }
}

/// The scene of spheres: the small spheres strewn over the ground, the
/// three large ones, and the ground.
pub fn init_random_scene(samples: &Vec<SphereSamples>) -> (r: Built)
    ensures
        r.materials@ == strewn(samples@, 0, GRID_CELLS as int).1 + large_materials().push(ground_grey()),
        r.world.objects@.len() == 5,
        is_cluster(r.world.objects@[0], strewn(samples@, 0, GRID_CELLS as int).0),
        r.world.objects@.subrange(1, 4) == large_spheres(strewn(samples@, 0, GRID_CELLS as int).1.len() as int),
        r.world.objects@[4] == ground(strewn(samples@, 0, GRID_CELLS as int).1.len() as int + 3),
{
    let mut built = Built::new();
    built.add_random_world_spheres(samples);
    let ghost first = built.world.objects@;
    let ghost small = built.materials@;
    assert(small == strewn(samples@, 0, GRID_CELLS as int).1);
    assert(first.last() == first[0]);
    built.add_large_spheres();
    built.add_ground();
    proof {
        let large = large_spheres(small.len() as int);
        assert(built.world.objects@ == (first + large).push(ground(small.len() as int + 3)));
        assert(built.world.objects@.subrange(1, 4) == large);
        assert(built.materials@ == small + large_materials().push(ground_grey()));
    }
    built
}

/// The built-in scene: the ground, a jet of dull metal, a light above the
/// origin, the small spheres and the three large ones.  The jet is a mesh
/// whose triangles are of the material in place [`JET_MATERIAL`].
pub fn init_scene(jet: Mesh, samples: &Vec<SphereSamples>) -> (r: Built)
    ensures
        r.materials@ == seq![ground_grey(), jet_metal(), lamp()] + strewn(samples@, 3, GRID_CELLS as int).1
            + large_materials(),
        r.world.objects@.len() == 7,
        r.world.objects@[0] == ground(0),
        r.world.objects@[1] == Object::Mesh(jet),
        r.world.objects@[2] == ball(triple(0, FOUR_BITS, 0), HALF_BITS, 2),
        is_cluster(r.world.objects@[3], strewn(samples@, 3, GRID_CELLS as int).0),
        r.world.objects@.subrange(4, 7) == large_spheres(3 + strewn(samples@, 3, GRID_CELLS as int).1.len() as int),
{
    let mut built = Built::new();
    built.add_ground();
    let metal = Metal::new(point(JET_GREY_BITS, JET_GREY_BITS, JET_GREY_BITS), Scalar::from_bits(JET_FUZZ_BITS));
    let place = built.add_material(Material::Metal(metal));
    assert(place == JET_MATERIAL);
    built.world.push(Object::Mesh(jet));
    let one = Scalar::one();
    let light = DiffuseLight::new(Vec3::new(one, one, one), Scalar::from_bits(LIGHT_INTENSITY_BITS));
    built.add_sphere(point(0, FOUR_BITS, 0), Scalar::from_bits(HALF_BITS), Material::DiffuseLight(light));
    let ghost fixed = built.world.objects@;
    assert(built.materials@ == seq![ground_grey(), jet_metal(), lamp()]);
    assert(fixed == seq![ground(0), Object::Mesh(jet), ball(triple(0, FOUR_BITS, 0), HALF_BITS, 2)]);
    built.add_random_world_spheres(samples);
    let ghost strewn_over = built.world.objects@;
    let ghost small = strewn(samples@, 3, GRID_CELLS as int).1;
    assert(strewn_over.drop_last() == fixed);
    built.add_large_spheres();
    proof {
        let large = large_spheres(3 + small.len() as int);
        assert(built.world.objects@ == strewn_over + large);
        assert(built.world.objects@.subrange(4, 7) == large);
        assert(built.world.objects@[0] == strewn_over.drop_last()[0]);
        assert(built.world.objects@[1] == strewn_over.drop_last()[1]);
        assert(built.world.objects@[2] == strewn_over.drop_last()[2]);
    }
    built
}

} // verus!
