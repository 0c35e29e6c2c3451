//! Textures: what colour a surface has at a point.
//!
//! A solid colour is the same everywhere.  A chess board is one of two
//! textures, by the sign of a product of sines at the point.  A gradient
//! blends two textures by height.  An image is looked up at the surface
//! coordinates.  The sines of a chess board are the caller's to compute:
//! the board says of which numbers, and which of its two textures holds for
//! them.
use vstd::prelude::*;
use crate::rounding::rounded;
use crate::scalar::{Scalar, HALF_BITS, ONE_BITS};
use crate::vec3::{Color, Point3, Vec3};

verus! {

/// One colour everywhere.
#[derive(Debug)]
pub struct SolidColor {
    pub color_value: Color,
}

/// Two textures that alternate in space, at a given scale.
#[derive(Debug)]
pub struct ChessBoard {
    pub odd: Box<Texture>,
    pub even: Box<Texture>,
    pub scale: Scalar,
}

/// Two textures blended by height: `bottom` at height -1, `top` at height 1.
#[derive(Debug)]
pub struct GradientColor {
    pub top: Box<Texture>,
    pub bottom: Box<Texture>,
}

/// A picture: `width` by `height` pixels of three bytes, red, green and
/// blue, row after row from the top.  A picture has at least one pixel.
#[derive(Debug)]
pub struct Picture {
    width: u32,
    height: u32,
    data: Vec<u8>,
}

/// An image whose pixels are looked up at the surface coordinates.
#[derive(Debug)]
pub struct ImageTexture {
    pub image: Picture,
}

/// An image that covers the environment sphere.
#[derive(Debug)]
pub struct EnvironmentMapTexture {
    pub image: Picture,
}

/// A texture of one of the kinds.
#[derive(Debug)]
pub enum Texture {
    SolidColor(SolidColor),
    ChessBoard(ChessBoard),
    GradientColor(GradientColor),
    ImageTexture(ImageTexture),
    EnvironmentMapTexture(EnvironmentMapTexture),
}

/// The pixel column (or row) of a coordinate already scaled by the image's
/// width (or height): the scaled coordinate without its fraction, and the
/// last column where that lies beyond the image.
pub open spec fn pixel_of(scaled: Scalar, extent: u32) -> int {
    let i = scaled.truncated(0, u32::MAX as int);
    if i < extent - 1 {
        i
    } else {
        extent - 1
    }
}

impl SolidColor {
    pub fn new(color_value: Color) -> (r: SolidColor)
        ensures
            r.color_value == color_value,
    {
        SolidColor { color_value }
    }

    pub fn from_rgb(r: Scalar, g: Scalar, b: Scalar) -> (s: SolidColor)
        ensures
            s.color_value == (Color { x: r, y: g, z: b }),
    {
        SolidColor { color_value: Color::new(r, g, b) }
    }

    /// The colour at any point.
    pub fn value(&self) -> (r: Color)
        ensures
            r == self.color_value,
    {
        self.color_value
    }
}

impl ChessBoard {
    pub fn new(odd: Box<Texture>, even: Box<Texture>, scale: Scalar) -> (r: ChessBoard)
        ensures
            r.odd == odd,
            r.even == even,
            r.scale == scale,
    {
        ChessBoard { odd, even, scale }
    }

    pub fn new_from_colors(odd: Color, even: Color, scale: Scalar) -> (r: ChessBoard)
        ensures
            *r.odd == Texture::SolidColor(SolidColor { color_value: odd }),
            *r.even == Texture::SolidColor(SolidColor { color_value: even }),
            r.scale == scale,
    {
        ChessBoard {
            odd: Box::new(Texture::SolidColor(SolidColor::new(odd))),
            even: Box::new(Texture::SolidColor(SolidColor::new(even))),
            scale,
        }
    }

    /// The numbers whose sines decide which texture holds at the point `p`:
    /// the coordinates of `p`, each times the scale.
    pub fn arguments(&self, p: &Point3) -> (r: Vec3)
        ensures
            r == (Vec3 {
                x: self.scale.times(p.x),
                y: self.scale.times(p.y),
                z: self.scale.times(p.z),
            }),
    {
        Vec3::new(self.scale.mul(&p.x), self.scale.mul(&p.y), self.scale.mul(&p.z))
    }

    /// The texture that holds at a point.  `sines` are the sines of the
    /// three [`ChessBoard::arguments`]; where their product is below zero
    /// the odd texture holds, else the even one.
    pub fn select(&self, sines: &Vec3) -> (r: &Texture)
        ensures
            *r == if sines.x.times(sines.y).times(sines.z).below(Scalar { bits: 0 }) {
                *self.odd
            } else {
                *self.even
            },
    {
        let zero = Scalar::zero();
        if sines.x.mul(&sines.y).mul(&sines.z).lt(&zero) {
            &*self.odd
        } else {
            &*self.even
        }
    }
}

impl GradientColor {
    pub fn new(top: Box<Texture>, bottom: Box<Texture>) -> (r: GradientColor)
        ensures
            r.top == top,
            r.bottom == bottom,
    {
        GradientColor { top, bottom }
    }

    /// The colour at the point `p`, where the bottom texture has the value
    /// `bottom` and the top texture the value `top`: with
    /// `t = 0.5 · (p.y + 1)` the blend `(1 - t) · bottom + t · top`.
    pub fn blend(p: &Point3, bottom: &Color, top: &Color) -> (r: Color)
        ensures
            r == gradient(*p, *bottom, *top),
    {
        let one = Scalar::one();
        let t = Scalar::from_bits(HALF_BITS).mul(&p.y.add(&one));
        bottom.scale(&one.sub(&t)).add(&top.scale(&t))
    }
}

/// The blend of two colours by height.
pub open spec fn gradient(p: Point3, bottom: Color, top: Color) -> Color {
    let one = Scalar { bits: ONE_BITS };
    let t = (Scalar { bits: HALF_BITS }).times(p.y.plus(one));
    bottom.scaled(one.minus(t)).plus(top.scaled(t))
}

/// The encoding of 1/255, the weight of one step of a byte.
pub const BYTE_STEP_BITS: u32 = 0x3b80_8081;

/// The colour of a pixel of three bytes: each byte times 1/255.
pub open spec fn pixel_color(pixel: (u8, u8, u8)) -> Color {
    let step = Scalar { bits: BYTE_STEP_BITS };
    Vec3 {
        x: rounded(false, pixel.0 as nat, 0).times(step),
        y: rounded(false, pixel.1 as nat, 0).times(step),
        z: rounded(false, pixel.2 as nat, 0).times(step),
    }
}

/// The pixel of an image of `width` by `height` pixels that stands at the
/// surface coordinates `(u, v)`: with both held to the interval from 0 to 1,
/// column `u · width` and row `(1 - v) · height`, each without its fraction
/// and at most the last.
pub open spec fn texel_of(u: Scalar, v: Scalar, width: u32, height: u32) -> (int, int) {
    let su = unit_clamped(u).times(rounded(false, width as nat, 0));
    let sv = (Scalar { bits: ONE_BITS }).minus(unit_clamped(v)).times(rounded(false, height as nat, 0));
    (pixel_of(su, width), pixel_of(sv, height))
}

fn texel(u: Scalar, v: Scalar, width: u32, height: u32) -> (r: (u32, u32))
    requires
        width > 0,
        height > 0,
    ensures
        (r.0 as int, r.1 as int) == texel_of(u, v, width, height),
        r.0 < width,
        r.1 < height,
{
    let su = clamp_unit(&u).mul(&Scalar::from_u32(width));
    let sv = Scalar::one().sub(&clamp_unit(&v)).mul(&Scalar::from_u32(height));
    (column(&su, width), column(&sv, height))
}

/// The colour of a pixel of three bytes.
pub fn color_of(pixel: [u8; 3]) -> (r: Color)
    ensures
        r == pixel_color((pixel@[0], pixel@[1], pixel@[2])),
{
    let step = Scalar::from_bits(BYTE_STEP_BITS);
    Vec3::new(
        Scalar::from_u32(pixel[0] as u32).mul(&step),
        Scalar::from_u32(pixel[1] as u32).mul(&step),
        Scalar::from_u32(pixel[2] as u32).mul(&step),
    )
}

impl Picture {
    #[verifier::type_invariant]
    pub closed spec fn wf(self) -> bool {
        self.width > 0 && self.height > 0 && self.data@.len() == 3 * self.width * self.height
    }

    /// The width and the height.
    pub closed spec fn size(self) -> (u32, u32) {
        (self.width, self.height)
    }

    /// The bytes, row after row.
    pub closed spec fn bytes(self) -> Seq<u8> {
        self.data@
    }

    /// The pixel in column `i` of row `j`.
    pub open spec fn pixel_at(self, i: int, j: int) -> (u8, u8, u8) {
        let at = 3 * (j * self.size().0 + i);
        (self.bytes()[at], self.bytes()[at + 1], self.bytes()[at + 2])
    }

    /// The colour at the surface coordinates `(u, v)`: that of the pixel
    /// there, `u` counted from the left and `v` from the bottom.
    pub open spec fn color_at(self, u: Scalar, v: Scalar) -> Color {
        let (i, j) = texel_of(u, v, self.size().0, self.size().1);
        pixel_color(self.pixel_at(i, j))
    }

    /// The picture of the given bytes; none where the picture would have no
    /// pixel or the bytes are not three for every pixel.
    pub fn new(width: u32, height: u32, data: Vec<u8>) -> (r: Option<Picture>)
        ensures
            r is Some <==> width > 0 && height > 0 && data@.len() == 3 * width * height,
            r matches Some(p) ==> p.size() == (width, height) && p.bytes() == data@,
    {
        assert(0 <= width * height <= 0xffff_ffff * 0xffff_ffff) by (nonlinear_arith)
            requires
                0 <= width <= 0xffff_ffff,
                0 <= height <= 0xffff_ffff,
        ;
        assert(3 * width * height == 3 * (width * height)) by (nonlinear_arith);
        let pixels: u128 = (width as u128) * (height as u128);
        if width > 0 && height > 0 && data.len() as u128 == 3 * pixels {
            Some(Picture { width, height, data })
        } else {
            None
        }
    }

    /// The width and the height.
    pub fn dimensions(&self) -> (r: (u32, u32))
        ensures
            r == self.size(),
            r.0 > 0,
            r.1 > 0,
    {
        proof {
            use_type_invariant(self);
        }
        (self.width, self.height)
    }

    /// The pixel in column `i` of row `j`.
    pub fn get_pixel(&self, i: u32, j: u32) -> (r: [u8; 3])
        requires
            i < self.size().0,
            j < self.size().1,
        ensures
            (r@[0], r@[1], r@[2]) == self.pixel_at(i as int, j as int),
    {
        let n = self.data.len();
        proof {
            use_type_invariant(self);
            let w = self.width as int;
            let h = self.height as int;
            assert(n == 3 * (w * h)) by (nonlinear_arith)
                requires
                    n == 3 * w * h,
            ;
            assert(0 <= j * w && j * w + w <= w * h) by (nonlinear_arith)
                requires
                    0 <= j < h,
                    0 < w,
            ;
        }
        let at: usize = 3 * ((j as usize) * (self.width as usize) + (i as usize));
        [self.data[at], self.data[at + 1], self.data[at + 2]]
    }

    /// The colour at the surface coordinates `(u, v)`.
    pub fn value(&self, u: Scalar, v: Scalar) -> (r: Color)
        ensures
            r == self.color_at(u, v),
    {
        let (width, height) = self.dimensions();
        let (i, j) = texel(u, v, width, height);
        color_of(self.get_pixel(i, j))
    }
}

impl ImageTexture {
    /// The texture of a picture.
    pub fn new(image: Picture) -> (r: ImageTexture)
        ensures
            r.image == image,
    {
        ImageTexture { image }
    }

    /// The colour at the surface coordinates `(u, v)`.
    pub fn value(&self, u: Scalar, v: Scalar) -> (r: Color)
        ensures
            r == self.image.color_at(u, v),
    {
        self.image.value(u, v)
    }
}

impl EnvironmentMapTexture {
    /// The texture of a picture of the environment.
    pub fn new(image: Picture) -> (r: EnvironmentMapTexture)
        ensures
            r.image == image,
    {
        EnvironmentMapTexture { image }
    }

    /// The colour at the surface coordinates `(u, v)`.
    pub fn value(&self, u: Scalar, v: Scalar) -> (r: Color)
        ensures
            r == self.image.color_at(u, v),
    {
        self.image.value(u, v)
    }
}

/// A number held to the interval from 0 to 1.
pub open spec fn unit_clamped(x: Scalar) -> Scalar {
    if x.below(Scalar { bits: 0 }) {
        Scalar { bits: 0 }
    } else if (Scalar { bits: ONE_BITS }).below(x) {
        Scalar { bits: ONE_BITS }
    } else {
        x
    }
}

/// Holds a number to the interval from 0 to 1.
pub fn clamp_unit(x: &Scalar) -> (r: Scalar)
    ensures
        r == unit_clamped(*x),
        !x.nan() ==> 0 <= r.rank() <= ONE_BITS,
        x.nan() ==> r == *x,
{
    let zero = Scalar::zero();
    let one = Scalar::from_bits(ONE_BITS);
    x.clamp(&zero, &one)
}

fn column(scaled: &Scalar, extent: u32) -> (r: u32)
    requires
        extent > 0,
    ensures
        r == pixel_of(*scaled, extent),
        r < extent,
{
    let i = scaled.to_u32();
    if i < extent - 1 {
        i
    } else {
        extent - 1
    }
}

} // verus!
