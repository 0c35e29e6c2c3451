//! What a scene description asks for.
//!
//! These are the values that the parser hands out: the render settings, the
//! camera and the objects of the world with their materials and textures.  A
//! real number is kept as it stands in the text; reading it as a binary32
//! number is left to whoever builds the scene.
use vstd::prelude::*;
use crate::rounding::rounded;
use crate::scalar::Scalar;

verus! {

/// The keys of a scene description, and the places a value can stand in.
#[derive(Clone, Copy, Debug, PartialEq, Eq, Structural)]
pub enum Key {
    /// The document itself.
    Document,
    Constants,
    Width,
    Height,
    SamplesPerPixel,
    MaxDepth,
    MinDepth,
    EnvironmentMap,
    EnvironmentDistance,
    EnvironmentIntensity,
    Filter,
    Camera,
    LookFrom,
    LookAt,
    Vup,
    Vfov,
    AspectRatio,
    Aperture,
    FocusDistance,
    World,
    ObjType,
    Objects,
    Material,
    MatType,
    TexType,
    Texture,
    Albedo,
    Tex1,
    Tex2,
    Scale,
    Filename,
    Fuzz,
    RefractionIdx,
    Reflectivity,
    Roughness,
    Intensity,
    Center,
    Radius,
    Position,
    Depth,
    Rotation,
    ScalingFactor,
}

impl Key {
    /// The key as it is written in a description.
    pub open spec fn name(self) -> Seq<char> {
        match self {
            Key::Document => "document"@,
            Key::Constants => "constants"@,
            Key::Width => "width"@,
            Key::Height => "height"@,
            Key::SamplesPerPixel => "samplesPerPixel"@,
            Key::MaxDepth => "maxDepth"@,
            Key::MinDepth => "minDepth"@,
            Key::EnvironmentMap => "environmentMap"@,
            Key::EnvironmentDistance => "environmentDistance"@,
            Key::EnvironmentIntensity => "environmentIntensity"@,
            Key::Filter => "filter"@,
            Key::Camera => "camera"@,
            Key::LookFrom => "lookFrom"@,
            Key::LookAt => "lookAt"@,
            Key::Vup => "vup"@,
            Key::Vfov => "vfov"@,
            Key::AspectRatio => "aspectRatio"@,
            Key::Aperture => "aperture"@,
            Key::FocusDistance => "focusDistance"@,
            Key::World => "world"@,
            Key::ObjType => "objType"@,
            Key::Objects => "objects"@,
            Key::Material => "material"@,
            Key::MatType => "matType"@,
            Key::TexType => "texType"@,
            Key::Texture => "texture"@,
            Key::Albedo => "albedo"@,
            Key::Tex1 => "tex1"@,
            Key::Tex2 => "tex2"@,
            Key::Scale => "scale"@,
            Key::Filename => "filename"@,
            Key::Fuzz => "fuzz"@,
            Key::RefractionIdx => "refractionIdx"@,
            Key::Reflectivity => "reflectivity"@,
            Key::Roughness => "roughness"@,
            Key::Intensity => "intensity"@,
            Key::Center => "center"@,
            Key::Radius => "radius"@,
            Key::Position => "position"@,
            Key::Depth => "depth"@,
            Key::Rotation => "rotation"@,
            Key::ScalingFactor => "scalingFactor"@,
        }
    }

    /// The key as it is written in a description.
    pub fn text(&self) -> (r: &'static str)
        ensures
            r@ == self.name(),
    {
        match self {
            Key::Document => "document",
            Key::Constants => "constants",
            Key::Width => "width",
            Key::Height => "height",
            Key::SamplesPerPixel => "samplesPerPixel",
            Key::MaxDepth => "maxDepth",
            Key::MinDepth => "minDepth",
            Key::EnvironmentMap => "environmentMap",
            Key::EnvironmentDistance => "environmentDistance",
            Key::EnvironmentIntensity => "environmentIntensity",
            Key::Filter => "filter",
            Key::Camera => "camera",
            Key::LookFrom => "lookFrom",
            Key::LookAt => "lookAt",
            Key::Vup => "vup",
            Key::Vfov => "vfov",
            Key::AspectRatio => "aspectRatio",
            Key::Aperture => "aperture",
            Key::FocusDistance => "focusDistance",
            Key::World => "world",
            Key::ObjType => "objType",
            Key::Objects => "objects",
            Key::Material => "material",
            Key::MatType => "matType",
            Key::TexType => "texType",
            Key::Texture => "texture",
            Key::Albedo => "albedo",
            Key::Tex1 => "tex1",
            Key::Tex2 => "tex2",
            Key::Scale => "scale",
            Key::Filename => "filename",
            Key::Fuzz => "fuzz",
            Key::RefractionIdx => "refractionIdx",
            Key::Reflectivity => "reflectivity",
            Key::Roughness => "roughness",
            Key::Intensity => "intensity",
            Key::Center => "center",
            Key::Radius => "radius",
            Key::Position => "position",
            Key::Depth => "depth",
            Key::Rotation => "rotation",
            Key::ScalingFactor => "scalingFactor",
        }
    }
}

/// Why a description was rejected.
#[derive(Clone, Copy, Debug, PartialEq, Eq, Structural)]
pub enum ConfigError {
    /// The text is not YAML.
    Syntax,
    /// The text holds no document.
    NoDocument,
    /// A mapping lacks the key.
    Missing(Key),
    /// The value under the key is not of the kind that the key asks for.
    Malformed(Key),
    /// An object of a type that the renderer does not know.
    UnknownObject,
    /// A material of a type that the renderer does not know.
    UnknownMaterial,
    /// A texture of a type that the renderer does not know.
    UnknownTexture,
}

/// A real number as the description writes it.
#[derive(Debug)]
pub struct Real {
    pub text: String,
}

/// Three real numbers: a point, a direction, a colour or three angles.
#[derive(Debug)]
pub struct Triple {
    pub x: Real,
    pub y: Real,
    pub z: Real,
}

/// A texture as described.
#[derive(Debug)]
pub enum TextureSpec {
    SolidColor { albedo: Triple },
    ChessBoard { odd: Box<TextureSpec>, even: Box<TextureSpec>, scale: Real },
    ImageTexture { filename: String },
}

/// A material as described.
#[derive(Debug)]
pub enum MaterialSpec {
    Lambertian { texture: TextureSpec },
    Metal { texture: TextureSpec, fuzz: Real },
    Dielectric { texture: TextureSpec, refraction_idx: Real },
    Plastic { texture: TextureSpec, reflectivity: Real, fuzz: Real },
    GGX { texture: TextureSpec, roughness: Real, reflectivity: Real },
    DiffuseLight { texture: TextureSpec, intensity: Real },
}

/// A sphere as described.
#[derive(Debug)]
pub struct SphereSpec {
    pub center: Triple,
    pub radius: Real,
    pub material: MaterialSpec,
}

/// An object of the world as described.  A rectangle is given by its centre
/// and its two extents in its plane; a box by its centre and three extents.
#[derive(Debug)]
pub enum ObjectSpec {
    Sphere(SphereSpec),
    XYRectangle { position: Triple, width: Real, height: Real, material: MaterialSpec },
    XZRectangle { position: Triple, width: Real, height: Real, material: MaterialSpec },
    YZRectangle { position: Triple, width: Real, height: Real, material: MaterialSpec },
    Box { position: Triple, width: Real, height: Real, depth: Real, material: MaterialSpec },
    Mesh {
        filename: String,
        position: Triple,
        rotation: Triple,
        scaling_factor: Real,
        material: MaterialSpec,
    },
    SphereArray { spheres: Vec<SphereSpec> },
}

/// An object of the world, with a sequence where [`ObjectSpec`] has a vector.
pub ghost enum ObjectModel {
    Sphere(SphereSpec),
    XYRectangle { position: Triple, width: Real, height: Real, material: MaterialSpec },
    XZRectangle { position: Triple, width: Real, height: Real, material: MaterialSpec },
    YZRectangle { position: Triple, width: Real, height: Real, material: MaterialSpec },
    Box { position: Triple, width: Real, height: Real, depth: Real, material: MaterialSpec },
    Mesh {
        filename: String,
        position: Triple,
        rotation: Triple,
        scaling_factor: Real,
        material: MaterialSpec,
    },
    SphereArray { spheres: Seq<SphereSpec> },
}

impl View for ObjectSpec {
    type V = ObjectModel;

    open spec fn view(&self) -> ObjectModel {
        match *self {
            ObjectSpec::Sphere(s) => ObjectModel::Sphere(s),
            ObjectSpec::XYRectangle { position, width, height, material } => ObjectModel::XYRectangle {
                position,
                width,
                height,
                material,
            },
            ObjectSpec::XZRectangle { position, width, height, material } => ObjectModel::XZRectangle {
                position,
                width,
                height,
                material,
            },
            ObjectSpec::YZRectangle { position, width, height, material } => ObjectModel::YZRectangle {
                position,
                width,
                height,
                material,
            },
            ObjectSpec::Box { position, width, height, depth, material } => ObjectModel::Box {
                position,
                width,
                height,
                depth,
                material,
            },
            ObjectSpec::Mesh { filename, position, rotation, scaling_factor, material } => ObjectModel::Mesh {
                filename,
                position,
                rotation,
                scaling_factor,
                material,
            },
            ObjectSpec::SphereArray { spheres } => ObjectModel::SphereArray { spheres: spheres@ },
        }
    }
}

/// The camera as described.
#[derive(Debug)]
pub struct CameraSpec {
    pub look_from: Triple,
    pub look_at: Triple,
    pub vup: Triple,
    /// The vertical field of view, in degrees.
    pub vfov: Real,
    pub aspect_ratio: Real,
    pub aperture: Real,
    pub focus_distance: Real,
}

/// The render settings.  The aspect ratio is the width over the height.
#[derive(Debug)]
pub struct Constants {
    pub width: u32,
    pub height: u32,
    pub aspect_ratio: Scalar,
    pub samples_per_pixel: u32,
    pub max_depth: u32,
    pub min_depth: u32,
    pub environment_map: Option<String>,
    pub environment_distance: Option<Real>,
    pub environment_intensity: Option<Real>,
    pub filter: Option<String>,
}

/// The aspect ratio of an image: its width over its height.
pub open spec fn aspect(width: u32, height: u32) -> Scalar {
    rounded(false, width as nat, 0).over(rounded(false, height as nat, 0))
}

/// The aspect ratio of an image: its width over its height.
pub fn aspect_ratio(width: u32, height: u32) -> (r: Scalar)
    ensures
        r == aspect(width, height),
{
    Scalar::from_u32(width).div(&Scalar::from_u32(height))
}

/// The settings of a render without a description: 1920 by 1080 pixels, 64
/// samples each, paths of at most 5000 bounces of which the first 5 are
/// never cut short, the sky for an environment and no filter named.
pub open spec fn default_settings() -> Constants {
    Constants {
        width: 1920,
        height: 1080,
        aspect_ratio: aspect(1920, 1080),
        samples_per_pixel: 64,
        max_depth: 5000,
        min_depth: 5,
        environment_map: None,
        environment_distance: None,
        environment_intensity: None,
        filter: None,
    }
}

impl Constants {
    /// The settings of a render without a description: 1920 by 1080 pixels,
    /// 64 samples each, paths of at most 5000 bounces of which the first 5
    /// are never cut short, the sky for an environment and no filter named.
    pub fn default() -> (r: Constants)
        ensures
            r == default_settings(),
            r.width == 1920,
            r.height == 1080,
            r.aspect_ratio == aspect(1920, 1080),
            r.samples_per_pixel == 64,
            r.max_depth == 5000,
            r.min_depth == 5,
            r.environment_map is None,
            r.environment_distance is None,
            r.environment_intensity is None,
            r.filter is None,
    {
        Constants {
            width: 1920,
            height: 1080,
            aspect_ratio: aspect_ratio(1920, 1080),
            samples_per_pixel: 64,
            max_depth: 5000,
            min_depth: 5,
            environment_map: None,
            environment_distance: None,
            environment_intensity: None,
            filter: None,
        }
    }
}

} // verus!
