//! Reading a scene description.
//!
//! A description is a YAML document with three keys: `constants` (the render
//! settings), `camera` and `world` (a list of objects, each with its
//! material, which in turn has a texture).  The functions here take the text
//! of a description and say what it asks for, or why it is rejected.  Each is
//! stated as a function of the tree that the text holds.
use vstd::prelude::*;
use vstd::string::StringExecFns;
use crate::config::{
    aspect, aspect_ratio, default_settings, CameraSpec, ConfigError, Constants, Key, MaterialSpec, ObjectModel,
    ObjectSpec,
    Real, SphereSpec, TextureSpec, Triple,
};
use crate::document::{find, load_documents, lookup, yaml_documents, Node};

verus! {

/// The value under `key` in the mapping `h`.
pub open spec fn field(h: Seq<(Node, Node)>, key: Key) -> Result<Node, ConfigError> {
    match lookup(h, key.name()) {
        Some(i) => if 0 <= i < h.len() {
            Ok(h[i].1)
        } else {
            Err(ConfigError::Missing(key))
        },
        None => Err(ConfigError::Missing(key)),
    }
}

/// A node that has to be a real number, standing under `key`.
pub open spec fn real_of(n: Node, key: Key) -> Result<Real, ConfigError> {
    match n {
        Node::Real(text) => Ok(Real { text }),
        _ => Err(ConfigError::Malformed(key)),
    }
}

/// A node that has to be a list which starts with three real numbers.
pub open spec fn triple_of(n: Node, key: Key) -> Result<Triple, ConfigError> {
    match n {
        Node::Array(v) => if v@.len() >= 3 {
            match (v@[0], v@[1], v@[2]) {
                (Node::Real(x), Node::Real(y), Node::Real(z)) => Ok(
                    Triple { x: Real { text: x }, y: Real { text: y }, z: Real { text: z } },
                ),
                _ => Err(ConfigError::Malformed(key)),
            }
        } else {
            Err(ConfigError::Malformed(key))
        },
        _ => Err(ConfigError::Malformed(key)),
    }
}

/// The real number under `key`.
pub open spec fn real_field(h: Seq<(Node, Node)>, key: Key) -> Result<Real, ConfigError> {
    match field(h, key) {
        Ok(n) => real_of(n, key),
        Err(e) => Err(e),
    }
}

/// The three real numbers under `key`.
pub open spec fn triple_field(h: Seq<(Node, Node)>, key: Key) -> Result<Triple, ConfigError> {
    match field(h, key) {
        Ok(n) => triple_of(n, key),
        Err(e) => Err(e),
    }
}

/// The text under `key`.
pub open spec fn text_field(h: Seq<(Node, Node)>, key: Key) -> Result<String, ConfigError> {
    match field(h, key) {
        Ok(Node::Text(s)) => Ok(s),
        Ok(_) => Err(ConfigError::Malformed(key)),
        Err(e) => Err(e),
    }
}

/// The whole number under `key`.
pub open spec fn integer_field(h: Seq<(Node, Node)>, key: Key) -> Result<i64, ConfigError> {
    match field(h, key) {
        Ok(Node::Integer(i)) => Ok(i),
        Ok(_) => Err(ConfigError::Malformed(key)),
        Err(e) => Err(e),
    }
}

/// The mapping under `key`.
pub open spec fn hash_field(h: Seq<(Node, Node)>, key: Key) -> Result<Vec<(Node, Node)>, ConfigError> {
    match field(h, key) {
        Ok(Node::Hash(m)) => Ok(m),
        Ok(_) => Err(ConfigError::Malformed(key)),
        Err(e) => Err(e),
    }
}

/// The list under `key`.
pub open spec fn list_field(h: Seq<(Node, Node)>, key: Key) -> Result<Vec<Node>, ConfigError> {
    match field(h, key) {
        Ok(Node::Array(v)) => Ok(v),
        Ok(_) => Err(ConfigError::Malformed(key)),
        Err(e) => Err(e),
    }
}

/// The text under a key that may be absent.
pub open spec fn optional_text(h: Seq<(Node, Node)>, key: Key) -> Result<Option<String>, ConfigError> {
    match field(h, key) {
        Ok(Node::Text(s)) => Ok(Some(s)),
        Ok(_) => Err(ConfigError::Malformed(key)),
        Err(_) => Ok(None),
    }
}

/// The real number under a key that may be absent.
pub open spec fn optional_real(h: Seq<(Node, Node)>, key: Key) -> Result<Option<Real>, ConfigError> {
    match field(h, key) {
        Ok(Node::Real(text)) => Ok(Some(Real { text })),
        Ok(_) => Err(ConfigError::Malformed(key)),
        Err(_) => Ok(None),
    }
}

fn get_field<'a>(h: &'a Vec<(Node, Node)>, key: Key) -> (r: Result<&'a Node, ConfigError>)
    ensures
        match r {
            Ok(n) => field(h@, key) == Ok::<Node, ConfigError>(*n),
            Err(e) => field(h@, key) == Err::<Node, ConfigError>(e),
        },
{
    match find(h, key.text()) {
        Some(i) => Ok(&h[i].1),
        None => Err(ConfigError::Missing(key)),
    }
}

fn get_real_of(n: &Node, key: Key) -> (r: Result<Real, ConfigError>)
    ensures
        r == real_of(*n, key),
{
    match n {
        Node::Real(text) => Ok(Real { text: text.clone() }),
        _ => Err(ConfigError::Malformed(key)),
    }
}

fn get_triple_of(n: &Node, key: Key) -> (r: Result<Triple, ConfigError>)
    ensures
        r == triple_of(*n, key),
{
    match n {
        Node::Array(v) => {
            if v.len() >= 3 {
                match (&v[0], &v[1], &v[2]) {
                    (Node::Real(x), Node::Real(y), Node::Real(z)) => Ok(
                        Triple {
                            x: Real { text: x.clone() },
                            y: Real { text: y.clone() },
                            z: Real { text: z.clone() },
                        },
                    ),
                    _ => Err(ConfigError::Malformed(key)),
                }
            } else {
                Err(ConfigError::Malformed(key))
            }
        },
        _ => Err(ConfigError::Malformed(key)),
    }
}

fn get_real(h: &Vec<(Node, Node)>, key: Key) -> (r: Result<Real, ConfigError>)
    ensures
        r == real_field(h@, key),
{
    match get_field(h, key) {
        Ok(n) => get_real_of(n, key),
        Err(e) => Err(e),
    }
}

fn get_triple(h: &Vec<(Node, Node)>, key: Key) -> (r: Result<Triple, ConfigError>)
    ensures
        r == triple_field(h@, key),
{
    match get_field(h, key) {
        Ok(n) => get_triple_of(n, key),
        Err(e) => Err(e),
    }
}

fn get_text(h: &Vec<(Node, Node)>, key: Key) -> (r: Result<String, ConfigError>)
    ensures
        r == text_field(h@, key),
{
    match get_field(h, key) {
        Ok(Node::Text(s)) => Ok(s.clone()),
        Ok(_) => Err(ConfigError::Malformed(key)),
        Err(e) => Err(e),
    }
}

fn get_integer(h: &Vec<(Node, Node)>, key: Key) -> (r: Result<i64, ConfigError>)
    ensures
        r == integer_field(h@, key),
{
    match get_field(h, key) {
        Ok(Node::Integer(i)) => Ok(*i),
        Ok(_) => Err(ConfigError::Malformed(key)),
        Err(e) => Err(e),
    }
}

fn get_hash<'a>(h: &'a Vec<(Node, Node)>, key: Key) -> (r: Result<&'a Vec<(Node, Node)>, ConfigError>)
    ensures
        match r {
            Ok(m) => hash_field(h@, key) == Ok::<Vec<(Node, Node)>, ConfigError>(*m),
            Err(e) => hash_field(h@, key) == Err::<Vec<(Node, Node)>, ConfigError>(e),
        },
{
    match get_field(h, key) {
        Ok(Node::Hash(m)) => Ok(m),
        Ok(_) => Err(ConfigError::Malformed(key)),
        Err(e) => Err(e),
    }
}

fn get_list<'a>(h: &'a Vec<(Node, Node)>, key: Key) -> (r: Result<&'a Vec<Node>, ConfigError>)
    ensures
        match r {
            Ok(v) => list_field(h@, key) == Ok::<Vec<Node>, ConfigError>(*v),
            Err(e) => list_field(h@, key) == Err::<Vec<Node>, ConfigError>(e),
        },
{
    match get_field(h, key) {
        Ok(Node::Array(v)) => Ok(v),
        Ok(_) => Err(ConfigError::Malformed(key)),
        Err(e) => Err(e),
    }
}

fn get_optional_text(h: &Vec<(Node, Node)>, key: Key) -> (r: Result<Option<String>, ConfigError>)
    ensures
        r == optional_text(h@, key),
{
    match get_field(h, key) {
        Ok(Node::Text(s)) => Ok(Some(s.clone())),
        Ok(_) => Err(ConfigError::Malformed(key)),
        Err(_) => Ok(None),
    }
}

fn get_optional_real(h: &Vec<(Node, Node)>, key: Key) -> (r: Result<Option<Real>, ConfigError>)
    ensures
        r == optional_real(h@, key),
{
    match get_field(h, key) {
        Ok(Node::Real(text)) => Ok(Some(Real { text: text.clone() })),
        Ok(_) => Err(ConfigError::Malformed(key)),
        Err(_) => Ok(None),
    }
}

/// Whether a text is the given name.
fn is_name(s: &String, name: &str) -> (r: bool)
    ensures
        r == (s@ == name@),
{
    let wanted = String::from_str(name);
    *s == wanted
}

/// The texture that the mapping `m` describes.  `m` names the kind under
/// `texType` and holds the texture's own mapping under `texture`: a colour
/// (`albedo`) for `SolidColor`; two textures (`tex1`, `tex2`), each a mapping
/// like `m`, and a `scale` for `ChessBoard`; a `filename` for `ImageTexture`.
pub open spec fn texture_of(m: Vec<(Node, Node)>) -> Result<TextureSpec, ConfigError>
    decreases m,
{
    match text_field(m@, Key::TexType) {
        Err(e) => Err(e),
        Ok(kind) => match hash_field(m@, Key::Texture) {
            Err(e) => Err(e),
            Ok(t) => if kind@ == "SolidColor"@ {
                match triple_field(t@, Key::Albedo) {
                    Err(e) => Err(e),
                    Ok(albedo) => Ok(TextureSpec::SolidColor { albedo }),
                }
            } else if kind@ == "ChessBoard"@ {
                match hash_field(t@, Key::Tex1) {
                    Err(e) => Err(e),
                    Ok(first) => match texture_of(first) {
                        Err(e) => Err(e),
                        Ok(odd) => match hash_field(t@, Key::Tex2) {
                            Err(e) => Err(e),
                            Ok(second) => match texture_of(second) {
                                Err(e) => Err(e),
                                Ok(even) => match real_field(t@, Key::Scale) {
                                    Err(e) => Err(e),
                                    Ok(scale) => Ok(
                                        TextureSpec::ChessBoard {
                                            odd: Box::new(odd),
                                            even: Box::new(even),
                                            scale,
                                        },
                                    ),
                                },
                            },
                        },
                    },
                }
            } else if kind@ == "ImageTexture"@ {
                match text_field(t@, Key::Filename) {
                    Err(e) => Err(e),
                    Ok(filename) => Ok(TextureSpec::ImageTexture { filename }),
                }
            } else {
                Err(ConfigError::UnknownTexture)
            },
        },
    }
}

/// Reads the texture that the mapping `m` describes.
pub fn parse_texture(m: &Vec<(Node, Node)>) -> (r: Result<TextureSpec, ConfigError>)
    ensures
        r == texture_of(*m),
    decreases m,
{
    let kind = get_text(m, Key::TexType)?;
    let t = get_hash(m, Key::Texture)?;
    if is_name(&kind, "SolidColor") {
        let albedo = get_triple(t, Key::Albedo)?;
        Ok(TextureSpec::SolidColor { albedo })
    } else if is_name(&kind, "ChessBoard") {
        let first = get_hash(t, Key::Tex1)?;
        let odd = parse_texture(first)?;
        let second = get_hash(t, Key::Tex2)?;
        let even = parse_texture(second)?;
        let scale = get_real(t, Key::Scale)?;
        Ok(TextureSpec::ChessBoard { odd: Box::new(odd), even: Box::new(even), scale })
    } else if is_name(&kind, "ImageTexture") {
        let filename = get_text(t, Key::Filename)?;
        Ok(TextureSpec::ImageTexture { filename })
    } else {
        Err(ConfigError::UnknownTexture)
    }
}

/// The material of the object that the mapping `obj` describes.  `obj` holds
/// the material's mapping under `material`; that mapping names the kind under
/// `matType`, holds the numbers of that kind (`fuzz` for `Metal`,
/// `refractionIdx` for `Dielectric`, `fuzz` and `reflectivity` for `Plastic`,
/// `reflectivity` and `roughness` for `GGX`, `intensity` for `DiffuseLight`)
/// and describes its texture as [`texture_of`] reads it.  The numbers are
/// read before the texture.
pub open spec fn material_of(obj: Seq<(Node, Node)>) -> Result<MaterialSpec, ConfigError> {
    match hash_field(obj, Key::Material) {
        Err(e) => Err(e),
        Ok(m) => match text_field(m@, Key::MatType) {
            Err(e) => Err(e),
            Ok(kind) => if kind@ == "Lambertian"@ {
                match texture_of(m) {
                    Err(e) => Err(e),
                    Ok(texture) => Ok(MaterialSpec::Lambertian { texture }),
                }
            } else if kind@ == "Metal"@ {
                match real_field(m@, Key::Fuzz) {
                    Err(e) => Err(e),
                    Ok(fuzz) => match texture_of(m) {
                        Err(e) => Err(e),
                        Ok(texture) => Ok(MaterialSpec::Metal { texture, fuzz }),
                    },
                }
            } else if kind@ == "Dielectric"@ {
                match real_field(m@, Key::RefractionIdx) {
                    Err(e) => Err(e),
                    Ok(refraction_idx) => match texture_of(m) {
                        Err(e) => Err(e),
                        Ok(texture) => Ok(MaterialSpec::Dielectric { texture, refraction_idx }),
                    },
                }
            } else if kind@ == "Plastic"@ {
                match real_field(m@, Key::Fuzz) {
                    Err(e) => Err(e),
                    Ok(fuzz) => match real_field(m@, Key::Reflectivity) {
                        Err(e) => Err(e),
                        Ok(reflectivity) => match texture_of(m) {
                            Err(e) => Err(e),
                            Ok(texture) => Ok(MaterialSpec::Plastic { texture, reflectivity, fuzz }),
                        },
                    },
                }
            } else if kind@ == "GGX"@ {
                match real_field(m@, Key::Reflectivity) {
                    Err(e) => Err(e),
                    Ok(reflectivity) => match real_field(m@, Key::Roughness) {
                        Err(e) => Err(e),
                        Ok(roughness) => match texture_of(m) {
                            Err(e) => Err(e),
                            Ok(texture) => Ok(MaterialSpec::GGX { texture, roughness, reflectivity }),
                        },
                    },
                }
            } else if kind@ == "DiffuseLight"@ {
                match real_field(m@, Key::Intensity) {
                    Err(e) => Err(e),
                    Ok(intensity) => match texture_of(m) {
                        Err(e) => Err(e),
                        Ok(texture) => Ok(MaterialSpec::DiffuseLight { texture, intensity }),
                    },
                }
            } else {
                Err(ConfigError::UnknownMaterial)
            },
        },
    }
}

/// Reads the material of the object that the mapping `obj` describes.
pub fn parse_material(obj: &Vec<(Node, Node)>) -> (r: Result<MaterialSpec, ConfigError>)
    ensures
        r == material_of(obj@),
{
    let m = get_hash(obj, Key::Material)?;
    let kind = get_text(m, Key::MatType)?;
    if is_name(&kind, "Lambertian") {
        let texture = parse_texture(m)?;
        Ok(MaterialSpec::Lambertian { texture })
    } else if is_name(&kind, "Metal") {
        let fuzz = get_real(m, Key::Fuzz)?;
        let texture = parse_texture(m)?;
        Ok(MaterialSpec::Metal { texture, fuzz })
    } else if is_name(&kind, "Dielectric") {
        let refraction_idx = get_real(m, Key::RefractionIdx)?;
        let texture = parse_texture(m)?;
        Ok(MaterialSpec::Dielectric { texture, refraction_idx })
    } else if is_name(&kind, "Plastic") {
        let fuzz = get_real(m, Key::Fuzz)?;
        let reflectivity = get_real(m, Key::Reflectivity)?;
        let texture = parse_texture(m)?;
        Ok(MaterialSpec::Plastic { texture, reflectivity, fuzz })
    } else if is_name(&kind, "GGX") {
        let reflectivity = get_real(m, Key::Reflectivity)?;
        let roughness = get_real(m, Key::Roughness)?;
        let texture = parse_texture(m)?;
        Ok(MaterialSpec::GGX { texture, roughness, reflectivity })
    } else if is_name(&kind, "DiffuseLight") {
        let intensity = get_real(m, Key::Intensity)?;
        let texture = parse_texture(m)?;
        Ok(MaterialSpec::DiffuseLight { texture, intensity })
    } else {
        Err(ConfigError::UnknownMaterial)
    }
}

/// The sphere that `obj` describes, of the given material: `center` and
/// `radius`.
pub open spec fn sphere_of(obj: Seq<(Node, Node)>, material: MaterialSpec) -> Result<
    SphereSpec,
    ConfigError,
> {
    match triple_field(obj, Key::Center) {
        Err(e) => Err(e),
        Ok(center) => match real_field(obj, Key::Radius) {
            Err(e) => Err(e),
            Ok(radius) => Ok(SphereSpec { center, radius, material }),
        },
    }
}

/// The three values of a rectangle: `position`, `width` and `height`.
pub open spec fn rectangle_of(obj: Seq<(Node, Node)>) -> Result<(Triple, Real, Real), ConfigError> {
    match triple_field(obj, Key::Position) {
        Err(e) => Err(e),
        Ok(position) => match real_field(obj, Key::Width) {
            Err(e) => Err(e),
            Ok(width) => match real_field(obj, Key::Height) {
                Err(e) => Err(e),
                Ok(height) => Ok((position, width, height)),
            },
        },
    }
}

/// The object other than a sphere array that `obj` describes, of the given
/// material.  `obj` names its type under `objType`: `Sphere` (`center`,
/// `radius`); `XYRectangle`, `XZRectangle`, `YZRectangle` (`position`,
/// `width`, `height`); `Box` (`position`, `width`, `height`, `depth`); `Mesh`
/// (`filename`, `position`, `rotation`, `scalingFactor`).  The values are
/// read in this order.
pub open spec fn geometry_of(obj: Seq<(Node, Node)>, material: MaterialSpec) -> Result<
    ObjectModel,
    ConfigError,
> {
    match text_field(obj, Key::ObjType) {
        Err(e) => Err(e),
        Ok(kind) => if kind@ == "Sphere"@ {
            match sphere_of(obj, material) {
                Err(e) => Err(e),
                Ok(s) => Ok(ObjectModel::Sphere(s)),
            }
        } else if kind@ == "XYRectangle"@ {
            match rectangle_of(obj) {
                Err(e) => Err(e),
                Ok((position, width, height)) => Ok(
                    ObjectModel::XYRectangle { position, width, height, material },
                ),
            }
        } else if kind@ == "XZRectangle"@ {
            match rectangle_of(obj) {
                Err(e) => Err(e),
                Ok((position, width, height)) => Ok(
                    ObjectModel::XZRectangle { position, width, height, material },
                ),
            }
        } else if kind@ == "YZRectangle"@ {
            match rectangle_of(obj) {
                Err(e) => Err(e),
                Ok((position, width, height)) => Ok(
                    ObjectModel::YZRectangle { position, width, height, material },
                ),
            }
        } else if kind@ == "Box"@ {
            match rectangle_of(obj) {
                Err(e) => Err(e),
                Ok((position, width, height)) => match real_field(obj, Key::Depth) {
                    Err(e) => Err(e),
                    Ok(depth) => Ok(ObjectModel::Box { position, width, height, depth, material }),
                },
            }
        } else if kind@ == "Mesh"@ {
            match text_field(obj, Key::Filename) {
                Err(e) => Err(e),
                Ok(filename) => match triple_field(obj, Key::Position) {
                    Err(e) => Err(e),
                    Ok(position) => match triple_field(obj, Key::Rotation) {
                        Err(e) => Err(e),
                        Ok(rotation) => match real_field(obj, Key::ScalingFactor) {
                            Err(e) => Err(e),
                            Ok(scaling_factor) => Ok(
                                ObjectModel::Mesh {
                                    filename,
                                    position,
                                    rotation,
                                    scaling_factor,
                                    material,
                                },
                            ),
                        },
                    },
                },
            }
        } else {
            Err(ConfigError::UnknownObject)
        },
    }
}

fn parse_sphere(obj: &Vec<(Node, Node)>, material: MaterialSpec) -> (r: Result<
    SphereSpec,
    ConfigError,
>)
    ensures
        r == sphere_of(obj@, material),
{
    let center = get_triple(obj, Key::Center)?;
    let radius = get_real(obj, Key::Radius)?;
    Ok(SphereSpec { center, radius, material })
}

fn parse_rectangle(obj: &Vec<(Node, Node)>) -> (r: Result<(Triple, Real, Real), ConfigError>)
    ensures
        r == rectangle_of(obj@),
{
    let position = get_triple(obj, Key::Position)?;
    let width = get_real(obj, Key::Width)?;
    let height = get_real(obj, Key::Height)?;
    Ok((position, width, height))
}

/// Reads the object other than a sphere array that `obj` describes.
pub fn parse_geometry(obj: &Vec<(Node, Node)>, material: MaterialSpec) -> (r: Result<
    ObjectSpec,
    ConfigError,
>)
    ensures
        match r {
            Ok(o) => geometry_of(obj@, material) == Ok::<ObjectModel, ConfigError>(o@),
            Err(e) => geometry_of(obj@, material) == Err::<ObjectModel, ConfigError>(e),
        },
{
    let kind = get_text(obj, Key::ObjType)?;
    if is_name(&kind, "Sphere") {
        let s = parse_sphere(obj, material)?;
        Ok(ObjectSpec::Sphere(s))
    } else if is_name(&kind, "XYRectangle") {
        let (position, width, height) = parse_rectangle(obj)?;
        Ok(ObjectSpec::XYRectangle { position, width, height, material })
    } else if is_name(&kind, "XZRectangle") {
        let (position, width, height) = parse_rectangle(obj)?;
        Ok(ObjectSpec::XZRectangle { position, width, height, material })
    } else if is_name(&kind, "YZRectangle") {
        let (position, width, height) = parse_rectangle(obj)?;
        Ok(ObjectSpec::YZRectangle { position, width, height, material })
    } else if is_name(&kind, "Box") {
        let (position, width, height) = parse_rectangle(obj)?;
        let depth = get_real(obj, Key::Depth)?;
        Ok(ObjectSpec::Box { position, width, height, depth, material })
    } else if is_name(&kind, "Mesh") {
        let filename = get_text(obj, Key::Filename)?;
        let position = get_triple(obj, Key::Position)?;
        let rotation = get_triple(obj, Key::Rotation)?;
        let scaling_factor = get_real(obj, Key::ScalingFactor)?;
        Ok(ObjectSpec::Mesh { filename, position, rotation, scaling_factor, material })
    } else {
        Err(ConfigError::UnknownObject)
    }
}

/// The sphere that an entry of a sphere array describes: `center`, `radius`
/// and then its material.
pub open spec fn array_sphere_of(obj: Seq<(Node, Node)>) -> Result<SphereSpec, ConfigError> {
    match triple_field(obj, Key::Center) {
        Err(e) => Err(e),
        Ok(center) => match real_field(obj, Key::Radius) {
            Err(e) => Err(e),
            Ok(radius) => match material_of(obj) {
                Err(e) => Err(e),
                Ok(material) => Ok(SphereSpec { center, radius, material }),
            },
        },
    }
}

/// The spheres that the first `n` entries of a sphere array describe.  An
/// entry is a mapping; one whose `objType` is not `Sphere` is passed over.
pub open spec fn array_spheres(items: Seq<Node>, n: int) -> Result<Seq<SphereSpec>, ConfigError>
    decreases n,
{
    if n <= 0 {
        Ok(Seq::empty())
    } else {
        match array_spheres(items, n - 1) {
            Err(e) => Err(e),
            Ok(done) => match items[n - 1] {
                Node::Hash(obj) => match text_field(obj@, Key::ObjType) {
                    Err(e) => Err(e),
                    Ok(kind) => if kind@ == "Sphere"@ {
                        match array_sphere_of(obj@) {
                            Err(e) => Err(e),
                            Ok(s) => Ok(done.push(s)),
                        }
                    } else {
                        Ok(done)
                    },
                },
                _ => Err(ConfigError::Malformed(Key::Objects)),
            },
        }
    }
}

/// The object that an entry of the world describes.  An entry is a mapping
/// that names its type under `objType`.  A `SphereArray` holds its spheres
/// under `objects`; of any other object the material is read, then the
/// geometry.
pub open spec fn object_of(n: Node) -> Result<ObjectModel, ConfigError> {
    match n {
        Node::Hash(obj) => match text_field(obj@, Key::ObjType) {
            Err(e) => Err(e),
            Ok(kind) => if kind@ == "SphereArray"@ {
                match list_field(obj@, Key::Objects) {
                    Err(e) => Err(e),
                    Ok(items) => match array_spheres(items@, items@.len() as int) {
                        Err(e) => Err(e),
                        Ok(spheres) => Ok(ObjectModel::SphereArray { spheres }),
                    },
                }
            } else {
                match material_of(obj@) {
                    Err(e) => Err(e),
                    Ok(material) => geometry_of(obj@, material),
                }
            },
        },
        _ => Err(ConfigError::Malformed(Key::World)),
    }
}

/// The objects that the first `n` entries of the world describe, in their
/// order; the error of the first entry that is rejected.
pub open spec fn world_of(items: Seq<Node>, n: int) -> Result<Seq<ObjectModel>, ConfigError>
    decreases n,
{
    if n <= 0 {
        Ok(Seq::empty())
    } else {
        match world_of(items, n - 1) {
            Err(e) => Err(e),
            Ok(done) => match object_of(items[n - 1]) {
                Err(e) => Err(e),
                Ok(o) => Ok(done.push(o)),
            },
        }
    }
}

/// The mapping at the top of the first document.
pub open spec fn root_of(docs: Option<Seq<Node>>) -> Result<Vec<(Node, Node)>, ConfigError> {
    match docs {
        None => Err(ConfigError::Syntax),
        Some(d) => if d.len() == 0 {
            Err(ConfigError::NoDocument)
        } else {
            match d[0] {
                Node::Hash(root) => Ok(root),
                _ => Err(ConfigError::Malformed(Key::Document)),
            }
        },
    }
}

/// The world that the documents describe: the list under `world`.
pub open spec fn scene_of(docs: Option<Seq<Node>>) -> Result<Seq<ObjectModel>, ConfigError> {
    match root_of(docs) {
        Err(e) => Err(e),
        Ok(root) => match list_field(root@, Key::World) {
            Err(e) => Err(e),
            Ok(items) => world_of(items@, items@.len() as int),
        },
    }
}

/// The objects as their models.
pub open spec fn models(v: Seq<ObjectSpec>) -> Seq<ObjectModel> {
    v.map_values(|o: ObjectSpec| o@)
}

fn parse_array_sphere(obj: &Vec<(Node, Node)>) -> (r: Result<SphereSpec, ConfigError>)
    ensures
        r == array_sphere_of(obj@),
{
    let center = get_triple(obj, Key::Center)?;
    let radius = get_real(obj, Key::Radius)?;
    let material = parse_material(obj)?;
    Ok(SphereSpec { center, radius, material })
}

fn parse_array_spheres(items: &Vec<Node>) -> (r: Result<Vec<SphereSpec>, ConfigError>)
    ensures
        match r {
            Ok(v) => array_spheres(items@, items@.len() as int) == Ok::<Seq<SphereSpec>, ConfigError>(
                v@,
            ),
            Err(e) => array_spheres(items@, items@.len() as int) == Err::<
                Seq<SphereSpec>,
                ConfigError,
            >(e),
        },
{
    let mut out: Vec<SphereSpec> = Vec::new();
    let mut i: usize = 0;
    while i < items.len()
        invariant
            i <= items.len(),
            array_spheres(items@, i as int) == Ok::<Seq<SphereSpec>, ConfigError>(out@),
        decreases items.len() - i,
    {
        match &items[i] {
            Node::Hash(obj) => {
                match get_text(obj, Key::ObjType) {
                    Err(e) => {
                        proof {
                            lemma_array_spheres_fails(items@, i as int + 1, items@.len() as int);
                        }
                        return Err(e);
                    },
                    Ok(kind) => {
                        if is_name(&kind, "Sphere") {
                            match parse_array_sphere(obj) {
                                Err(e) => {
                                    proof {
                                        lemma_array_spheres_fails(
                                            items@,
                                            i as int + 1,
                                            items@.len() as int,
                                        );
                                    }
                                    return Err(e);
                                },
                                Ok(s) => {
                                    out.push(s);
                                },
                            }
                        }
                    },
                }
            },
            _ => {
                proof {
                    lemma_array_spheres_fails(items@, i as int + 1, items@.len() as int);
                }
                return Err(ConfigError::Malformed(Key::Objects));
            },
        }
        i += 1;
    }
    Ok(out)
}

/// Once a prefix of a sphere array is rejected, so is every longer one, with
/// the same error.
proof fn lemma_array_spheres_fails(items: Seq<Node>, n: int, m: int)
    requires
        array_spheres(items, n) is Err,
        n <= m,
    ensures
        array_spheres(items, m) == array_spheres(items, n),
    decreases m - n,
{
    if n < m {
        lemma_array_spheres_fails(items, n, m - 1);
    }
}

/// Once a prefix of the world is rejected, so is every longer one, with the
/// same error.
proof fn lemma_world_fails(items: Seq<Node>, n: int, m: int)
    requires
        world_of(items, n) is Err,
        n <= m,
    ensures
        world_of(items, m) == world_of(items, n),
    decreases m - n,
{
    if n < m {
        lemma_world_fails(items, n, m - 1);
    }
}

/// Reads the object that an entry of the world describes.
pub fn parse_object(n: &Node) -> (r: Result<ObjectSpec, ConfigError>)
    ensures
        match r {
            Ok(o) => object_of(*n) == Ok::<ObjectModel, ConfigError>(o@),
            Err(e) => object_of(*n) == Err::<ObjectModel, ConfigError>(e),
        },
{
    match n {
        Node::Hash(obj) => {
            let kind = get_text(obj, Key::ObjType)?;
            if is_name(&kind, "SphereArray") {
                let items = get_list(obj, Key::Objects)?;
                let spheres = parse_array_spheres(items)?;
                Ok(ObjectSpec::SphereArray { spheres })
            } else {
                let material = parse_material(obj)?;
                parse_geometry(obj, material)
            }
        },
        _ => Err(ConfigError::Malformed(Key::World)),
    }
}

fn first_mapping<'a>(docs: &'a Vec<Node>) -> (r: Result<&'a Vec<(Node, Node)>, ConfigError>)
    ensures
        match r {
            Ok(root) => root_of(Some(docs@)) == Ok::<Vec<(Node, Node)>, ConfigError>(*root),
            Err(e) => root_of(Some(docs@)) == Err::<Vec<(Node, Node)>, ConfigError>(e),
        },
{
    if docs.len() == 0 {
        return Err(ConfigError::NoDocument);
    }
    match &docs[0] {
        Node::Hash(root) => Ok(root),
        _ => Err(ConfigError::Malformed(Key::Document)),
    }
}

/// The world that documents describe, as [`scene_of`] states it.
pub fn scene_from_documents(docs: &Vec<Node>) -> (r: Result<Vec<ObjectSpec>, ConfigError>)
    ensures
        match r {
            Ok(w) => scene_of(Some(docs@)) == Ok::<Seq<ObjectModel>, ConfigError>(models(w@)),
            Err(e) => scene_of(Some(docs@)) == Err::<Seq<ObjectModel>, ConfigError>(e),
        },
{
    let root = first_mapping(docs)?;
    let items = get_list(root, Key::World)?;
    let mut out: Vec<ObjectSpec> = Vec::new();
    let mut i: usize = 0;
    proof {
        assert(models(out@) == Seq::<ObjectModel>::empty());
    }
    while i < items.len()
        invariant
            i <= items.len(),
            root_of(Some(docs@)) == Ok::<Vec<(Node, Node)>, ConfigError>(*root),
            list_field(root@, Key::World) == Ok::<Vec<Node>, ConfigError>(*items),
            world_of(items@, i as int) == Ok::<Seq<ObjectModel>, ConfigError>(models(out@)),
        decreases items.len() - i,
    {
        match parse_object(&items[i]) {
            Err(e) => {
                proof {
                    lemma_world_fails(items@, i as int + 1, items@.len() as int);
                }
                return Err(e);
            },
            Ok(o) => {
                proof {
                    assert(models(out@.push(o)) == models(out@).push(o@));
                }
                out.push(o);
            },
        }
        i += 1;
    }
    Ok(out)
}

/// Reads the world that the text of a description describes.  The text is
/// rejected where it is not YAML, holds no document, or its first document
/// is not a mapping with a list under `world` whose entries all describe an
/// object; else the objects come in the order of the list.
pub fn parse_yaml_scene(source: &str) -> (r: Result<Vec<ObjectSpec>, ConfigError>)
    ensures
        match r {
            Ok(w) => scene_of(yaml_documents(source@)) == Ok::<Seq<ObjectModel>, ConfigError>(
                models(w@),
            ),
            Err(e) => scene_of(yaml_documents(source@)) == Err::<Seq<ObjectModel>, ConfigError>(e),
        },
{
    match load_documents(source) {
        Ok(docs) => scene_from_documents(&docs),
        Err(_) => Err(ConfigError::Syntax),
    }
}

/// The render settings that the documents describe: the mapping under
/// `constants`, with whole numbers under `width`, `height`,
/// `samplesPerPixel`, `maxDepth` and `minDepth`, each cut to 32 bits, the
/// aspect ratio that width and height give and, where they are present, a text under `environmentMap`, real numbers under
/// `environmentDistance` and `environmentIntensity`, and a text under
/// `filter`.
pub open spec fn constants_of(docs: Option<Seq<Node>>) -> Result<Constants, ConfigError> {
    match root_of(docs) {
        Err(e) => Err(e),
        Ok(root) => match hash_field(root@, Key::Constants) {
            Err(e) => Err(e),
            Ok(c) => match integer_field(c@, Key::Width) {
                Err(e) => Err(e),
                Ok(width) => match integer_field(c@, Key::Height) {
                    Err(e) => Err(e),
                    Ok(height) => match integer_field(c@, Key::SamplesPerPixel) {
                        Err(e) => Err(e),
                        Ok(samples) => match integer_field(c@, Key::MaxDepth) {
                            Err(e) => Err(e),
                            Ok(max_depth) => match integer_field(c@, Key::MinDepth) {
                                Err(e) => Err(e),
                                Ok(min_depth) => match optional_text(c@, Key::EnvironmentMap) {
                                    Err(e) => Err(e),
                                    Ok(environment_map) => match optional_real(
                                        c@,
                                        Key::EnvironmentDistance,
                                    ) {
                                        Err(e) => Err(e),
                                        Ok(environment_distance) => match optional_real(
                                            c@,
                                            Key::EnvironmentIntensity,
                                        ) {
                                            Err(e) => Err(e),
                                            Ok(environment_intensity) => match optional_text(
                                                c@,
                                                Key::Filter,
                                            ) {
                                                Err(e) => Err(e),
                                                Ok(filter) => Ok(
                                                    Constants {
                                                        width: width as u32,
                                                        height: height as u32,
                                                        aspect_ratio: aspect(
                                                            width as u32,
                                                            height as u32,
                                                        ),
                                                        samples_per_pixel: samples as u32,
                                                        max_depth: max_depth as u32,
                                                        min_depth: min_depth as u32,
                                                        environment_map,
                                                        environment_distance,
                                                        environment_intensity,
                                                        filter,
                                                    },
                                                ),
                                            },
                                        },
                                    },
                                },
                            },
                        },
                    },
                },
            },
        },
    }
}

/// The render settings that documents describe, as [`constants_of`] states
/// them.
pub fn constants_from_documents(docs: &Vec<Node>) -> (r: Result<Constants, ConfigError>)
    ensures
        r == constants_of(Some(docs@)),
{
    let root = first_mapping(docs)?;
    let c = get_hash(root, Key::Constants)?;
    let width = get_integer(c, Key::Width)?;
    let height = get_integer(c, Key::Height)?;
    let samples = get_integer(c, Key::SamplesPerPixel)?;
    let max_depth = get_integer(c, Key::MaxDepth)?;
    let min_depth = get_integer(c, Key::MinDepth)?;
    let environment_map = get_optional_text(c, Key::EnvironmentMap)?;
    let environment_distance = get_optional_real(c, Key::EnvironmentDistance)?;
    let environment_intensity = get_optional_real(c, Key::EnvironmentIntensity)?;
    let filter = get_optional_text(c, Key::Filter)?;
    let w = #[verifier::truncate]
    (width as u32);
    let h = #[verifier::truncate]
    (height as u32);
    Ok(
        Constants {
            width: w,
            height: h,
            aspect_ratio: aspect_ratio(w, h),
            samples_per_pixel: #[verifier::truncate]
            (samples as u32),
            max_depth: #[verifier::truncate]
            (max_depth as u32),
            min_depth: #[verifier::truncate]
            (min_depth as u32),
            environment_map,
            environment_distance,
            environment_intensity,
            filter,
        },
    )
}

/// Reads the render settings from the text of a description.
pub fn parse_yaml_constants(source: &str) -> (r: Result<Constants, ConfigError>)
    ensures
        r == constants_of(yaml_documents(source@)),
{
    match load_documents(source) {
        Ok(docs) => constants_from_documents(&docs),
        Err(_) => Err(ConfigError::Syntax),
    }
}

/// The settings of a render: those that the description asks for where
/// there is one, and the default settings where there is none.
pub fn settings(source: Option<&str>) -> (r: Result<Constants, ConfigError>)
    ensures
        r == match source {
            Some(text) => constants_of(yaml_documents(text@)),
            None => Ok::<Constants, ConfigError>(default_settings()),
        },
{
    match source {
        Some(text) => parse_yaml_constants(text),
        None => Ok(Constants::default()),
    }
}

/// The camera that the documents describe: the mapping under `camera`, with
/// three numbers each under `lookFrom`, `lookAt` and `vup`, and one each
/// under `vfov`, `aspectRatio`, `aperture` and `focusDistance`.
pub open spec fn camera_of(docs: Option<Seq<Node>>) -> Result<CameraSpec, ConfigError> {
    match root_of(docs) {
        Err(e) => Err(e),
        Ok(root) => match hash_field(root@, Key::Camera) {
            Err(e) => Err(e),
            Ok(c) => match triple_field(c@, Key::LookFrom) {
                Err(e) => Err(e),
                Ok(look_from) => match triple_field(c@, Key::LookAt) {
                    Err(e) => Err(e),
                    Ok(look_at) => match triple_field(c@, Key::Vup) {
                        Err(e) => Err(e),
                        Ok(vup) => match real_field(c@, Key::Vfov) {
                            Err(e) => Err(e),
                            Ok(vfov) => match real_field(c@, Key::AspectRatio) {
                                Err(e) => Err(e),
                                Ok(aspect_ratio) => match real_field(c@, Key::Aperture) {
                                    Err(e) => Err(e),
                                    Ok(aperture) => match real_field(c@, Key::FocusDistance) {
                                        Err(e) => Err(e),
                                        Ok(focus_distance) => Ok(
                                            CameraSpec {
                                                look_from,
                                                look_at,
                                                vup,
                                                vfov,
                                                aspect_ratio,
                                                aperture,
                                                focus_distance,
                                            },
                                        ),
                                    },
                                },
                            },
                        },
                    },
                },
            },
        },
    }
}

/// The camera that documents describe, as [`camera_of`] states it.
pub fn camera_from_documents(docs: &Vec<Node>) -> (r: Result<CameraSpec, ConfigError>)
    ensures
        r == camera_of(Some(docs@)),
{
    let root = first_mapping(docs)?;
    let c = get_hash(root, Key::Camera)?;
    let look_from = get_triple(c, Key::LookFrom)?;
    let look_at = get_triple(c, Key::LookAt)?;
    let vup = get_triple(c, Key::Vup)?;
    let vfov = get_real(c, Key::Vfov)?;
    let aspect_ratio = get_real(c, Key::AspectRatio)?;
    let aperture = get_real(c, Key::Aperture)?;
    let focus_distance = get_real(c, Key::FocusDistance)?;
    Ok(CameraSpec { look_from, look_at, vup, vfov, aspect_ratio, aperture, focus_distance })
}

/// Reads the camera from the text of a description.
pub fn parse_yaml_camera(source: &str) -> (r: Result<CameraSpec, ConfigError>)
    ensures
        r == camera_of(yaml_documents(source@)),
{
    match load_documents(source) {
        Ok(docs) => camera_from_documents(&docs),
        Err(_) => Err(ConfigError::Syntax),
    }
}

} // verus!
