//! Triangle meshes.
//!
//! A mesh is a list of vertices and a list of faces, each face three places
//! in the vertex list.  To stand in a scene a mesh is taken from its centre,
//! scaled so that the longest side of its bounding box gets a given length,
//! turned by three Euler angles and moved to its position.  The normal of a
//! vertex is the mean of the normals of the faces that meet in it, and a
//! face whose corners coincide is left out.  The file that holds the mesh is
//! read by the caller; the format that its name asks for is decided here.
use vstd::prelude::*;
use vstd::string::StrSliceExecFns;

use crate::hit_record::HitRecord;
use crate::hittable_list::{
    any_emits,
    any_light,
    closest_among,
    closest_candidate,
    closest_member,
    closest_of_all,
    direction_towards,
    mixture,
    mixture_density,
    Hittable,
    LightSamples,
};
use crate::material::Material;
use crate::onb::unit_axis;
use crate::ray::Ray;
use crate::scalar::{Scalar, HALF_BITS, INFINITY_BITS, ONE_BITS};
use crate::triangle::{made, Triangle};
use crate::vec3::{Point3, Vec3};

verus! {

/// The formats of mesh files.
#[derive(Clone, Copy, Debug, PartialEq, Eq, Structural)]
pub enum MeshFormat {
    /// Binary triangle soup.
    Stl,
    /// Indexed vertex list.
    Obj,
}

/// Why a mesh was rejected.
#[derive(Clone, Copy, Debug, PartialEq, Eq, Structural)]
pub enum MeshError {
    /// The file name ends in neither `.stl` nor `.obj`.
    UnsupportedFormat,
    /// A face names a vertex that the mesh does not have.
    VertexOutOfRange,
    /// The index list does not come in threes.
    RaggedFaces,
}

/// Where the last part of a name starts: behind its last dot, or at 0 where
/// it has none.
pub open spec fn extension_start(name: Seq<char>, n: int) -> int
    decreases n,
{
    if n <= 0 {
        0
    } else if name[n - 1] == '.' {
        n
    } else {
        extension_start(name, n - 1)
    }
}

/// The last part of a name: what follows its last dot, or all of it.
pub open spec fn extension(name: Seq<char>) -> Seq<char> {
    name.subrange(extension_start(name, name.len() as int), name.len() as int)
}

/// The format that a file name asks for.
pub open spec fn format_of(name: Seq<char>) -> Option<MeshFormat> {
    if extension(name) == seq!['s', 't', 'l'] {
        Some(MeshFormat::Stl)
    } else if extension(name) == seq!['o', 'b', 'j'] {
        Some(MeshFormat::Obj)
    } else {
        None
    }
}

proof fn lemma_extension_start_bounds(name: Seq<char>, n: int)
    requires
        0 <= n <= name.len(),
    ensures
        0 <= extension_start(name, n) <= n,
    decreases n,
{
    if n > 0 && name[n - 1] != '.' {
        lemma_extension_start_bounds(name, n - 1);
    }
}

/// The format that a file name asks for: by what follows the last dot of the
/// name, `stl` or `obj`.
pub fn mesh_format(filename: &str) -> (r: Result<MeshFormat, MeshError>)
    ensures
        match r {
            Ok(f) => format_of(filename@) == Some(f),
            Err(e) => format_of(filename@) is None && e == MeshError::UnsupportedFormat,
        },
{
    let len = filename.unicode_len();
    let mut start: usize = len;
    while start > 0 && filename.get_char(start - 1) != '.'
        invariant
            start <= len,
            len == filename@.len(),
            extension_start(filename@, len as int) == extension_start(filename@, start as int),
        decreases start,
    {
        start -= 1;
    }
    proof {
        lemma_extension_start_bounds(filename@, len as int);
    }
    let ghost ext = extension(filename@);
    assert(ext.len() == len - start);
    if len - start != 3 {
        return Err(MeshError::UnsupportedFormat);
    }
    let a = filename.get_char(start);
    let b = filename.get_char(start + 1);
    let c = filename.get_char(start + 2);
    assert(ext[0] == a && ext[1] == b && ext[2] == c);
    if a == 's' && b == 't' && c == 'l' {
        assert(ext == seq!['s', 't', 'l']);
        Ok(MeshFormat::Stl)
    } else if a == 'o' && b == 'b' && c == 'j' {
        assert(ext == seq!['o', 'b', 'j']);
        Ok(MeshFormat::Obj)
    } else {
        assert(seq!['s', 't', 'l'][0] == 's' && seq!['s', 't', 'l'][1] == 't' && seq!['s', 't', 'l'][2] == 'l');
        assert(seq!['o', 'b', 'j'][0] == 'o' && seq!['o', 'b', 'j'][1] == 'b' && seq!['o', 'b', 'j'][2] == 'j');
        Err(MeshError::UnsupportedFormat)
    }
}

/// A face: the places of its three vertices.
pub type Face = (usize, usize, usize);

/// Whether every face names vertices of a mesh of `vertices` vertices.
pub open spec fn faces_valid(faces: Seq<Face>, vertices: int) -> bool {
    forall|f: int|
        0 <= f < faces.len() ==> (#[trigger] faces[f]).0 < vertices && faces[f].1 < vertices
            && faces[f].2 < vertices
}

/// The faces that the first `n` entries of an index list make: entry by
/// entry, three to a face.
pub open spec fn faces_of(indices: Seq<usize>, n: int) -> Seq<Face>
    decreases n,
{
    if n <= 0 {
        Seq::empty()
    } else {
        faces_of(indices, n - 1).push((indices[3 * (n - 1)], indices[3 * (n - 1) + 1], indices[3 * (n - 1) + 2]))
    }
}

/// The faces of an index list, three entries to a face.  A list whose length
/// is no multiple of three is rejected.
pub fn faces_of_indices(indices: &Vec<usize>) -> (r: Result<Vec<Face>, MeshError>)
    ensures
        r is Ok <==> indices@.len() % 3 == 0,
        r matches Ok(faces) ==> faces@ == faces_of(indices@, indices@.len() as int / 3),
        r matches Err(e) ==> e == MeshError::RaggedFaces,
{
    if indices.len() % 3 != 0 {
        return Err(MeshError::RaggedFaces);
    }
    let count = indices.len() / 3;
    let mut faces: Vec<Face> = Vec::new();
    let mut f: usize = 0;
    while f < count
        invariant
            f <= count,
            count * 3 == indices@.len(),
            indices@.len() <= usize::MAX,
            faces@ == faces_of(indices@, f as int),
        decreases count - f,
    {
        faces.push((indices[3 * f], indices[3 * f + 1], indices[3 * f + 2]));
        f += 1;
    }
    Ok(faces)
}

/// The faces that meet in vertex `v`, among the first `n` faces: in the
/// order of the faces, each once for every corner it has in `v`.
pub open spec fn faces_at(faces: Seq<Face>, v: int, n: int) -> Seq<usize>
    decreases n,
{
    if n <= 0 {
        Seq::empty()
    } else {
        let before = faces_at(faces, v, n - 1);
        let f = (n - 1) as usize;
        let one = if faces[n - 1].0 == v { before.push(f) } else { before };
        let two = if faces[n - 1].1 == v { one.push(f) } else { one };
        if faces[n - 1].2 == v { two.push(f) } else { two }
    }
}

/// For every vertex of a mesh the faces that meet in it, in the order of the
/// faces: those whose normals are summed to give the vertex its normal.  A
/// face that names a vertex the mesh does not have is rejected.
pub fn incident_faces(vertices: usize, faces: &Vec<Face>) -> (r: Result<Vec<Vec<usize>>, MeshError>)
    ensures
        r is Ok <==> faces_valid(faces@, vertices as int),
        r matches Ok(lists) ==> lists@.len() == vertices && forall|v: int|
            0 <= v < vertices ==> (#[trigger] lists@[v])@ == faces_at(faces@, v, faces@.len() as int),
        r matches Err(e) ==> e == MeshError::VertexOutOfRange,
{
    let mut lists: Vec<Vec<usize>> = Vec::new();
    let mut v: usize = 0;
    while v < vertices
        invariant
            v <= vertices,
            lists@.len() == v,
            forall|i: int| 0 <= i < v ==> (#[trigger] lists@[i])@ == Seq::<usize>::empty(),
        decreases vertices - v,
    {
        lists.push(Vec::new());
        v += 1;
    }
    let mut f: usize = 0;
    while f < faces.len()
        invariant
            f <= faces.len(),
            lists@.len() == vertices,
            faces_valid(faces@.subrange(0, f as int), vertices as int),
            forall|i: int| 0 <= i < vertices ==> (#[trigger] lists@[i])@ == faces_at(faces@, i, f as int),
        decreases faces.len() - f,
    {
        let (a, b, c) = faces[f];
        if a >= vertices || b >= vertices || c >= vertices {
            return Err(MeshError::VertexOutOfRange);
        }
        add_corner(&mut lists, a, f);
        add_corner(&mut lists, b, f);
        add_corner(&mut lists, c, f);
        proof {
            assert forall|g: int| 0 <= g < f + 1 implies (#[trigger] faces@.subrange(0, f + 1)[g]).0
                < vertices && faces@.subrange(0, f + 1)[g].1 < vertices && faces@.subrange(0, f + 1)[g].2
                < vertices by {
                if g < f {
                    assert(faces@.subrange(0, f as int)[g] == faces@[g]);
                }
            }
        }
        f += 1;
    }
    proof {
        assert(faces@.subrange(0, f as int) == faces@);
    }
    Ok(lists)
}

/// Lists face `f` once more for vertex `v`.
fn add_corner(lists: &mut Vec<Vec<usize>>, v: usize, f: usize)
    requires
        v < old(lists)@.len(),
    ensures
        final(lists)@.len() == old(lists)@.len(),
        final(lists)@[v as int]@ == old(lists)@[v as int]@.push(f),
        forall|i: int| 0 <= i < old(lists)@.len() && i != v ==> final(lists)@[i] == old(lists)@[i],
{
    let mut list: Vec<usize> = Vec::new();
    std::mem::swap(&mut list, &mut lists[v]);
    list.push(f);
    lists.set(v, list);
}

/// The encoding of π/180, the radians of one degree.
pub const RADIANS_PER_DEGREE_BITS: u32 = 0x3c8e_fa35;

/// An angle in radians, given in degrees: the degrees times π/180.
pub fn to_radians(degrees: Scalar) -> (r: Scalar)
    ensures
        r == degrees.times(Scalar { bits: RADIANS_PER_DEGREE_BITS }),
{
    degrees.mul(&Scalar::from_bits(RADIANS_PER_DEGREE_BITS))
}

/// A turn about an axis, by the sine and the cosine of its angle.
#[derive(Clone, Copy, Debug, PartialEq, Eq, Structural)]
pub struct Turn {
    pub sin: Scalar,
    pub cos: Scalar,
}

/// A matrix of three columns.
#[derive(Clone, Copy, Debug, PartialEq, Eq, Structural)]
pub struct Mat3 {
    pub x_axis: Vec3,
    pub y_axis: Vec3,
    pub z_axis: Vec3,
}

impl Mat3 {
    /// The matrix times a vector: the columns, weighted by the vector's
    /// components, summed from the left.
    pub open spec fn transformed(self, v: Vec3) -> Vec3 {
        self.x_axis.scaled(v.x).plus(self.y_axis.scaled(v.y)).plus(self.z_axis.scaled(v.z))
    }

    /// The matrix times a matrix, column by column.
    pub open spec fn product(self, other: Mat3) -> Mat3 {
        Mat3 {
            x_axis: self.transformed(other.x_axis),
            y_axis: self.transformed(other.y_axis),
            z_axis: self.transformed(other.z_axis),
        }
    }

    /// The turn about the x axis.
    pub open spec fn about_x(t: Turn) -> Mat3 {
        let zero = Scalar { bits: 0 };
        Mat3 {
            x_axis: unit_axis(0),
            y_axis: Vec3 { x: zero, y: t.cos, z: t.sin },
            z_axis: Vec3 { x: zero, y: t.sin.negated(), z: t.cos },
        }
    }

    /// The turn about the y axis.
    pub open spec fn about_y(t: Turn) -> Mat3 {
        let zero = Scalar { bits: 0 };
        Mat3 {
            x_axis: Vec3 { x: t.cos, y: zero, z: t.sin.negated() },
            y_axis: unit_axis(1),
            z_axis: Vec3 { x: t.sin, y: zero, z: t.cos },
        }
    }

    /// The turn about the z axis.
    pub open spec fn about_z(t: Turn) -> Mat3 {
        let zero = Scalar { bits: 0 };
        Mat3 {
            x_axis: Vec3 { x: t.cos, y: t.sin, z: zero },
            y_axis: Vec3 { x: t.sin.negated(), y: t.cos, z: zero },
            z_axis: unit_axis(2),
        }
    }

    /// The turn by the three Euler angles: about x, times that about y,
    /// times that about z.
    pub open spec fn euler(x: Turn, y: Turn, z: Turn) -> Mat3 {
        Mat3::about_x(x).product(Mat3::about_y(y)).product(Mat3::about_z(z))
    }

    /// The matrix times a vector.
    pub fn mul_vec(&self, v: &Vec3) -> (r: Vec3)
        ensures
            r == self.transformed(*v),
    {
        self.x_axis.scale(&v.x).add(&self.y_axis.scale(&v.y)).add(&self.z_axis.scale(&v.z))
    }

    /// The matrix times a matrix.
    pub fn mul_mat(&self, other: &Mat3) -> (r: Mat3)
        ensures
            r == self.product(*other),
    {
        Mat3 {
            x_axis: self.mul_vec(&other.x_axis),
            y_axis: self.mul_vec(&other.y_axis),
            z_axis: self.mul_vec(&other.z_axis),
        }
    }

    /// The turn by the three Euler angles.
    pub fn from_euler(x: Turn, y: Turn, z: Turn) -> (r: Mat3)
        ensures
            r == Mat3::euler(x, y, z),
    {
        let zero = Scalar::zero();
        let one = Scalar::one();
        let rx = Mat3 {
            x_axis: Vec3::new(one, zero, zero),
            y_axis: Vec3::new(zero, x.cos, x.sin),
            z_axis: Vec3::new(zero, x.sin.neg(), x.cos),
        };
        let ry = Mat3 {
            x_axis: Vec3::new(y.cos, zero, y.sin.neg()),
            y_axis: Vec3::new(zero, one, zero),
            z_axis: Vec3::new(y.sin, zero, y.cos),
        };
        let rz = Mat3 {
            x_axis: Vec3::new(z.cos, z.sin, zero),
            y_axis: Vec3::new(z.sin.neg(), z.cos, zero),
            z_axis: Vec3::new(zero, zero, one),
        };
        rx.mul_mat(&ry).mul_mat(&rz)
    }
}

/// How a mesh is placed in the scene.
#[derive(Clone, Copy, Debug, PartialEq, Eq, Structural)]
pub struct Placement {
    /// Where the centre of the mesh comes to lie.
    pub position: Point3,
    /// The length that the longest side of the mesh's bounding box gets.
    pub scaling_factor: Scalar,
    /// The turn of the mesh about its centre.
    pub rotation: Mat3,
}

impl Placement {
    /// The placement at `position`, with the length `scaling_factor`,
    /// turned about the x, the y and the z axis by the three turns.
    pub fn new(position: Point3, scaling_factor: Scalar, x: Turn, y: Turn, z: Turn) -> (r: Placement)
        ensures
            r == (Placement { position, scaling_factor, rotation: Mat3::euler(x, y, z) }),
    {
        Placement { position, scaling_factor, rotation: Mat3::from_euler(x, y, z) }
    }
}

/// The smallest coordinates among the first `n` points, axis by axis.
pub open spec fn lowest(points: Seq<Point3>, n: int) -> Point3
    decreases n,
{
    if n <= 0 {
        Vec3 {
            x: Scalar { bits: INFINITY_BITS },
            y: Scalar { bits: INFINITY_BITS },
            z: Scalar { bits: INFINITY_BITS },
        }
    } else {
        lowest(points, n - 1).lower(points[n - 1])
    }
}

/// The largest coordinates among the first `n` points, axis by axis.
pub open spec fn highest(points: Seq<Point3>, n: int) -> Point3
    decreases n,
{
    if n <= 0 {
        Vec3 {
            x: Scalar { bits: 0xff80_0000u32 },
            y: Scalar { bits: 0xff80_0000u32 },
            z: Scalar { bits: 0xff80_0000u32 },
        }
    } else {
        highest(points, n - 1).upper(points[n - 1])
    }
}

/// The centre of a mesh: the middle of the box that holds its vertices.
pub open spec fn centre(vertices: Seq<Point3>) -> Point3 {
    let n = vertices.len() as int;
    lowest(vertices, n).plus(highest(vertices, n)).scaled(Scalar { bits: HALF_BITS })
}

/// The factor by which a mesh is scaled: the scaling factor over the
/// longest side of the box that holds its vertices.
pub open spec fn scale_of(vertices: Seq<Point3>, scaling_factor: Scalar) -> Scalar {
    let n = vertices.len() as int;
    let extent = highest(vertices, n).minus(lowest(vertices, n)).largest();
    (Scalar { bits: ONE_BITS }).over(extent).times(scaling_factor)
}

/// Where a vertex comes to lie: taken from the centre, scaled, turned and
/// moved to the position.
pub open spec fn placed(v: Point3, centre: Point3, scale: Scalar, placement: Placement) -> Point3 {
    placement.rotation.transformed(v.minus(centre).scaled(scale)).plus(placement.position)
}

/// The vertices of a mesh where they come to lie.
pub open spec fn placed_all(vertices: Seq<Point3>, placement: Placement) -> Seq<Point3> {
    Seq::new(
        vertices.len(),
        |i: int| placed(vertices[i], centre(vertices), scale_of(vertices, placement.scaling_factor), placement),
    )
}

/// The corners of a face.
pub open spec fn corners(points: Seq<Point3>, face: Face) -> (Point3, Point3, Point3) {
    (points[face.0 as int], points[face.1 as int], points[face.2 as int])
}

/// The normals of the faces, each at unit length.
pub open spec fn face_normals(points: Seq<Point3>, faces: Seq<Face>) -> Seq<Vec3> {
    Seq::new(faces.len(), |f: int| crate::triangle::face_normal(corners(points, faces[f])))
}

/// The sum of the normals of the first `n` of the listed faces.
pub open spec fn normal_sum(normals: Seq<Vec3>, listed: Seq<usize>, n: int) -> Vec3
    decreases n,
{
    if n <= 0 {
        Vec3 { x: Scalar { bits: 0 }, y: Scalar { bits: 0 }, z: Scalar { bits: 0 } }
    } else {
        normal_sum(normals, listed, n - 1).plus(normals[listed[n - 1] as int])
    }
}

/// The normal of vertex `v`: the sum of the normals of the faces that meet
/// in it, at unit length.
pub open spec fn vertex_normal(points: Seq<Point3>, faces: Seq<Face>, v: int) -> Vec3 {
    let listed = faces_at(faces, v, faces.len() as int);
    normal_sum(face_normals(points, faces), listed, listed.len() as int).unit()
}

/// The triangle of a face: its corners, with the normals of its vertices.
pub open spec fn face_triangle(points: Seq<Point3>, faces: Seq<Face>, f: int, material: usize) -> Triangle {
    let face = faces[f];
    made(
        corners(points, face),
        (
            vertex_normal(points, faces, face.0 as int),
            vertex_normal(points, faces, face.1 as int),
            vertex_normal(points, faces, face.2 as int),
        ),
        material,
        0,
    )
}

/// The triangles of the first `n` faces, those left out whose corners
/// coincide.
pub open spec fn sound_triangles(points: Seq<Point3>, faces: Seq<Face>, material: usize, n: int) -> Seq<
    Triangle,
>
    decreases n,
{
    if n <= 0 {
        Seq::empty()
    } else {
        let t = face_triangle(points, faces, n - 1, material);
        if t.sound() {
            sound_triangles(points, faces, material, n - 1).push(t)
        } else {
            sound_triangles(points, faces, material, n - 1)
        }
    }
}

/// A mesh: triangles behind one hierarchy of bounding volumes.
#[derive(Debug)]
pub struct Mesh {
    pub triangles: Vec<Triangle>,
}

fn bounds_of(vertices: &Vec<Point3>) -> (r: (Point3, Point3))
    ensures
        r.0 == lowest(vertices@, vertices@.len() as int),
        r.1 == highest(vertices@, vertices@.len() as int),
{
    let mut lo = Vec3::splat(Scalar::infinity());
    let mut hi = Vec3::splat(Scalar::neg_infinity());
    let mut i: usize = 0;
    while i < vertices.len()
        invariant
            i <= vertices.len(),
            lo == lowest(vertices@, i as int),
            hi == highest(vertices@, i as int),
        decreases vertices.len() - i,
    {
        lo = lo.min(&vertices[i]);
        hi = hi.max(&vertices[i]);
        i += 1;
    }
    (lo, hi)
}

fn place_all(vertices: &Vec<Point3>, placement: &Placement) -> (r: Vec<Point3>)
    ensures
        r@ == placed_all(vertices@, *placement),
{
    let (lo, hi) = bounds_of(vertices);
    let extent = hi.sub(&lo).max_element();
    let scale = Scalar::one().div(&extent).mul(&placement.scaling_factor);
    let middle = lo.add(&hi).scale(&Scalar::from_bits(HALF_BITS));
    let mut out: Vec<Point3> = Vec::new();
    let mut i: usize = 0;
    while i < vertices.len()
        invariant
            i <= vertices.len(),
            scale == scale_of(vertices@, placement.scaling_factor),
            middle == centre(vertices@),
            out@.len() == i,
            forall|j: int| 0 <= j < i ==> out@[j] == placed(vertices@[j], middle, scale, *placement),
        decreases vertices.len() - i,
    {
        let p = placement.rotation.mul_vec(&vertices[i].sub(&middle).scale(&scale)).add(
            &placement.position,
        );
        out.push(p);
        i += 1;
    }
    proof {
        assert(out@ =~= placed_all(vertices@, *placement));
    }
    out
}

fn normals_of_faces(points: &Vec<Point3>, faces: &Vec<Face>) -> (r: Vec<Vec3>)
    requires
        faces_valid(faces@, points@.len() as int),
    ensures
        r@ == face_normals(points@, faces@),
{
    let mut out: Vec<Vec3> = Vec::new();
    let mut f: usize = 0;
    while f < faces.len()
        invariant
            f <= faces.len(),
            faces_valid(faces@, points@.len() as int),
            out@.len() == f,
            forall|g: int| 0 <= g < f ==> out@[g] == crate::triangle::face_normal(corners(points@, faces@[g])),
        decreases faces.len() - f,
    {
        let (a, b, c) = faces[f];
        assert(faces@[f as int].0 < points@.len());
        let n = points[b].sub(&points[a]).cross(&points[c].sub(&points[a])).normalize();
        out.push(n);
        f += 1;
    }
    proof {
        assert(out@ =~= face_normals(points@, faces@));
    }
    out
}

fn normal_of_vertex(normals: &Vec<Vec3>, listed: &Vec<usize>) -> (r: Vec3)
    requires
        forall|k: int| 0 <= k < listed@.len() ==> #[trigger] listed@[k] < normals@.len(),
    ensures
        r == normal_sum(normals@, listed@, listed@.len() as int).unit(),
{
    let mut sum = Vec3::new_init();
    let mut k: usize = 0;
    while k < listed.len()
        invariant
            k <= listed.len(),
            forall|j: int| 0 <= j < listed@.len() ==> #[trigger] listed@[j] < normals@.len(),
            sum == normal_sum(normals@, listed@, k as int),
        decreases listed.len() - k,
    {
        sum = sum.add(&normals[listed[k]]);
        k += 1;
    }
    sum.normalize()
}

/// Every face listed for a vertex is one of the faces.
proof fn lemma_faces_at_bound(faces: Seq<Face>, v: int, n: int)
    requires
        0 <= n <= faces.len(),
    ensures
        forall|k: int| 0 <= k < faces_at(faces, v, n).len() ==> (#[trigger] faces_at(faces, v, n)[k]) < n,
    decreases n,
{
    if n > 0 {
        lemma_faces_at_bound(faces, v, n - 1);
        let before = faces_at(faces, v, n - 1);
        let f = (n - 1) as usize;
        let one = if faces[n - 1].0 == v { before.push(f) } else { before };
        let two = if faces[n - 1].1 == v { one.push(f) } else { one };
        let three = if faces[n - 1].2 == v { two.push(f) } else { two };
        assert(three == faces_at(faces, v, n));
        assert forall|k: int| 0 <= k < one.len() implies (#[trigger] one[k]) < n by {
            if k < before.len() {
                assert(one[k] == before[k]);
            }
        }
        assert forall|k: int| 0 <= k < two.len() implies (#[trigger] two[k]) < n by {
            if k < one.len() {
                assert(two[k] == one[k]);
            }
        }
        assert forall|k: int| 0 <= k < three.len() implies (#[trigger] three[k]) < n by {
            if k < two.len() {
                assert(three[k] == two[k]);
            }
        }
    }
}

impl Mesh {
    /// The mesh of the given vertices and faces, placed in the scene: the
    /// vertices are taken from the middle of their bounding box, scaled so
    /// that the longest side of the box gets the length `scaling_factor`,
    /// turned and moved to `position`; each vertex gets for its normal the mean of
    /// the normals of the faces that meet in it; a face whose corners
    /// coincide is left out.  A mesh is rejected where a face names a vertex
    /// that it does not have.
    pub fn new(vertices: &Vec<Point3>, faces: &Vec<Face>, placement: &Placement, material: usize) -> (r:
        Result<Mesh, MeshError>)
        ensures
            match r {
                Ok(mesh) => {
                    &&& faces_valid(faces@, vertices@.len() as int)
                    &&& mesh.triangles@ == sound_triangles(
                        placed_all(vertices@, *placement),
                        faces@,
                        material,
                        faces@.len() as int,
                    )
                },
                Err(e) => e == MeshError::VertexOutOfRange && !faces_valid(faces@, vertices@.len() as int),
            },
    {
        let lists = match incident_faces(vertices.len(), faces) {
            Ok(l) => l,
            Err(e) => {
                return Err(e);
            },
        };
        let points = place_all(vertices, placement);
        let normals = normals_of_faces(&points, faces);
        let mut vertex_normals: Vec<Vec3> = Vec::new();
        let mut v: usize = 0;
        while v < vertices.len()
            invariant
                v <= vertices.len(),
                points@.len() == vertices@.len(),
                lists@.len() == vertices@.len(),
                normals@ == face_normals(points@, faces@),
                forall|i: int|
                    0 <= i < vertices@.len() ==> (#[trigger] lists@[i])@ == faces_at(
                        faces@,
                        i,
                        faces@.len() as int,
                    ),
                vertex_normals@.len() == v,
                forall|i: int| 0 <= i < v ==> vertex_normals@[i] == vertex_normal(points@, faces@, i),
            decreases vertices.len() - v,
        {
            proof {
                lemma_faces_at_bound(faces@, v as int, faces@.len() as int);
            }
            let n = normal_of_vertex(&normals, &lists[v]);
            vertex_normals.push(n);
            v += 1;
        }
        let mut triangles: Vec<Triangle> = Vec::new();
        let mut f: usize = 0;
        while f < faces.len()
            invariant
                f <= faces.len(),
                faces_valid(faces@, vertices@.len() as int),
                points@.len() == vertices@.len(),
                vertex_normals@.len() == vertices@.len(),
                forall|i: int|
                    0 <= i < vertices@.len() ==> vertex_normals@[i] == vertex_normal(points@, faces@, i),
                triangles@ == sound_triangles(points@, faces@, material, f as int),
            decreases faces.len() - f,
        {
            let (a, b, c) = faces[f];
            assert(faces@[f as int].0 < vertices@.len());
            let t = Triangle::new(
                (points[a], points[b], points[c]),
                (vertex_normals[a], vertex_normals[b], vertex_normals[c]),
                material,
                0,
            );
            assert(t == face_triangle(points@, faces@, f as int, material));
            if t.check_not_degenerate() {
                triangles.push(t);
            }
            f += 1;
        }
        Ok(Mesh { triangles })
    }

    /// The closest hit of a ray on the mesh, among the triangles that the
    /// traversal of the hierarchy names.
    pub fn hit(&self, ray: &Ray, t_min: Scalar, t_max: Scalar, candidates: &Vec<usize>) -> (r: Option<
        HitRecord,
    >)
        ensures
            r == closest_candidate(self.triangles@, candidates@, *ray, t_min, t_max),
    {
        closest_among(&self.triangles, candidates, ray, t_min, t_max)
    }

    /// The closest hit of a ray on the mesh, every triangle asked.
    pub fn hit_all(&self, ray: &Ray, t_min: Scalar, t_max: Scalar) -> (r: Option<HitRecord>)
        ensures
            r == closest_member(self.triangles@, *ray, t_min, t_max),
    {
        closest_of_all(&self.triangles, ray, t_min, t_max)
    }

    /// Whether the mesh is a light: whether one of its triangles is.
    pub fn is_light(&self, materials: &Vec<Material>) -> (r: bool)
        ensures
            r == any_emits(self.triangles@, materials@),
    {
        any_light(&self.triangles, materials)
    }

    /// The density with which `direction` is drawn from `origin` towards
    /// the mesh: the even mixture of the triangles' densities.
    pub fn pdf_value(&self, origin: &Point3, direction: &Vec3) -> (r: Scalar)
        ensures
            r == mixture(self.triangles@, *origin, *direction),
    {
        mixture_density(&self.triangles, origin, direction)
    }

    /// A direction from `origin` towards triangle `member` of the mesh.
    pub fn random(&self, member: usize, origin: &Point3, samples: &LightSamples) -> (r: Vec3)
        ensures
            r == if member < self.triangles@.len() {
                self.triangles@[member as int].towards(*origin, *samples)
            } else {
                unit_axis(0)
            },
    {
        direction_towards(&self.triangles, member, origin, samples)
    }
}

} // verus!
