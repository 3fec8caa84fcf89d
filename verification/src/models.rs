//! Models: meshes, materials and their bounding box.

use vstd::prelude::*;
use crate::error::OrengineError;
use crate::scalar::Scalar;
use crate::vertex::Vertex;

verus! {

/// An axis-aligned box in model space, given by its least and greatest corner.
#[derive(Debug, Clone, Copy)]
pub struct Aabb {
    pub min: [Scalar; 3],
    pub max: [Scalar; 3],
}

/// How a material looks.
#[derive(Debug, Clone)]
pub struct Material {
    pub name: String,
    /// File name of the diffuse texture; empty if the material has none.
    pub diffuse_texture: String,
}

/// A triangle mesh: corners, and indices that form one triangle per triple.
#[derive(Debug, Clone)]
pub struct Mesh {
    pub name: String,
    pub vertices: Vec<Vertex>,
    pub indices: Vec<u32>,
    /// Index of the mesh's material among the model's materials.
    pub material_id: usize,
}

/// A loaded model: its meshes, their materials, and the box around all of it.
#[derive(Debug)]
pub struct Model {
    pub meshes: Vec<Mesh>,
    pub materials: Vec<Material>,
    pub aabb: Aabb,
}

/// Three corners of a mesh that form one triangle, by position.
#[derive(Debug, Clone, Copy)]
pub struct Triangle {
    pub v0: [Scalar; 3],
    pub v1: [Scalar; 3],
    pub v2: [Scalar; 3],
}

/// What came of loading a material's texture file.
#[derive(Debug, Clone, Copy, PartialEq, Eq, Structural)]
pub enum TextureLoad {
    /// Loading has not been tried.
    NotTried,
    /// The file could not be read or decoded.
    Failed,
    /// The image is there.
    Loaded,
}

/// Which texture a material is drawn with.
#[derive(Debug, Clone, Copy, PartialEq, Eq, Structural)]
pub enum TextureChoice {
    /// The texture file is still to be loaded.
    LoadFile,
    /// The image from the texture file.
    Image,
    /// A single colour: red, green, blue, alpha.
    Flat(u8, u8, u8, u8),
}

/// A material as the parser reports it.
pub struct MaterialSource {
    pub name: String,
    pub diffuse_texture: Option<String>,
}

/// A mesh as the parser reports it: triangulated, with one index addressing
/// position, normal and texture coordinate together.
pub struct MeshSource {
    pub name: String,
    /// Flat positions: x, y, z per vertex.
    pub positions: Vec<Scalar>,
    /// Flat normals: x, y, z per vertex; may be shorter than the positions.
    pub normals: Vec<Scalar>,
    /// Flat texture coordinates: u, v per vertex, with v measured from the top
    /// edge downwards; may be shorter than the positions.
    pub texcoords: Vec<Scalar>,
    pub indices: Vec<u32>,
    pub material_id: Option<usize>,
}

/// The lesser of a running lower bound and a coordinate. A coordinate that is
/// "not a number" leaves the bound as it is.
pub open spec fn lower(bound: Scalar, x: Scalar) -> Scalar {
    if x.lt(bound) {
        x
    } else {
        bound
    }
}

/// The greater of a running upper bound and a coordinate.
pub open spec fn upper(bound: Scalar, x: Scalar) -> Scalar {
    if x.gt(bound) {
        x
    } else {
        bound
    }
}

impl Aabb {
    /// The box around nothing: every lower bound is positive infinity and
    /// every upper bound negative infinity.
    pub open spec fn nothing() -> Aabb {
        Aabb {
            min: [Scalar::infinity(), Scalar::infinity(), Scalar::infinity()],
            max: [Scalar::neg_infinity(), Scalar::neg_infinity(), Scalar::neg_infinity()],
        }
    }

    /// This box grown, where needed, to reach the point `p`.
    pub open spec fn extend(self, p: [Scalar; 3]) -> Aabb {
        Aabb {
            min: [lower(self.min[0], p[0]), lower(self.min[1], p[1]), lower(self.min[2], p[2])],
            max: [upper(self.max[0], p[0]), upper(self.max[1], p[1]), upper(self.max[2], p[2])],
        }
    }

    /// This box grown to reach the position of every vertex of `vs`.
    pub open spec fn around(self, vs: Seq<Vertex>) -> Aabb
        decreases vs.len(),
    {
        if vs.len() == 0 {
            self
        } else {
            self.around(vs.drop_last()).extend(vs.last().position)
        }
    }

    /// The box around every vertex of every mesh of `meshes`.
    pub open spec fn of_meshes(meshes: Seq<Mesh>) -> Aabb
        decreases meshes.len(),
    {
        if meshes.len() == 0 {
            Self::nothing()
        } else {
            Self::of_meshes(meshes.drop_last()).around(meshes.last().vertices@)
        }
    }

    /// No bound of the box is "not a number".
    pub open spec fn is_numeric(self) -> bool {
        forall|k: int| 0 <= k < 3 ==> !(#[trigger] self.min[k]).is_nan() && !self.max[k].is_nan()
    }

    /// Each coordinate of `p` that is a number lies between the box's bounds
    /// on that axis, the bounds included.
    pub open spec fn encloses(self, p: [Scalar; 3]) -> bool {
        forall|k: int|
            0 <= k < 3 && !(#[trigger] p[k]).is_nan() ==> self.min[k].le(p[k]) && p[k].le(
                self.max[k],
            )
    }

    /// `self` reaches at least as far as `inner` in every direction.
    pub open spec fn reaches(self, inner: Aabb) -> bool {
        forall|k: int|
            0 <= k < 3 ==> (#[trigger] self.min[k]).le(inner.min[k]) && inner.max[k].le(
                self.max[k],
            )
    }
}

impl MeshSource {
    /// Number of whole vertices among the flat positions.
    pub open spec fn vertex_count(self) -> nat {
        self.positions@.len() / 3
    }

    /// The material the mesh uses: the first one where the parser names none.
    pub open spec fn resolved_material(self) -> usize {
        match self.material_id {
            Some(id) => id,
            None => 0,
        }
    }

    /// Vertex `i` of the mesh. The colour is white. Texture coordinates and
    /// normal are read next to the position where the parser supplied them:
    /// a vertex without texture coordinates gets (0, 0), one without a normal
    /// the upward normal (0, 1, 0).
    pub open spec fn vertex_at(self, i: int) -> Vertex {
        Vertex {
            position: [self.positions@[3 * i], self.positions@[3 * i + 1], self.positions@[3 * i
                + 2]],
            color: [Scalar::one(), Scalar::one(), Scalar::one()],
            tex_coords: if self.texcoords@.len() >= 2 * i + 2 {
                [self.texcoords@[2 * i], self.texcoords@[2 * i + 1]]
            } else {
                [Scalar::zero(), Scalar::zero()]
            },
            normal: if self.normals@.len() >= 3 * i + 3 {
                [self.normals@[3 * i], self.normals@[3 * i + 1], self.normals@[3 * i + 2]]
            } else {
                [Scalar::zero(), Scalar::one(), Scalar::zero()]
            },
        }
    }

    /// All vertices of the mesh, in order.
    pub open spec fn vertices(self) -> Seq<Vertex> {
        Seq::new(self.vertex_count(), |i: int| self.vertex_at(i))
    }

    /// The mesh can be drawn and picked: each index names one of its vertices,
    /// and the number of indices fits a draw call.
    pub open spec fn drawable(self) -> bool {
        &&& self.indices@.len() <= u32::MAX
        &&& forall|k: int| 0 <= k < self.indices@.len() ==> self.indices@[k] < self.vertex_count()
    }
}

impl Mesh {
    /// Each index names a vertex of the mesh.
    pub open spec fn indices_in_range(self) -> bool {
        forall|k: int|
            0 <= k < self.indices@.len() ==> (#[trigger] self.indices@[k]) < self.vertices@.len()
    }

    /// Number of whole triangles among the indices.
    pub open spec fn triangle_count(self) -> nat {
        self.indices@.len() / 3
    }

    /// Triangle `k` of the mesh: the positions of the vertices that the
    /// `k`-th triple of indices names.
    pub open spec fn triangle_at(self, k: int) -> Triangle {
        Triangle {
            v0: self.vertices@[self.indices@[3 * k] as int].position,
            v1: self.vertices@[self.indices@[3 * k + 1] as int].position,
            v2: self.vertices@[self.indices@[3 * k + 2] as int].position,
        }
    }

    /// All triangles of the mesh, in order. Indices left over after the last
    /// whole triple form no triangle.
    pub open spec fn triangle_seq(self) -> Seq<Triangle> {
        Seq::new(self.triangle_count(), |k: int| self.triangle_at(k))
    }

    /// Each index names a vertex, the number of indices fits a draw call, and
    /// the material is one of `material_count` materials, or the first in a
    /// model that has none: a mesh that names no material stands so.
    pub open spec fn wf(self, material_count: nat) -> bool {
        &&& self.indices@.len() <= u32::MAX
        &&& forall|k: int|
            0 <= k < self.indices@.len() ==> (#[trigger] self.indices@[k]) < self.vertices@.len()
        &&& self.material_id < material_count || self.material_id == 0
    }

    /// This mesh holds exactly what `source` describes.
    pub open spec fn built_from(self, source: MeshSource) -> bool {
        &&& self.name@ == source.name@
        &&& self.vertices@ == source.vertices()
        &&& self.indices@ == source.indices@
        &&& self.material_id == source.resolved_material()
    }
}

impl Material {
    /// The texture that the material is drawn with. A material without a
    /// texture file is drawn in plain white, whatever `load` says, and no
    /// file is asked for. One whose file could not be loaded is drawn in
    /// magenta, so that the gap shows.
    pub open spec fn texture_for(self, load: TextureLoad) -> TextureChoice {
        if self.diffuse_texture@.len() == 0 {
            TextureChoice::Flat(255, 255, 255, 255)
        } else {
            match load {
                TextureLoad::NotTried => TextureChoice::LoadFile,
                TextureLoad::Failed => TextureChoice::Flat(255, 0, 255, 255),
                TextureLoad::Loaded => TextureChoice::Image,
            }
        }
    }

    /// Decides which texture the material is drawn with, given what came of
    /// loading its texture file so far.
    pub fn choose_texture(&self, load: TextureLoad) -> (choice: TextureChoice)
        ensures
            choice == self.texture_for(load),
    {
        if self.diffuse_texture.as_str().is_empty() {
            TextureChoice::Flat(255, 255, 255, 255)
        } else {
            match load {
                TextureLoad::NotTried => TextureChoice::LoadFile,
                TextureLoad::Failed => TextureChoice::Flat(255, 0, 255, 255),
                TextureLoad::Loaded => TextureChoice::Image,
            }
        }
    }

    /// This material holds exactly what `source` describes.
    pub open spec fn built_from(self, source: MaterialSource) -> bool {
        &&& self.name@ == source.name@
        &&& self.diffuse_texture@ == match source.diffuse_texture {
            Some(path) => path@,
            None => Seq::<char>::empty(),
        }
    }
}

impl Model {
    /// Every mesh is well formed and uses a material that the model has.
    pub open spec fn wf(self) -> bool {
        forall|m: int|
            0 <= m < self.meshes@.len() ==> (#[trigger] self.meshes@[m]).wf(self.materials@.len())
    }

    /// The bounding box encloses every vertex of every mesh.
    pub open spec fn enclosed(self) -> bool {
        forall|m: int, v: int|
            0 <= m < self.meshes@.len() && 0 <= v < self.meshes@[m].vertices@.len()
                ==> self.aabb.encloses(#[trigger] self.meshes@[m].vertices@[v].position)
    }

    /// This model holds exactly what the parser's meshes and materials
    /// describe, with the box around all their vertices.
    pub open spec fn built_from(self, meshes: Seq<MeshSource>, materials: Seq<MaterialSource>) -> bool {
        &&& self.meshes@.len() == meshes.len()
        &&& forall|m: int|
            0 <= m < meshes.len() ==> (#[trigger] self.meshes@[m]).built_from(meshes[m])
        &&& self.materials@.len() == materials.len()
        &&& forall|m: int|
            0 <= m < materials.len() ==> (#[trigger] self.materials@[m]).built_from(materials[m])
        &&& self.aabb == Aabb::of_meshes(self.meshes@)
    }
}

/// The triangles of all of `meshes`, mesh after mesh.
pub open spec fn triangles_of(meshes: Seq<Mesh>) -> Seq<Triangle>
    decreases meshes.len(),
{
    if meshes.len() == 0 {
        Seq::empty()
    } else {
        triangles_of(meshes.drop_last()) + meshes.last().triangle_seq()
    }
}

impl MeshSource {
    /// The material that the mesh names, if it names one, is one of
    /// `material_count` materials. A mesh that names none refers to nothing
    /// that could be missing.
    pub open spec fn material_known(self, material_count: nat) -> bool {
        self.material_id matches Some(id) ==> id < material_count
    }
}

/// Every mesh of `meshes` that names a material names one of
/// `material_count` materials.
pub open spec fn materials_consistent(meshes: Seq<MeshSource>, material_count: nat) -> bool {
    forall|m: int| 0 <= m < meshes.len() ==> (#[trigger] meshes[m]).material_known(material_count)
}

/// Every mesh of `meshes` can be drawn.
pub open spec fn all_drawable(meshes: Seq<MeshSource>) -> bool {
    forall|m: int| 0 <= m < meshes.len() ==> (#[trigger] meshes[m]).drawable()
}

/// A box grown by `extend` still reaches all it reached before, reaches the
/// new point, and keeps numeric bounds.
pub proof fn lemma_extend(b: Aabb, p: [Scalar; 3])
    requires
        b.is_numeric(),
    ensures
        b.extend(p).is_numeric(),
        b.extend(p).reaches(b),
        b.extend(p).encloses(p),
{
}

/// A box that reaches another encloses every point the other encloses.
pub proof fn lemma_reaches_encloses(outer: Aabb, inner: Aabb, p: [Scalar; 3])
    requires
        outer.reaches(inner),
        inner.encloses(p),
    ensures
        outer.encloses(p),
{
}

/// A box grown around vertices reaches what it reached before and encloses
/// each of those vertices.
pub proof fn lemma_around(b: Aabb, vs: Seq<Vertex>)
    requires
        b.is_numeric(),
    ensures
        b.around(vs).is_numeric(),
        b.around(vs).reaches(b),
        forall|i: int| 0 <= i < vs.len() ==> b.around(vs).encloses(#[trigger] vs[i].position),
    decreases vs.len(),
{
    if vs.len() > 0 {
        let prev = b.around(vs.drop_last());
        let all = b.around(vs);
        lemma_around(b, vs.drop_last());
        lemma_extend(prev, vs.last().position);
        assert forall|i: int| 0 <= i < vs.len() implies all.encloses(#[trigger] vs[i].position) by {
            if i < vs.len() - 1 {
                assert(vs[i] == vs.drop_last()[i]);
                lemma_reaches_encloses(all, prev, vs[i].position);
            }
        }
    }
}

/// The box around all meshes encloses every vertex of every mesh, whatever
/// the vertices are.
pub proof fn lemma_of_meshes_encloses(meshes: Seq<Mesh>)
    ensures
        Aabb::of_meshes(meshes).is_numeric(),
        forall|m: int, v: int|
            0 <= m < meshes.len() && 0 <= v < meshes[m].vertices@.len() ==> Aabb::of_meshes(
                meshes,
            ).encloses(#[trigger] meshes[m].vertices@[v].position),
    decreases meshes.len(),
{
    let all = Aabb::of_meshes(meshes);
    if meshes.len() == 0 {
    } else {
        let prev = Aabb::of_meshes(meshes.drop_last());
        lemma_of_meshes_encloses(meshes.drop_last());
        lemma_around(prev, meshes.last().vertices@);
        assert forall|m: int, v: int|
            0 <= m < meshes.len() && 0 <= v < meshes[m].vertices@.len() implies all.encloses(
            #[trigger] meshes[m].vertices@[v].position,
        ) by {
            if m < meshes.len() - 1 {
                assert(meshes[m] == meshes.drop_last()[m]);
                lemma_reaches_encloses(all, prev, meshes[m].vertices@[v].position);
            }
        }
    }
}

/// Some vertex of `vs` has `x` as its coordinate on axis `k`.
pub open spec fn has_coordinate(vs: Seq<Vertex>, k: int, x: Scalar) -> bool {
    exists|i: int| 0 <= i < vs.len() && (#[trigger] vs[i]).position[k] == x
}

/// Some vertex of some mesh of `meshes` has `x` as its coordinate on axis `k`.
pub open spec fn meshes_have_coordinate(meshes: Seq<Mesh>, k: int, x: Scalar) -> bool {
    exists|m: int|
        0 <= m < meshes.len() && has_coordinate((#[trigger] meshes[m]).vertices@, k, x)
}

/// A box grown around vertices is no larger than they need: each of its
/// bounds is the bound it had before or a coordinate of one of the vertices.
pub proof fn lemma_around_tight(b: Aabb, vs: Seq<Vertex>)
    ensures
        forall|k: int|
            0 <= k < 3 ==> {
                &&& (#[trigger] b.around(vs).min[k]) == b.min[k] || has_coordinate(
                    vs,
                    k,
                    b.around(vs).min[k],
                )
                &&& b.around(vs).max[k] == b.max[k] || has_coordinate(vs, k, b.around(vs).max[k])
            },
    decreases vs.len(),
{
    if vs.len() > 0 {
        let rest = vs.drop_last();
        let prev = b.around(rest);
        let all = b.around(vs);
        lemma_around_tight(b, rest);
        assert forall|k: int| 0 <= k < 3 implies {
            &&& (#[trigger] all.min[k]) == b.min[k] || has_coordinate(vs, k, all.min[k])
            &&& all.max[k] == b.max[k] || has_coordinate(vs, k, all.max[k])
        } by {}
    }
}

/// The box around all meshes is the least such box: each lower bound is a
/// coordinate of one of the vertices, or positive infinity where no vertex
/// has a lesser coordinate; each upper bound is a coordinate of one of the
/// vertices, or negative infinity where none has a greater one.
pub proof fn lemma_of_meshes_tight(meshes: Seq<Mesh>)
    ensures
        forall|k: int|
            0 <= k < 3 ==> {
                &&& (#[trigger] Aabb::of_meshes(meshes).min[k]) == Scalar::infinity()
                    || meshes_have_coordinate(meshes, k, Aabb::of_meshes(meshes).min[k])
                &&& Aabb::of_meshes(meshes).max[k] == Scalar::neg_infinity()
                    || meshes_have_coordinate(meshes, k, Aabb::of_meshes(meshes).max[k])
            },
    decreases meshes.len(),
{
    let all = Aabb::of_meshes(meshes);
    if meshes.len() > 0 {
        let rest = meshes.drop_last();
        let prev = Aabb::of_meshes(rest);
        let last = meshes.last().vertices@;
        lemma_of_meshes_tight(rest);
        lemma_around_tight(prev, last);
        assert forall|k: int| 0 <= k < 3 implies {
            &&& (#[trigger] all.min[k]) == Scalar::infinity() || meshes_have_coordinate(
                meshes,
                k,
                all.min[k],
            )
            &&& all.max[k] == Scalar::neg_infinity() || meshes_have_coordinate(
                meshes,
                k,
                all.max[k],
            )
        } by {
            if meshes_have_coordinate(rest, k, prev.min[k]) {
                let m = choose|m: int|
                    0 <= m < rest.len() && has_coordinate(
                        (#[trigger] rest[m]).vertices@,
                        k,
                        prev.min[k],
                    );
            }
            if meshes_have_coordinate(rest, k, prev.max[k]) {
                let m = choose|m: int|
                    0 <= m < rest.len() && has_coordinate(
                        (#[trigger] rest[m]).vertices@,
                        k,
                        prev.max[k],
                    );
            }
        }
    }
}

/// Builds the vertices of one mesh and grows `bounds` around them.
fn build_vertices(source: &MeshSource, bounds: Aabb) -> (r: (Vec<Vertex>, Aabb))
    ensures
        r.0@ == source.vertices(),
        r.1 == bounds.around(source.vertices()),
{
    let count: usize = source.positions.len() / 3;
    let mut vertices: Vec<Vertex> = Vec::new();
    let mut min_x = bounds.min[0];
    let mut min_y = bounds.min[1];
    let mut min_z = bounds.min[2];
    let mut max_x = bounds.max[0];
    let mut max_y = bounds.max[1];
    let mut max_z = bounds.max[2];
    let ghost all = source.vertices();
    let mut i: usize = 0;
    while i < count
        invariant
            count == source.vertex_count(),
            all == source.vertices(),
            0 <= i <= count,
            3 * count <= source.positions.len(),
            vertices@ == all.take(i as int),
            min_x == bounds.around(all.take(i as int)).min[0],
            min_y == bounds.around(all.take(i as int)).min[1],
            min_z == bounds.around(all.take(i as int)).min[2],
            max_x == bounds.around(all.take(i as int)).max[0],
            max_y == bounds.around(all.take(i as int)).max[1],
            max_z == bounds.around(all.take(i as int)).max[2],
        decreases count - i,
    {
        let x = source.positions[i * 3];
        let y = source.positions[i * 3 + 1];
        let z = source.positions[i * 3 + 2];
        if x.lt(min_x) {
            min_x = x;
        }
        if y.lt(min_y) {
            min_y = y;
        }
        if z.lt(min_z) {
            min_z = z;
        }
        if x.gt(max_x) {
            max_x = x;
        }
        if y.gt(max_y) {
            max_y = y;
        }
        if z.gt(max_z) {
            max_z = z;
        }
        let tex_coords = if source.texcoords.len() >= i * 2 + 2 {
            [source.texcoords[i * 2], source.texcoords[i * 2 + 1]]
        } else {
            [Scalar::zero(), Scalar::zero()]
        };
        let normal = if source.normals.len() >= i * 3 + 3 {
            [source.normals[i * 3], source.normals[i * 3 + 1], source.normals[i * 3 + 2]]
        } else {
            [Scalar::zero(), Scalar::one(), Scalar::zero()]
        };
        let vertex = Vertex {
            position: [x, y, z],
            color: [Scalar::one(), Scalar::one(), Scalar::one()],
            tex_coords,
            normal,
        };
        vertices.push(vertex);
        proof {
            assert(all.take(i + 1).drop_last() == all.take(i as int));
        }
        i = i + 1;
    }
    let grown = Aabb { min: [min_x, min_y, min_z], max: [max_x, max_y, max_z] };
    proof {
        assert(all.take(count as int) == all);
        assert(grown.min =~= bounds.around(all).min);
        assert(grown.max =~= bounds.around(all).max);
    }
    (vertices, grown)
}

/// Whether every mesh that names a material names one that exists.
fn check_materials(sources: &Vec<MeshSource>, material_count: usize) -> (ok: bool)
    ensures
        ok == materials_consistent(sources@, material_count as nat),
{
    let mut m: usize = 0;
    while m < sources.len()
        invariant
            0 <= m <= sources.len(),
            materials_consistent(sources@.take(m as int), material_count as nat),
        decreases sources.len() - m,
    {
        if let Some(id) = sources[m].material_id {
            if id >= material_count {
                return false;
            }
        }
        m = m + 1;
    }
    proof {
        assert(sources@.take(sources.len() as int) == sources@);
    }
    true
}

/// Whether one mesh can be drawn.
fn check_drawable(source: &MeshSource) -> (ok: bool)
    ensures
        ok == source.drawable(),
{
    if source.indices.len() > u32::MAX as usize {
        return false;
    }
    let count: usize = source.positions.len() / 3;
    let mut k: usize = 0;
    while k < source.indices.len()
        invariant
            0 <= k <= source.indices.len(),
            count == source.vertex_count(),
            forall|j: int| 0 <= j < k ==> source.indices@[j] < count,
        decreases source.indices.len() - k,
    {
        if source.indices[k] as usize >= count {
            return false;
        }
        k = k + 1;
    }
    true
}

/// Whether every mesh can be drawn.
fn check_all_drawable(sources: &Vec<MeshSource>) -> (ok: bool)
    ensures
        ok == all_drawable(sources@),
{
    let mut m: usize = 0;
    while m < sources.len()
        invariant
            0 <= m <= sources.len(),
            forall|j: int| 0 <= j < m ==> (#[trigger] sources@[j]).drawable(),
        decreases sources.len() - m,
    {
        if !check_drawable(&sources[m]) {
            return false;
        }
        m = m + 1;
    }
    true
}

/// Turns parsed meshes and materials into a model.
///
/// A parser error, of the mesh file or of its material file, is handed on. A
/// mesh that names a material the model lacks, or an index that names no
/// vertex, is refused. A mesh that names no material is taken as it is, also
/// in a model without materials. Otherwise the model holds the meshes and
/// materials as described, each mesh's vertices built as
/// `MeshSource::vertex_at` says, and the bounding box around every vertex.
pub fn load_model(
    parsed: Result<
        (Vec<MeshSource>, Result<Vec<MaterialSource>, tobj::LoadError>),
        tobj::LoadError,
    >,
) -> (r: Result<Model, OrengineError>)
    ensures
        match parsed {
            Err(e) => r matches Err(OrengineError::Tobj(x)) && x == e,
            Ok((_, Err(e))) => r matches Err(OrengineError::Tobj(x)) && x == e,
            Ok((meshes, Ok(materials))) => {
                if !materials_consistent(meshes@, materials@.len()) {
                    r matches Err(OrengineError::MismatchedMaterials)
                } else if !all_drawable(meshes@) {
                    r matches Err(OrengineError::Generic(_))
                } else {
                    &&& r matches Ok(model)
                    &&& model.built_from(meshes@, materials@)
                    &&& model.wf()
                    &&& model.enclosed()
                }
            },
        },
{
    let (sources, materials) = match parsed {
        Ok(pair) => pair,
        Err(e) => {
            return Err(OrengineError::Tobj(e));
        },
    };
    let materials = match materials {
        Ok(materials) => materials,
        Err(e) => {
            return Err(OrengineError::Tobj(e));
        },
    };
    if !check_materials(&sources, materials.len()) {
        return Err(OrengineError::MismatchedMaterials);
    }
    if !check_all_drawable(&sources) {
        return Err(OrengineError::Generic(String::from_str("mesh index out of range")));
    }
    let ghost material_sources = materials@;
    let ghost mesh_sources = sources@;

    let mut out_materials: Vec<Material> = Vec::new();
    for mat in it: materials
        invariant
            it.seq() == material_sources,
            out_materials@.len() == it.index(),
            forall|j: int|
                0 <= j < it.index() ==> (#[trigger] out_materials@[j]).built_from(
                    material_sources[j],
                ),
    {
        let diffuse_texture = match mat.diffuse_texture {
            Some(path) => path,
            None => String::new(),
        };
        out_materials.push(Material { name: mat.name, diffuse_texture });
    }

    let mut bounds = Aabb {
        min: [Scalar::infinity(), Scalar::infinity(), Scalar::infinity()],
        max: [Scalar::neg_infinity(), Scalar::neg_infinity(), Scalar::neg_infinity()],
    };
    let mut out_meshes: Vec<Mesh> = Vec::new();
    for source in it: sources
        invariant
            it.seq() == mesh_sources,
            all_drawable(mesh_sources),
            materials_consistent(mesh_sources, out_materials@.len()),
            out_meshes@.len() == it.index(),
            forall|j: int|
                0 <= j < it.index() ==> (#[trigger] out_meshes@[j]).built_from(mesh_sources[j]),
            bounds == Aabb::of_meshes(out_meshes@),
    {
        let ghost before = out_meshes@;
        let (vertices, grown) = build_vertices(&source, bounds);
        let material_id = match source.material_id {
            Some(id) => id,
            None => 0,
        };
        out_meshes.push(Mesh { name: source.name, vertices, indices: source.indices, material_id });
        bounds = grown;
        proof {
            assert(out_meshes@.drop_last() == before);
        }
    }
    let model = Model { meshes: out_meshes, materials: out_materials, aabb: bounds };
    proof {
        lemma_of_meshes_encloses(model.meshes@);
    }
    Ok(model)
}

/// Appends the triangles of `mesh` to `out`.
fn push_triangles(mesh: &Mesh, out: &mut Vec<Triangle>)
    requires
        mesh.indices_in_range(),
    ensures
        final(out)@ == old(out)@ + mesh.triangle_seq(),
{
    let count: usize = mesh.indices.len() / 3;
    let ghost start = out@;
    let mut k: usize = 0;
    while k < count
        invariant
            mesh.indices_in_range(),
            count == mesh.triangle_count(),
            3 * count <= mesh.indices.len(),
            0 <= k <= count,
            out@ == start + mesh.triangle_seq().take(k as int),
        decreases count - k,
    {
        let i0 = mesh.indices[k * 3] as usize;
        let i1 = mesh.indices[k * 3 + 1] as usize;
        let i2 = mesh.indices[k * 3 + 2] as usize;
        let triangle = Triangle {
            v0: mesh.vertices[i0].position,
            v1: mesh.vertices[i1].position,
            v2: mesh.vertices[i2].position,
        };
        out.push(triangle);
        k = k + 1;
    }
}

/// The triangles of all of `meshes`, mesh after mesh: what a ray is tested
/// against, in the order in which picking goes through them.
pub fn all_triangles(meshes: &Vec<Mesh>) -> (triangles: Vec<Triangle>)
    requires
        forall|m: int| 0 <= m < meshes@.len() ==> (#[trigger] meshes@[m]).indices_in_range(),
    ensures
        triangles@ == triangles_of(meshes@),
{
    let mut triangles: Vec<Triangle> = Vec::new();
    let mut m: usize = 0;
    while m < meshes.len()
        invariant
            forall|j: int| 0 <= j < meshes@.len() ==> (#[trigger] meshes@[j]).indices_in_range(),
            0 <= m <= meshes.len(),
            triangles@ == triangles_of(meshes@.take(m as int)),
        decreases meshes.len() - m,
    {
        push_triangles(&meshes[m], &mut triangles);
        proof {
            assert(meshes@.take(m + 1).drop_last() == meshes@.take(m as int));
        }
        m = m + 1;
    }
    proof {
        assert(meshes@.take(meshes.len() as int) == meshes@);
    }
    triangles
}

} // verus!
