//! The resource loader: assembling models from parsed geometry.
//!
//! The asset collaborator parses the interchange format and hands the
//! loader raw sub-meshes (flat attribute arrays, float bit patterns) and
//! material descriptors. The loader builds one mesh per sub-mesh — filling
//! in world-up normals and origin texture coordinates where the arrays are
//! missing — derives reflectance values, synthesizes a default material
//! when none was parsed, and resolves each material's texture: a missing
//! or unloadable texture image degrades to a flat-color texture of the
//! material's diffuse color, never a failure.

use vstd::prelude::*;
use crate::fixed::FX_ONE;
use crate::math::Vec3;
use crate::mesh::Bits3;
use crate::mesh::Bits2;
use crate::mesh::Vertex;
use crate::mesh::Mesh;
use crate::mesh::F_ZERO;
use crate::mesh::F_ONE;
use crate::model::Material;
use crate::model::MaterialInstance;
use crate::model::TextureSource;
use crate::model::LightBinding;
use crate::model::Model;

verus! {

/// Loading failures: the asset file is missing, or its geometry cannot be
/// parsed at all. Both are reported by the collaborator that reads and
/// parses the file; the loader itself never fails.
#[derive(Clone, Debug)]
pub enum AssetError {
    FileNotFound(String),
    ParseFailed(String),
}

impl AssetError {
    /// A short description of the failure.
    pub fn message(&self) -> (r: String)
        ensures
            self matches AssetError::FileNotFound(p) ==> r@ == "asset file not found: "@ + p@,
            self matches AssetError::ParseFailed(p) ==> r@ == "asset geometry failed to parse: "@
                + p@,
    {
        match self {
            AssetError::FileNotFound(p) => "asset file not found: ".to_owned().concat(
                p.as_str(),
            ),
            AssetError::ParseFailed(p) => "asset geometry failed to parse: ".to_owned().concat(
                p.as_str(),
            ),
        }
    }
}

/// A loader of one kind of resource.
pub trait ResourceLoader<T> {
    /// Load a resource from a path.
    fn load(&self, path: &str) -> Result<T, AssetError>;
}

/// One parsed sub-mesh: flat position, normal and texture-coordinate
/// arrays of float bit patterns (texture coordinates already V-flipped by
/// the collaborator), the index array, and the optional material index.
#[derive(Clone, Debug)]
pub struct SubMesh {
    pub positions: Vec<u32>,
    pub normals: Vec<u32>,
    pub texcoords: Vec<u32>,
    pub indices: Vec<u32>,
    pub material_id: Option<usize>,
}

/// One parsed material descriptor: the name, the diffuse texture
/// reference, and fixed-point reflectance colors and shininess.
#[derive(Clone, Debug)]
pub struct MaterialDesc {
    pub name: String,
    pub diffuse_texture: Option<String>,
    pub ambient: Vec3,
    pub diffuse: Vec3,
    pub specular: Vec3,
    pub shininess: i64,
}

/// The fixed specular threshold above which a material is guessed to be
/// metallic: 0.9.
pub const METALLIC_THRESHOLD: i64 = 900_000;

/// The metallic value assigned to a high-specular material: 0.9.
pub const METALLIC_HIGH: i64 = 900_000;

/// A material is guessed metallic when its specular color is high and
/// uniform: every component above 0.9.
pub open spec fn spec_is_metallic(specular: Vec3) -> bool {
    specular.x > METALLIC_THRESHOLD && specular.y > METALLIC_THRESHOLD && specular.z
        > METALLIC_THRESHOLD
}

/// The roughness derived from shininess: `1 - min(shininess / 1000, 1)`,
/// with negative shininess treated as zero.
pub open spec fn spec_roughness_of(shininess: int) -> int {
    let s = if shininess < 0 {
        0
    } else {
        shininess
    };
    let scaled = s / 1000;
    if scaled > FX_ONE as int {
        0
    } else {
        FX_ONE as int - scaled
    }
}

/// Compute the roughness derived from shininess.
pub fn roughness_of(shininess: i64) -> (r: i64)
    ensures
        r == spec_roughness_of(shininess as int),
        0 <= r <= FX_ONE,
{
    let s: i64 = if shininess < 0 {
        0
    } else {
        shininess
    };
    let scaled = ((s as u64) / 1000) as i64;
    if scaled > FX_ONE {
        0
    } else {
        FX_ONE - scaled
    }
}

/// The default material synthesized when no material was parsed: grey
/// diffuse, white specular, medium roughness.
pub fn default_material() -> (r: Material)
    ensures
        r.name@ == "Default"@,
        r.diffuse_texture is None,
        r.normal_texture is None,
        r.metallic_texture is None,
        r.roughness_texture is None,
        r.ambient == (Vec3 { x: 100_000, y: 100_000, z: 100_000 }),
        r.diffuse == (Vec3 { x: 700_000, y: 700_000, z: 700_000 }),
        r.specular == (Vec3 { x: FX_ONE, y: FX_ONE, z: FX_ONE }),
        r.metallic == 0,
        r.roughness == 500_000,
        r.shininess == 32_000_000,
{
    Material {
        name: "Default".to_owned(),
        diffuse_texture: None,
        normal_texture: None,
        metallic_texture: None,
        roughness_texture: None,
        ambient: Vec3 { x: 100_000, y: 100_000, z: 100_000 },
        diffuse: Vec3 { x: 700_000, y: 700_000, z: 700_000 },
        specular: Vec3 { x: FX_ONE, y: FX_ONE, z: FX_ONE },
        metallic: 0,
        roughness: 500_000,
        shininess: 32_000_000,
    }
}

/// The vertex assembled from a sub-mesh at index `i`: the position triple,
/// the normal triple or world-up when the normal array is missing or
/// short, the texture-coordinate pair or the origin when that array is
/// missing or short, and white vertex color.
pub open spec fn spec_vertex_at(s: SubMesh, i: int) -> Vertex {
    Vertex {
        position: Bits3 {
            x: s.positions@[3 * i],
            y: s.positions@[3 * i + 1],
            z: s.positions@[3 * i + 2],
        },
        normal: if s.normals@.len() > 0 && 3 * i + 2 < s.normals@.len() {
            Bits3 { x: s.normals@[3 * i], y: s.normals@[3 * i + 1], z: s.normals@[3 * i + 2] }
        } else {
            Bits3 { x: F_ZERO, y: F_ONE, z: F_ZERO }
        },
        tex_coords: if s.texcoords@.len() > 0 && 2 * i + 1 < s.texcoords@.len() {
            Bits2 { u: s.texcoords@[2 * i], v: s.texcoords@[2 * i + 1] }
        } else {
            Bits2 { u: F_ZERO, v: F_ZERO }
        },
        color: Bits3 { x: F_ONE, y: F_ONE, z: F_ONE },
    }
}

/// Assemble the vertex list of one sub-mesh: one vertex per complete
/// position triple.
pub fn assemble_vertices(s: &SubMesh) -> (r: Vec<Vertex>)
    ensures
        r@.len() == s.positions@.len() / 3,
        forall|i: int| 0 <= i < r@.len() ==> r@[i] == spec_vertex_at(*s, i),
{
    let n = s.positions.len() / 3;
    let mut vertices: Vec<Vertex> = Vec::new();
    let mut i: usize = 0;
    while i < n
        invariant
            i <= n,
            s.positions@.len() <= usize::MAX,
            n == s.positions@.len() / 3,
            vertices@.len() == i,
            forall|j: int| 0 <= j < i ==> vertices@[j] == spec_vertex_at(*s, j),
        decreases n - i,
    {
        proof {
            vstd::arithmetic::div_mod::lemma_fundamental_div_mod(s.positions@.len() as int, 3);
            vstd::arithmetic::div_mod::lemma_mod_bound(s.positions@.len() as int, 3);
            assert(3 * (n as int) <= s.positions@.len());
            assert(3 * (i as int) + 2 < s.positions@.len());
            assert(i + i + i + 2 < s.positions@.len());
        }
        let i3: usize = i + i + i;
        let position = Bits3 {
            x: s.positions[i3],
            y: s.positions[i3 + 1],
            z: s.positions[i3 + 2],
        };
        let normal = if s.normals.len() > 0 && i3 + 2 < s.normals.len() {
            Bits3 { x: s.normals[i3], y: s.normals[i3 + 1], z: s.normals[i3 + 2] }
        } else {
            Bits3 { x: F_ZERO, y: F_ONE, z: F_ZERO }
        };
        let i2: usize = i + i;
        let tex_coords = if s.texcoords.len() > 0 && i2 + 1 < s.texcoords.len() {
            Bits2 { u: s.texcoords[i2], v: s.texcoords[i2 + 1] }
        } else {
            Bits2 { u: F_ZERO, v: F_ZERO }
        };
        vertices.push(
            Vertex {
                position,
                normal,
                tex_coords,
                color: Bits3 { x: F_ONE, y: F_ONE, z: F_ONE },
            },
        );
        i = i + 1;
    }
    vertices
}

/// The material index a sub-mesh draws with: its own index, defaulting to
/// zero, capped at the last available material.
pub open spec fn spec_material_index(id: Option<usize>, n_materials: int) -> int {
    let raw = match id {
        Some(i) => i as int,
        None => 0,
    };
    if raw < n_materials - 1 {
        raw
    } else {
        n_materials - 1
    }
}

/// The texture of a material instance: the material's diffuse image when
/// one is referenced and its load succeeded, else a flat-color texture of
/// the material's diffuse color.
pub open spec fn spec_texture_of(m: Material, loaded: bool) -> TextureSource {
    match m.diffuse_texture {
        Some(path) => if loaded {
            TextureSource::File(path)
        } else {
            TextureSource::FlatColor(m.diffuse)
        },
        None => TextureSource::FlatColor(m.diffuse),
    }
}

/// The texture of material `i` given the descriptors and the load
/// outcomes: the diffuse image when one is referenced and its load
/// succeeded, else a flat-color texture of the diffuse color (grey for
/// the synthesized default material).
pub open spec fn spec_texture_for(descs: Seq<MaterialDesc>, loaded: Seq<bool>, i: int) -> TextureSource {
    if descs.len() == 0 {
        TextureSource::FlatColor(Vec3 { x: 700_000, y: 700_000, z: 700_000 })
    } else {
        match descs[i].diffuse_texture {
            Some(path) => if loaded[i] {
                TextureSource::File(path)
            } else {
                TextureSource::FlatColor(descs[i].diffuse)
            },
            None => TextureSource::FlatColor(descs[i].diffuse),
        }
    }
}

/// Build the mesh of one sub-mesh: assembled vertices, copied indices,
/// recorded counts, and the material index capped at the last material.
pub fn build_mesh(sub: &SubMesh, n_materials: usize) -> (r: Mesh)
    requires
        n_materials >= 1,
        sub.positions@.len() / 3 <= u32::MAX,
        sub.indices@.len() <= u32::MAX,
    ensures
        r.wf(),
        r.num_vertices == sub.positions@.len() / 3,
        r.num_indices == sub.indices@.len(),
        r.indices@ == sub.indices@,
        r.material_id == spec_material_index(sub.material_id, n_materials as int),
        r.material_id < n_materials,
        r.vertices@.len() == sub.positions@.len() / 3,
        forall|v: int| 0 <= v < r.vertices@.len() ==> r.vertices@[v] == spec_vertex_at(*sub, v),
{
    let vertices = assemble_vertices(sub);
    let raw: usize = match sub.material_id {
        Some(i) => i,
        None => 0,
    };
    let material_id = if raw < n_materials - 1 {
        raw
    } else {
        n_materials - 1
    };
    let mut indices: Vec<u32> = Vec::new();
    assert(sub.indices@.take(0) =~= Seq::<u32>::empty());
    for i in 0..sub.indices.len()
        invariant
            indices@ == sub.indices@.take(i as int),
    {
        indices.push(sub.indices[i]);
        proof {
            assert(sub.indices@.take(i + 1) =~= sub.indices@.take(i as int).push(
                sub.indices@[i as int],
            ));
        }
    }
    proof {
        assert(sub.indices@.take(sub.indices@.len() as int) =~= sub.indices@);
    }
    let num_vertices = vertices.len() as u32;
    let num_indices = indices.len() as u32;
    Mesh { vertices, indices, num_vertices, num_indices, material_id }
}

/// Assemble a model from parsed sub-meshes and material descriptors.
///
/// - Each descriptor becomes a material with derived reflectance values
///   and the PBR texture references found beside its diffuse texture.
/// - If no material was parsed, one default material is synthesized.
/// - Each material becomes a material instance whose texture slot holds
///   the diffuse image if `texture_loaded` reports its load succeeded,
///   else a synthesized flat-color texture of the diffuse color; slot 3
///   binds the shared light buffer if the caller supplied one, else a
///   default light buffer created for this model.
/// - Each sub-mesh becomes one mesh, its material index capped at the
///   last material.
///
/// `texture_loaded[i]` reports whether material `i`'s diffuse image was
/// loaded by the collaborator; `pbr_textures[i]` holds the PBR texture
/// references found for it.
pub fn load_obj(
    submeshes: &Vec<SubMesh>,
    mtl_materials: Vec<MaterialDesc>,
    pbr_textures: Vec<(Option<String>, Option<String>, Option<String>)>,
    texture_loaded: &Vec<bool>,
    shared_light: bool,
) -> (r: Model)
    requires
        pbr_textures@.len() == mtl_materials@.len(),
        texture_loaded@.len() == spec_material_count(mtl_materials@),
        forall|i: int|
            0 <= i < submeshes@.len() ==> (#[trigger] submeshes@[i]).positions@.len() / 3
                <= u32::MAX && submeshes@[i].indices@.len() <= u32::MAX,
    ensures
        r.wf(),
        r.materials@.len() == spec_material_count(mtl_materials@),
        r.meshes@.len() == submeshes@.len(),
        forall|i: int|
            0 <= i < r.meshes@.len() ==> {
                let m = #[trigger] r.meshes@[i];
                m.num_vertices == submeshes@[i].positions@.len() / 3 && m.num_indices
                    == submeshes@[i].indices@.len() && m.indices@ == submeshes@[i].indices@
                    && m.material_id == spec_material_index(
                    submeshes@[i].material_id,
                    r.materials@.len() as int,
                ) && m.vertices@.len() == submeshes@[i].positions@.len() / 3 && (forall|v: int|
                    0 <= v < m.vertices@.len() ==> m.vertices@[v] == spec_vertex_at(
                        submeshes@[i],
                        v,
                    ))
            },
        forall|i: int|
            0 <= i < r.materials@.len() ==> {
                let inst = #[trigger] r.materials@[i];
                inst.material_id == i && inst.texture == spec_texture_for(
                    mtl_materials@,
                    texture_loaded@,
                    i,
                ) && inst.light == (if shared_light {
                    LightBinding::Shared
                } else {
                    LightBinding::DefaultLight
                })
            },
{
    let ghost descs = mtl_materials@;
    let mut mtl_materials = mtl_materials;
    let mut pbr_textures = pbr_textures;
    let mut materials: Vec<Material> = Vec::new();
    let n_mtl = mtl_materials.len();
    let mut idx: usize = 0;
    while idx < n_mtl
        invariant
            idx <= n_mtl,
            n_mtl == descs.len(),
            mtl_materials@ == descs.subrange(idx as int, n_mtl as int),
            pbr_textures@.len() == mtl_materials@.len(),
            materials@.len() == idx,
            forall|i: int|
                0 <= i < idx ==> (#[trigger] materials@[i]).diffuse_texture
                    == descs[i].diffuse_texture && materials@[i].diffuse == descs[i].diffuse,
        decreases n_mtl - idx,
    {
        let d = mtl_materials.remove(0);
        let pbr = pbr_textures.remove(0);
        proof {
            assert(d == descs[idx as int]);
            assert(mtl_materials@ =~= descs.subrange(idx + 1, n_mtl as int));
        }
        let metallic: i64 = if d.specular.x > METALLIC_THRESHOLD && d.specular.y
            > METALLIC_THRESHOLD && d.specular.z > METALLIC_THRESHOLD {
            METALLIC_HIGH
        } else {
            0
        };
        let roughness = roughness_of(d.shininess);
        materials.push(
            Material {
                name: d.name,
                diffuse_texture: d.diffuse_texture,
                normal_texture: pbr.0,
                metallic_texture: pbr.1,
                roughness_texture: pbr.2,
                ambient: d.ambient,
                diffuse: d.diffuse,
                specular: d.specular,
                metallic,
                roughness,
                shininess: d.shininess,
            },
        );
        idx = idx + 1;
    }
    if materials.len() == 0 {
        materials.push(default_material());
    }
    let n_materials = materials.len();
    let mut instances: Vec<MaterialInstance> = Vec::new();
    let light = if shared_light {
        LightBinding::Shared
    } else {
        LightBinding::DefaultLight
    };
    for i in 0..n_materials
        invariant
            n_materials == materials@.len(),
            n_materials == spec_material_count(descs),
            texture_loaded@.len() == spec_material_count(descs),
            descs.len() > 0 ==> forall|k: int|
                0 <= k < n_materials ==> (#[trigger] materials@[k]).diffuse_texture
                    == descs[k].diffuse_texture && materials@[k].diffuse == descs[k].diffuse,
            descs.len() == 0 ==> materials@[0].diffuse_texture is None && materials@[0].diffuse
                == (Vec3 { x: 700_000, y: 700_000, z: 700_000 }),
            instances@.len() == i,
            forall|k: int|
                0 <= k < i ==> {
                    let inst = #[trigger] instances@[k];
                    inst.material_id == k && inst.texture == spec_texture_for(
                        descs,
                        texture_loaded@,
                        k,
                    ) && inst.light == (if shared_light {
                        LightBinding::Shared
                    } else {
                        LightBinding::DefaultLight
                    })
                },
            light == (if shared_light {
                LightBinding::Shared
            } else {
                LightBinding::DefaultLight
            }),
    {
        let texture: TextureSource = match &materials[i].diffuse_texture {
            Some(path) => if texture_loaded[i] {
                TextureSource::File(path.clone())
            } else {
                TextureSource::FlatColor(materials[i].diffuse)
            },
            None => TextureSource::FlatColor(materials[i].diffuse),
        };
        instances.push(MaterialInstance { material_id: i, texture, light });
    }
    let mut meshes: Vec<Mesh> = Vec::new();
    let n_sub = submeshes.len();
    for i in 0..n_sub
        invariant
            n_sub == submeshes@.len(),
            n_materials == instances@.len(),
            n_materials >= 1,
            forall|k: int|
                0 <= k < submeshes@.len() ==> (#[trigger] submeshes@[k]).positions@.len() / 3
                    <= u32::MAX && submeshes@[k].indices@.len() <= u32::MAX,
            meshes@.len() == i,
            forall|k: int|
                0 <= k < i ==> {
                    let m = #[trigger] meshes@[k];
                    m.wf() && m.num_vertices == submeshes@[k].positions@.len() / 3
                        && m.num_indices == submeshes@[k].indices@.len() && m.indices@
                        == submeshes@[k].indices@ && m.material_id == spec_material_index(
                        submeshes@[k].material_id,
                        n_materials as int,
                    ) && m.material_id < n_materials && m.vertices@.len()
                        == submeshes@[k].positions@.len() / 3 && (forall|v: int|
                        0 <= v < m.vertices@.len() ==> m.vertices@[v] == spec_vertex_at(
                            submeshes@[k],
                            v,
                        ))
                },
    {
        let mesh = build_mesh(&submeshes[i], n_materials);
        meshes.push(mesh);
    }
    Model { meshes, materials: instances }
}

/// How many materials the loader ends with: the parsed ones, or one
/// synthesized default.
pub open spec fn spec_material_count(descs: Seq<MaterialDesc>) -> int {
    if descs.len() == 0 {
        1
    } else {
        descs.len() as int
    }
}

} // verus!

verus! {

/// The index of the last occurrence of `c` in `s`, if any.
pub open spec fn spec_last_index_of(s: Seq<char>, c: char) -> Option<int>
    decreases s.len(),
{
    if s.len() == 0 {
        None
    } else if s.last() == c {
        Some(s.len() - 1)
    } else {
        spec_last_index_of(s.drop_last(), c)
    }
}

/// The directory part of a path: everything before the last separator,
/// empty when there is none.
pub open spec fn spec_parent_dir(s: Seq<char>) -> Seq<char> {
    match spec_last_index_of(s, '/') {
        Some(i) => s.subrange(0, i),
        None => Seq::empty(),
    }
}

/// The file-name part of a path: everything after the last separator.
pub open spec fn spec_file_name(s: Seq<char>) -> Seq<char> {
    match spec_last_index_of(s, '/') {
        Some(i) => s.subrange(i + 1, s.len() as int),
        None => s,
    }
}

/// The stem of a path's file name: the name up to its last dot, the whole
/// name when there is no dot or the name starts with one; no stem for an
/// empty file name.
pub open spec fn spec_file_stem(s: Seq<char>) -> Option<Seq<char>> {
    let f = spec_file_name(s);
    if f.len() == 0 {
        None
    } else {
        match spec_last_index_of(f, '.') {
            Some(i) => if i > 0 {
                Some(f.subrange(0, i))
            } else {
                Some(f)
            },
            None => Some(f),
        }
    }
}

/// The first index at or after `i` holding a non-space character.
pub open spec fn spec_skip_spaces(s: Seq<char>, i: int) -> int
    decreases s.len() - i,
{
    if i < 0 || i >= s.len() {
        s.len() as int
    } else if s[i] == ' ' {
        spec_skip_spaces(s, i + 1)
    } else {
        i
    }
}

/// The first index at or after `i` holding a space.
pub open spec fn spec_word_end(s: Seq<char>, i: int) -> int
    decreases s.len() - i,
{
    if i < 0 || i >= s.len() {
        s.len() as int
    } else if s[i] == ' ' {
        i
    } else {
        spec_word_end(s, i + 1)
    }
}

/// The first space-separated word of a name, or the whole name when it
/// holds none.
pub open spec fn spec_first_word(s: Seq<char>) -> Seq<char> {
    let a = spec_skip_spaces(s, 0);
    if a >= s.len() {
        s
    } else {
        s.subrange(a, spec_word_end(s, a))
    }
}

/// A directory and a file name joined into a path.
pub open spec fn spec_join(dir: Seq<char>, name: Seq<char>) -> Seq<char> {
    if dir.len() == 0 {
        name
    } else {
        dir + seq!['/'] + name
    }
}

/// Whether the listing holds this path.
pub open spec fn spec_present(existing: Seq<Seq<char>>, c: Seq<char>) -> bool {
    exists|j: int| 0 <= j < existing.len() && existing[j] == c
}

/// The views of a list of strings.
pub open spec fn spec_views(v: Seq<String>) -> Seq<Seq<char>> {
    Seq::new(v.len(), |i: int| v[i]@)
}

/// The candidates one suffix contributes, in probe order: the material
/// word with the suffix as a PNG, then the file stem with the suffix as a
/// PNG and as a JPG; the first one present in the listing wins.
pub open spec fn spec_check_suffix(
    dir: Seq<char>,
    mat_base: Seq<char>,
    stem: Option<Seq<char>>,
    existing: Seq<Seq<char>>,
    suffix: Seq<char>,
) -> Option<Seq<char>> {
    let c1 = spec_join(dir, mat_base + suffix + ".png"@);
    if spec_present(existing, c1) {
        Some(c1)
    } else {
        match stem {
            Some(st) => {
                let c2 = spec_join(dir, st + suffix + ".png"@);
                if spec_present(existing, c2) {
                    Some(c2)
                } else {
                    let c3 = spec_join(dir, st + suffix + ".jpg"@);
                    if spec_present(existing, c3) {
                        Some(c3)
                    } else {
                        None
                    }
                }
            },
            None => None,
        }
    }
}

/// The first hit over the suffixes from position `i` on.
pub open spec fn spec_find_from(
    dir: Seq<char>,
    mat_base: Seq<char>,
    stem: Option<Seq<char>>,
    existing: Seq<Seq<char>>,
    suffixes: Seq<Seq<char>>,
    i: int,
) -> Option<Seq<char>>
    decreases suffixes.len() - i,
{
    if i < 0 || i >= suffixes.len() {
        None
    } else {
        match spec_check_suffix(dir, mat_base, stem, existing, suffixes[i]) {
            Some(c) => Some(c),
            None => spec_find_from(dir, mat_base, stem, existing, suffixes, i + 1),
        }
    }
}

/// The suffixes probed for each texture kind.
pub open spec fn spec_suffixes(t: Seq<char>) -> Seq<Seq<char>> {
    if t == "normal"@ {
        seq!["_normal"@, "_nrm"@, "_n"@, "-normal"@, "-nrm"@, "-n"@, "_Normal"@]
    } else if t == "metallic"@ {
        seq!["_metallic"@, "_metalness"@, "_metal"@, "_m"@, "-metallic"@, "-m"@, "_Metallic"@]
    } else if t == "roughness"@ {
        seq!["_roughness"@, "_rough"@, "_r"@, "-roughness"@, "-r"@, "_Roughness"@]
    } else {
        Seq::empty()
    }
}

/// Where `find_pbr_texture` looks: beside the base texture, first for the
/// material's name and then for the base file's stem, with each suffix of
/// the requested kind, preferring PNG over JPG.
pub open spec fn spec_find_pbr_texture(
    base: Seq<char>,
    t: Seq<char>,
    name: Seq<char>,
    existing: Seq<Seq<char>>,
) -> Option<Seq<char>> {
    spec_find_from(
        spec_parent_dir(base),
        spec_first_word(name),
        spec_file_stem(base),
        existing,
        spec_suffixes(t),
        0,
    )
}

/// The index of the last occurrence of `c` in `s`, if any.
fn last_index_of(s: &str, c: char) -> (r: Option<usize>)
    ensures
        match r {
            Some(i) => spec_last_index_of(s@, c) == Some(i as int),
            None => spec_last_index_of(s@, c) is None,
        },
{
    let mut i = s.unicode_len();
    proof {
        assert(s@.subrange(0, i as int) =~= s@);
    }
    while i > 0
        invariant
            i <= s@.len(),
            spec_last_index_of(s@, c) == spec_last_index_of(s@.subrange(0, i as int), c),
        decreases i,
    {
        i = i - 1;
        let ch = s.get_char(i);
        proof {
            assert(s@.subrange(0, i as int + 1).drop_last() =~= s@.subrange(0, i as int));
            assert(s@.subrange(0, i as int + 1).last() == s@[i as int]);
        }
        if ch == c {
            return Some(i);
        }
    }
    proof {
        assert(s@.subrange(0, 0) =~= Seq::<char>::empty());
    }
    None
}

/// Whether two strings hold the same characters.
fn str_eq(a: &str, b: &str) -> (r: bool)
    ensures
        r == (a@ == b@),
{
    let n = a.unicode_len();
    if n != b.unicode_len() {
        return false;
    }
    for i in 0..n
        invariant
            n == a@.len(),
            n == b@.len(),
            forall|j: int| 0 <= j < i ==> a@[j] == b@[j],
    {
        if a.get_char(i) != b.get_char(i) {
            return false;
        }
    }
    proof {
        assert(a@ =~= b@);
    }
    true
}

/// Whether the listing holds this path.
fn listing_contains(existing: &Vec<String>, candidate: &str) -> (r: bool)
    ensures
        r == spec_present(spec_views(existing@), candidate@),
{
    let n = existing.len();
    for i in 0..n
        invariant
            n == existing@.len(),
            forall|j: int| 0 <= j < i ==> spec_views(existing@)[j] != candidate@,
    {
        if str_eq(existing[i].as_str(), candidate) {
            proof {
                assert(spec_views(existing@)[i as int] == candidate@);
            }
            return true;
        }
    }
    false
}

/// Join a directory and a file name into a path.
fn join_path(dir: &str, name: &str) -> (r: String)
    ensures
        r@ == spec_join(dir@, name@),
{
    if dir.unicode_len() == 0 {
        let r = name.to_owned();
        proof {
            assert(r@ =~= spec_join(dir@, name@));
        }
        r
    } else {
        let mut r = dir.to_owned();
        r.append("/");
        r.append(name);
        proof {
            reveal_strlit("/");
            assert("/"@ =~= seq!['/']);
            assert(r@ =~= spec_join(dir@, name@));
        }
        r
    }
}

/// Probe the three candidates of one suffix against the listing.
fn check_suffix(
    dir: &str,
    mat_base: &str,
    stem: &Option<String>,
    existing: &Vec<String>,
    suffix: &str,
) -> (r: Option<String>)
    ensures
        match r {
            Some(p) => spec_check_suffix(
                dir@,
                mat_base@,
                spec_stem_view(*stem),
                spec_views(existing@),
                suffix@,
            ) == Some(p@),
            None => spec_check_suffix(
                dir@,
                mat_base@,
                spec_stem_view(*stem),
                spec_views(existing@),
                suffix@,
            ) is None,
        },
{
    let mut n1 = mat_base.to_owned();
    n1.append(suffix);
    n1.append(".png");
    let c1 = join_path(dir, n1.as_str());
    if listing_contains(existing, c1.as_str()) {
        return Some(c1);
    }
    match stem {
        Some(st) => {
            let mut n2 = st.clone();
            n2.append(suffix);
            n2.append(".png");
            let c2 = join_path(dir, n2.as_str());
            if listing_contains(existing, c2.as_str()) {
                return Some(c2);
            }
            let mut n3 = st.clone();
            n3.append(suffix);
            n3.append(".jpg");
            let c3 = join_path(dir, n3.as_str());
            if listing_contains(existing, c3.as_str()) {
                return Some(c3);
            }
            None
        },
        None => None,
    }
}

/// The view of an optional stem.
pub open spec fn spec_stem_view(stem: Option<String>) -> Option<Seq<char>> {
    match stem {
        Some(s) => Some(s@),
        None => None,
    }
}

/// Look for a physically-based-rendering texture beside `base_path`: for
/// each naming-convention suffix of `texture_type` (`"normal"`,
/// `"metallic"` or `"roughness"`), try the material name's first word and
/// the base file's stem, as PNG and JPG, and return the first candidate
/// that the directory listing `existing` holds.
pub fn find_pbr_texture(
    base_path: &str,
    texture_type: &str,
    material_name: &str,
    existing: &Vec<String>,
) -> (r: Option<String>)
    ensures
        match r {
            Some(p) => spec_find_pbr_texture(
                base_path@,
                texture_type@,
                material_name@,
                spec_views(existing@),
            ) == Some(p@),
            None => spec_find_pbr_texture(
                base_path@,
                texture_type@,
                material_name@,
                spec_views(existing@),
            ) is None,
        },
{
    let dir = parent_dir(base_path);
    let stem = file_stem(base_path);
    let mat_base = first_word(material_name);
    let mut suffixes: Vec<String> = Vec::new();
    if str_eq(texture_type, "normal") {
        suffixes.push("_normal".to_owned());
        suffixes.push("_nrm".to_owned());
        suffixes.push("_n".to_owned());
        suffixes.push("-normal".to_owned());
        suffixes.push("-nrm".to_owned());
        suffixes.push("-n".to_owned());
        suffixes.push("_Normal".to_owned());
    } else if str_eq(texture_type, "metallic") {
        suffixes.push("_metallic".to_owned());
        suffixes.push("_metalness".to_owned());
        suffixes.push("_metal".to_owned());
        suffixes.push("_m".to_owned());
        suffixes.push("-metallic".to_owned());
        suffixes.push("-m".to_owned());
        suffixes.push("_Metallic".to_owned());
    } else if str_eq(texture_type, "roughness") {
        suffixes.push("_roughness".to_owned());
        suffixes.push("_rough".to_owned());
        suffixes.push("_r".to_owned());
        suffixes.push("-roughness".to_owned());
        suffixes.push("-r".to_owned());
        suffixes.push("_Roughness".to_owned());
    }
    proof {
        assert(spec_views(suffixes@) =~= spec_suffixes(texture_type@));
    }
    let n = suffixes.len();
    for i in 0..n
        invariant
            n == suffixes@.len(),
            spec_views(suffixes@) == spec_suffixes(texture_type@),
            dir@ == spec_parent_dir(base_path@),
            spec_stem_view(stem) == spec_file_stem(base_path@),
            mat_base@ == spec_first_word(material_name@),
            spec_find_pbr_texture(
                base_path@,
                texture_type@,
                material_name@,
                spec_views(existing@),
            ) == spec_find_from(
                spec_parent_dir(base_path@),
                spec_first_word(material_name@),
                spec_file_stem(base_path@),
                spec_views(existing@),
                spec_suffixes(texture_type@),
                i as int,
            ),
    {
        let hit = check_suffix(
            dir.as_str(),
            mat_base.as_str(),
            &stem,
            existing,
            suffixes[i].as_str(),
        );
        proof {
            assert(spec_views(suffixes@)[i as int] == suffixes@[i as int]@);
        }
        if hit.is_some() {
            return hit;
        }
    }
    None
}

/// Where the last occurrence sits: inside the sequence.
proof fn lemma_last_index_bounds(s: Seq<char>, c: char)
    ensures
        spec_last_index_of(s, c) matches Some(i) ==> 0 <= i < s.len(),
    decreases s.len(),
{
    if s.len() > 0 && s.last() != c {
        lemma_last_index_bounds(s.drop_last(), c);
    }
}

/// The directory part of a path.
fn parent_dir(s: &str) -> (r: String)
    ensures
        r@ == spec_parent_dir(s@),
{
    match last_index_of(s, '/') {
        Some(i) => {
            proof {
                lemma_last_index_bounds(s@, '/');
            }
            s.substring_char(0, i).to_owned()
        },
        None => {
            let r = String::new();
            proof {
                assert(r@ =~= spec_parent_dir(s@));
            }
            r
        },
    }
}

/// The stem of a path's file name.
fn file_stem(s: &str) -> (r: Option<String>)
    ensures
        spec_stem_view(r) == spec_file_stem(s@),
{
    let name: String = match last_index_of(s, '/') {
        Some(i) => {
            proof {
                lemma_last_index_bounds(s@, '/');
            }
            let len = s.unicode_len();
            s.substring_char(i + 1, len).to_owned()
        },
        None => s.to_owned(),
    };
    if name.as_str().unicode_len() == 0 {
        proof {
            assert(spec_file_name(s@).len() == 0);
        }
        return None;
    }
    match last_index_of(name.as_str(), '.') {
        Some(i) => if i > 0 {
            proof {
                lemma_last_index_bounds(name@, '.');
            }
            Some(name.as_str().substring_char(0, i).to_owned())
        } else {
            Some(name)
        },
        None => Some(name),
    }
}

/// The first space-separated word of a name, or the whole name.
fn first_word(s: &str) -> (r: String)
    ensures
        r@ == spec_first_word(s@),
{
    let n = s.unicode_len();
    let mut a: usize = 0;
    while a < n && s.get_char(a) == ' '
        invariant
            a <= n,
            n == s@.len(),
            spec_skip_spaces(s@, 0) == spec_skip_spaces(s@, a as int),
        decreases n - a,
    {
        a = a + 1;
    }
    proof {
        assert(spec_skip_spaces(s@, a as int) == a as int);
    }
    if a >= n {
        return s.to_owned();
    }
    let mut b: usize = a;
    while b < n && s.get_char(b) != ' '
        invariant
            a <= b <= n,
            n == s@.len(),
            spec_word_end(s@, a as int) == spec_word_end(s@, b as int),
        decreases n - b,
    {
        b = b + 1;
    }
    proof {
        assert(spec_word_end(s@, b as int) == b as int);
    }
    s.substring_char(a, b).to_owned()
}

} // verus!
