//! Materials, material instances and drawable models.
//!
//! A `Material` is descriptive: names, texture paths and reflectance
//! parameters. A `MaterialInstance` is its GPU-realized counterpart: the
//! contents of the bind group a draw call consumes. A `Model` is a list of
//! meshes plus the material instances they reference; drawing it yields a
//! deterministic list of draw calls in insertion order.

use vstd::prelude::*;
use crate::math::Vec3;
use crate::mesh::Mesh;

verus! {

/// A descriptive material, as the asset collaborator reports it plus the
/// reflectance values the loader derives. Colors and scalars are
/// fixed-point.
#[derive(Clone, Debug)]
pub struct Material {
    pub name: String,
    pub diffuse_texture: Option<String>,
    pub normal_texture: Option<String>,
    pub metallic_texture: Option<String>,
    pub roughness_texture: Option<String>,
    pub ambient: Vec3,
    pub diffuse: Vec3,
    pub specular: Vec3,
    pub metallic: i64,
    pub roughness: i64,
    pub shininess: i64,
}

/// What the texture slot of a bind group holds: an image the collaborator
/// loaded from a path, or a synthesized flat-color texture.
#[derive(Clone, Debug)]
pub enum TextureSource {
    /// A texture image loaded from this path.
    File(String),
    /// A one-color texture of this fixed-point RGB color.
    FlatColor(Vec3),
}

/// What the light slot of a bind group holds: the shared sun-light buffer
/// the caller supplied, or a default light buffer created for this model.
#[derive(Clone, Copy, Debug, PartialEq, Eq, Structural)]
pub enum LightBinding {
    Shared,
    DefaultLight,
}

/// A GPU-realized material: the index of the material it realizes and the
/// contents of the four-slot bind group (per-object uniform buffer at slot
/// 0, the resolved texture and its sampler at slots 1 and 2, the light
/// buffer at slot 3).
#[derive(Clone, Debug)]
pub struct MaterialInstance {
    pub material_id: usize,
    pub texture: TextureSource,
    pub light: LightBinding,
}

/// One indexed draw: bind the material instance's resource set, bind the
/// mesh's vertex and index buffers, draw `num_indices` indices.
#[derive(Clone, Copy, Debug, PartialEq, Eq, Structural)]
pub struct DrawCall {
    /// Index of the drawn mesh in the model's mesh list.
    pub mesh: usize,
    /// Index of the bound material instance in the model's material list.
    pub material: usize,
    /// How many indices the draw call covers.
    pub num_indices: u32,
}

/// A drawable unit: meshes plus the material instances they reference.
#[derive(Clone, Debug)]
pub struct Model {
    pub meshes: Vec<Mesh>,
    pub materials: Vec<MaterialInstance>,
}

/// The draw list of a model: one call per mesh, in insertion order, each
/// binding the mesh's material.
pub open spec fn spec_draw_calls(m: Model) -> Seq<DrawCall> {
    Seq::new(
        m.meshes@.len(),
        |i: int|
            DrawCall {
                mesh: i as usize,
                material: m.meshes@[i].material_id,
                num_indices: m.meshes@[i].num_indices,
            },
    )
}

impl Model {
    /// Every mesh is well formed and references an existing material.
    pub open spec fn wf(&self) -> bool {
        forall|i: int|
            0 <= i < self.meshes@.len() ==> (#[trigger] self.meshes@[i]).wf()
                && self.meshes@[i].material_id < self.materials@.len()
    }

    /// Create a new empty model.
    pub fn new() -> (r: Model)
        ensures
            r.wf(),
            r.meshes@.len() == 0,
            r.materials@.len() == 0,
    {
        Model { meshes: Vec::new(), materials: Vec::new() }
    }

    /// Append a mesh to the model.
    pub fn add_mesh(&mut self, mesh: Mesh)
        ensures
            final(self).meshes@ == old(self).meshes@.push(mesh),
            final(self).materials@ == old(self).materials@,
    {
        self.meshes.push(mesh);
    }

    /// Append a material instance to the model.
    pub fn add_material(&mut self, material: MaterialInstance)
        ensures
            final(self).materials@ == old(self).materials@.push(material),
            final(self).meshes@ == old(self).meshes@,
    {
        self.materials.push(material);
    }

    /// The draw protocol of this model: for each mesh, in insertion order,
    /// bind its material's resource set and issue one indexed draw over all
    /// of the mesh's indices. The caller executes the calls against the
    /// render pass.
    pub fn draw(&self) -> (r: Vec<DrawCall>)
        requires
            self.wf(),
        ensures
            r@ == spec_draw_calls(*self),
            forall|i: int|
                0 <= i < r@.len() ==> (#[trigger] r@[i]).material < self.materials@.len(),
    {
        let mut calls: Vec<DrawCall> = Vec::new();
        let n = self.meshes.len();
        for i in 0..n
            invariant
                n == self.meshes@.len(),
                self.wf(),
                calls@ =~= spec_draw_calls(*self).take(i as int),
        {
            let mesh = &self.meshes[i];
            calls.push(DrawCall { mesh: i, material: mesh.material_id, num_indices: mesh.num_indices });
            proof {
                assert(calls@ =~= spec_draw_calls(*self).take(i + 1));
            }
        }
        proof {
            assert(spec_draw_calls(*self).take(n as int) =~= spec_draw_calls(*self));
        }
        calls
    }
}

} // verus!
