//! The renderer's state: the surface configuration, the depth buffer
//! dimensions, the draw list, and the per-frame draw protocol.
//!
//! The GPU device, surface and pipeline objects live with the windowing
//! collaborator; this module decides what they are asked to do. The
//! invariant the resize protocol maintains is that the depth buffer always
//! matches the surface dimensions.

use vstd::prelude::*;
use crate::mesh::MeshData;
use crate::mesh::Vertex;
use crate::mesh::Bits3;
use crate::mesh::Bits2;
use crate::mesh::F_ZERO;
use crate::mesh::F_ONE;
use crate::mesh::F_HALF;
use crate::model::Model;
use crate::model::MaterialInstance;
use crate::model::TextureSource;
use crate::model::LightBinding;
use crate::model::DrawCall;
use crate::model::spec_draw_calls;
use crate::math::Vec3;

verus! {

/// A surface error the frame loop reacts to: the surface was lost and
/// must be reconfigured, or the frame could not be acquired for another,
/// transient reason.
#[derive(Clone, Copy, Debug, PartialEq, Eq, Structural)]
pub enum SurfaceError {
    Lost,
    Transient,
}

/// One frame's worth of draw calls: the draw list walked in insertion
/// order, each mesh drawn with its material's resource set.
#[derive(Clone, Debug)]
pub struct FrameDraws {
    /// Per model, in draw-list order: that model's draw calls.
    pub calls: Vec<Vec<DrawCall>>,
}

/// The renderer's bookkeeping state.
pub struct Renderer {
    /// Presentation surface width, in pixels; never zero.
    pub config_width: u32,
    /// Presentation surface height, in pixels; never zero.
    pub config_height: u32,
    /// Depth buffer width, in pixels.
    pub depth_width: u32,
    /// Depth buffer height, in pixels.
    pub depth_height: u32,
    /// The models drawn each frame, in insertion order.
    pub models: Vec<Model>,
}

impl Renderer {
    /// The depth buffer matches the surface, the dimensions are nonzero,
    /// and every model's meshes reference existing materials.
    pub open spec fn wf(&self) -> bool {
        &&& self.depth_width == self.config_width
        &&& self.depth_height == self.config_height
        &&& self.config_width >= 1
        &&& self.config_height >= 1
        &&& forall|i: int| 0 <= i < self.models@.len() ==> (#[trigger] self.models@[i]).wf()
    }

    /// A new renderer for a surface of the given size (clamped to at
    /// least one pixel each way, as a window manager may report zero), a
    /// freshly created depth buffer of the same size, and an empty draw
    /// list.
    pub fn new(width: u32, height: u32) -> (r: Renderer)
        ensures
            r.wf(),
            r.config_width == if width >= 1 {
                width
            } else {
                1u32
            },
            r.config_height == if height >= 1 {
                height
            } else {
                1u32
            },
            r.models@.len() == 0,
    {
        let w = if width >= 1 {
            width
        } else {
            1
        };
        let h = if height >= 1 {
            height
        } else {
            1
        };
        Renderer {
            config_width: w,
            config_height: h,
            depth_width: w,
            depth_height: h,
            models: Vec::new(),
        }
    }

    /// Resize the surface and rebuild the depth buffer to the new
    /// dimensions; a zero dimension makes the call a no-op, so a resize
    /// event from a minimized window cannot break the surface. After
    /// every resize the depth buffer dimensions equal the surface
    /// dimensions.
    pub fn resize(&mut self, width: u32, height: u32)
        requires
            old(self).wf(),
        ensures
            final(self).wf(),
            width > 0 && height > 0 ==> {
                &&& final(self).config_width == width
                &&& final(self).config_height == height
                &&& final(self).depth_width == width
                &&& final(self).depth_height == height
            },
            !(width > 0 && height > 0) ==> *final(self) == *old(self),
            final(self).models@ == old(self).models@,
    {
        if width > 0 && height > 0 {
            self.config_width = width;
            self.config_height = height;
            self.depth_width = width;
            self.depth_height = height;
        }
    }

    /// The model at `index` in the draw list, if any.
    pub fn get_model(&self, index: usize) -> (r: Option<&Model>)
        ensures
            index < self.models@.len() ==> (r matches Some(m) && *m == self.models@[index as int]),
            index >= self.models@.len() ==> r is None,
    {
        if index < self.models.len() {
            Some(&self.models[index])
        } else {
            None
        }
    }

    /// Append a model to the draw list; it is drawn from the next frame
    /// on, after all models added before it.
    pub fn add_model(&mut self, model: Model)
        requires
            old(self).wf(),
            model.wf(),
        ensures
            final(self).wf(),
            final(self).models@ == old(self).models@.push(model),
            final(self).config_width == old(self).config_width,
            final(self).config_height == old(self).config_height,
            final(self).depth_width == old(self).depth_width,
            final(self).depth_height == old(self).depth_height,
    {
        self.models.push(model);
    }

    /// React to a failure to acquire the next frame: a lost surface is
    /// recovered by reconfiguring at the current dimensions (which also
    /// rebuilds the depth buffer); a transient failure changes nothing.
    /// Either way the error is reported upward and the caller retries
    /// next frame.
    pub fn on_acquire_error(&mut self, error: SurfaceError) -> (r: SurfaceError)
        requires
            old(self).wf(),
        ensures
            final(self).wf(),
            r == error,
            final(self).config_width == old(self).config_width,
            final(self).config_height == old(self).config_height,
            final(self).models@ == old(self).models@,
    {
        if error == SurfaceError::Lost {
            let w = self.config_width;
            let h = self.config_height;
            self.resize(w, h);
        }
        error
    }

    /// The draw protocol of one frame: after the pass cleared color and
    /// depth and bound the lit pipeline, every model of the draw list is
    /// drawn in insertion order — determinism the tests can rely on. The
    /// caller executes the calls against the render pass and presents.
    pub fn render_scene(&self) -> (r: FrameDraws)
        requires
            self.wf(),
        ensures
            r.calls@.len() == self.models@.len(),
            forall|i: int|
                0 <= i < r.calls@.len() ==> (#[trigger] r.calls@[i])@ == spec_draw_calls(
                    self.models@[i],
                ),
    {
        let mut calls: Vec<Vec<DrawCall>> = Vec::new();
        let n = self.models.len();
        for i in 0..n
            invariant
                n == self.models@.len(),
                self.wf(),
                calls@.len() == i,
                forall|k: int|
                    0 <= k < i ==> (#[trigger] calls@[k])@ == spec_draw_calls(self.models@[k]),
        {
            let model_calls = self.models[i].draw();
            calls.push(model_calls);
        }
        FrameDraws { calls }
    }
}

/// How many grid lines run each way: from `-GRID_SIZE` to `GRID_SIZE`.
pub const GRID_SIZE: i64 = 20;

/// The vertex color of the two center lines.
pub open spec fn spec_grid_center_color() -> Bits3 {
    Bits3 { x: F_ONE, y: F_ONE, z: F_ONE }
}

/// The vertex color of an ordinary grid line.
pub open spec fn spec_grid_line_color() -> Bits3 {
    Bits3 { x: F_HALF, y: F_HALF, z: F_HALF }
}

/// The color of grid line `k`: white for the center line, grey otherwise.
pub open spec fn spec_grid_color(k: int) -> Bits3 {
    if k == GRID_SIZE {
        spec_grid_center_color()
    } else {
        spec_grid_line_color()
    }
}

/// The two endpoints of grid line `k` running along the x axis at
/// `z = coords[k]`.
pub open spec fn spec_x_line(coords: Seq<u32>, extent: u32, k: int) -> Seq<Vertex> {
    seq![
        Vertex {
            position: Bits3 { x: extent ^ 0x8000_0000u32, y: F_ZERO, z: coords[k] },
            normal: Bits3 { x: F_ZERO, y: F_ONE, z: F_ZERO },
            tex_coords: Bits2 { u: F_ZERO, v: F_ZERO },
            color: spec_grid_color(k),
        },
        Vertex {
            position: Bits3 { x: extent, y: F_ZERO, z: coords[k] },
            normal: Bits3 { x: F_ZERO, y: F_ONE, z: F_ZERO },
            tex_coords: Bits2 { u: F_ONE, v: F_ZERO },
            color: spec_grid_color(k),
        },
    ]
}

/// The two endpoints of grid line `k` running along the z axis at
/// `x = coords[k]`.
pub open spec fn spec_z_line(coords: Seq<u32>, extent: u32, k: int) -> Seq<Vertex> {
    seq![
        Vertex {
            position: Bits3 { x: coords[k], y: F_ZERO, z: extent ^ 0x8000_0000u32 },
            normal: Bits3 { x: F_ZERO, y: F_ONE, z: F_ZERO },
            tex_coords: Bits2 { u: F_ZERO, v: F_ZERO },
            color: spec_grid_color(k),
        },
        Vertex {
            position: Bits3 { x: coords[k], y: F_ZERO, z: extent },
            normal: Bits3 { x: F_ZERO, y: F_ONE, z: F_ZERO },
            tex_coords: Bits2 { u: F_ONE, v: F_ZERO },
            color: spec_grid_color(k),
        },
    ]
}

/// The first `k` x-direction grid lines, in order.
pub open spec fn spec_x_lines(coords: Seq<u32>, extent: u32, k: int) -> Seq<Vertex>
    decreases k,
{
    if k <= 0 {
        Seq::empty()
    } else {
        spec_x_lines(coords, extent, k - 1) + spec_x_line(coords, extent, k - 1)
    }
}

/// The first `k` z-direction grid lines, in order.
pub open spec fn spec_z_lines(coords: Seq<u32>, extent: u32, k: int) -> Seq<Vertex>
    decreases k,
{
    if k <= 0 {
        Seq::empty()
    } else {
        spec_z_lines(coords, extent, k - 1) + spec_z_line(coords, extent, k - 1)
    }
}

/// One axis line of the gizmo: from the origin along `tip`, with the axis
/// color and the axis direction as the normal.
pub open spec fn spec_axis_line(tip: Bits3, color: Bits3) -> Seq<Vertex> {
    seq![
        Vertex {
            position: Bits3 { x: F_ZERO, y: F_ZERO, z: F_ZERO },
            normal: color,
            tex_coords: Bits2 { u: F_ZERO, v: F_ZERO },
            color,
        },
        Vertex {
            position: tip,
            normal: color,
            tex_coords: Bits2 { u: F_ONE, v: F_ZERO },
            color,
        },
    ]
}

/// All grid and gizmo vertices: every x line, every z line (white center
/// lines, grey otherwise), then the red x, green y and blue z axis lines.
pub open spec fn spec_grid_vertices(coords: Seq<u32>, extent: u32, axis_len: u32) -> Seq<Vertex> {
    spec_x_lines(coords, extent, 2 * GRID_SIZE + 1) + spec_z_lines(coords, extent, 2 * GRID_SIZE + 1)
        + spec_axis_line(
        Bits3 { x: axis_len, y: F_ZERO, z: F_ZERO },
        Bits3 { x: F_ONE, y: F_ZERO, z: F_ZERO },
    ) + spec_axis_line(
        Bits3 { x: F_ZERO, y: axis_len, z: F_ZERO },
        Bits3 { x: F_ZERO, y: F_ONE, z: F_ZERO },
    ) + spec_axis_line(
        Bits3 { x: F_ZERO, y: F_ZERO, z: axis_len },
        Bits3 { x: F_ZERO, y: F_ZERO, z: F_ONE },
    )
}

/// Build the debug grid and axis-gizmo mesh data: one line across the
/// grid for each coordinate value (white for the two center lines, grey
/// otherwise), then three colored axis lines. `coords[k]` holds the float
/// bit pattern of the world coordinate of line `k` (the collaborator
/// converts `k - GRID_SIZE` to float); `extent` is the bit pattern of the
/// grid's half-width and `axis_len` of the axis length.
///
/// The mesh pairs consecutive vertices into lines: vertex count
/// `4 * (2 * GRID_SIZE + 1) + 6`, one index per vertex in order, material
/// 0.
pub fn grid_mesh_data(coords: &Vec<u32>, extent: u32, axis_len: u32) -> (r: MeshData)
    requires
        coords@.len() == 2 * GRID_SIZE + 1,
    ensures
        r.vertices@ == spec_grid_vertices(coords@, extent, axis_len),
        r.vertices@.len() == 4 * (2 * GRID_SIZE + 1) + 6,
        r.indices@.len() == r.vertices@.len(),
        forall|k: int| 0 <= k < r.indices@.len() ==> r.indices@[k] == k,
        r.material_id == 0,
{
    let n_lines: usize = (2 * GRID_SIZE + 1) as usize;
    let neg_extent = crate::mesh::f_neg(extent);
    let up = Bits3 { x: F_ZERO, y: F_ONE, z: F_ZERO };
    let mut vertices: Vec<Vertex> = Vec::new();
    let mut k: usize = 0;
    while k < n_lines
        invariant
            k <= n_lines,
            n_lines == 2 * GRID_SIZE + 1,
            coords@.len() == 2 * GRID_SIZE + 1,
            neg_extent == extent ^ 0x8000_0000u32,
            up == (Bits3 { x: F_ZERO, y: F_ONE, z: F_ZERO }),
            vertices@ == spec_x_lines(coords@, extent, k as int),
            vertices@.len() == 2 * k,
        decreases n_lines - k,
    {
        let color = if k == GRID_SIZE as usize {
            Bits3 { x: F_ONE, y: F_ONE, z: F_ONE }
        } else {
            Bits3 { x: F_HALF, y: F_HALF, z: F_HALF }
        };
        let z = coords[k];
        vertices.push(
            Vertex {
                position: Bits3 { x: neg_extent, y: F_ZERO, z },
                normal: up,
                tex_coords: Bits2 { u: F_ZERO, v: F_ZERO },
                color,
            },
        );
        vertices.push(
            Vertex {
                position: Bits3 { x: extent, y: F_ZERO, z },
                normal: up,
                tex_coords: Bits2 { u: F_ONE, v: F_ZERO },
                color,
            },
        );
        proof {
            assert(vertices@ =~= spec_x_lines(coords@, extent, k as int) + spec_x_line(
                coords@,
                extent,
                k as int,
            ));
            assert(vertices@ =~= spec_x_lines(coords@, extent, k as int + 1));
        }
        k = k + 1;
    }
    let ghost x_part = vertices@;
    let mut k: usize = 0;
    while k < n_lines
        invariant
            k <= n_lines,
            n_lines == 2 * GRID_SIZE + 1,
            coords@.len() == 2 * GRID_SIZE + 1,
            neg_extent == extent ^ 0x8000_0000u32,
            up == (Bits3 { x: F_ZERO, y: F_ONE, z: F_ZERO }),
            x_part == spec_x_lines(coords@, extent, 2 * GRID_SIZE + 1),
            vertices@ == x_part + spec_z_lines(coords@, extent, k as int),
        decreases n_lines - k,
    {
        let color = if k == GRID_SIZE as usize {
            Bits3 { x: F_ONE, y: F_ONE, z: F_ONE }
        } else {
            Bits3 { x: F_HALF, y: F_HALF, z: F_HALF }
        };
        let x = coords[k];
        vertices.push(
            Vertex {
                position: Bits3 { x, y: F_ZERO, z: neg_extent },
                normal: up,
                tex_coords: Bits2 { u: F_ZERO, v: F_ZERO },
                color,
            },
        );
        vertices.push(
            Vertex {
                position: Bits3 { x, y: F_ZERO, z: extent },
                normal: up,
                tex_coords: Bits2 { u: F_ONE, v: F_ZERO },
                color,
            },
        );
        proof {
            assert(vertices@ =~= x_part + (spec_z_lines(coords@, extent, k as int) + spec_z_line(
                coords@,
                extent,
                k as int,
            )));
            assert(vertices@ =~= x_part + spec_z_lines(coords@, extent, k as int + 1));
        }
        k = k + 1;
    }
    push_axis(
        &mut vertices,
        Bits3 { x: axis_len, y: F_ZERO, z: F_ZERO },
        Bits3 { x: F_ONE, y: F_ZERO, z: F_ZERO },
    );
    push_axis(
        &mut vertices,
        Bits3 { x: F_ZERO, y: axis_len, z: F_ZERO },
        Bits3 { x: F_ZERO, y: F_ONE, z: F_ZERO },
    );
    push_axis(
        &mut vertices,
        Bits3 { x: F_ZERO, y: F_ZERO, z: axis_len },
        Bits3 { x: F_ZERO, y: F_ZERO, z: F_ONE },
    );
    proof {
        assert(vertices@ =~= spec_grid_vertices(coords@, extent, axis_len));
        lemma_lines_len(coords@, extent, 2 * GRID_SIZE + 1);
    }
    let n_vertices = vertices.len();
    let mut indices: Vec<u32> = Vec::new();
    let mut k: usize = 0;
    while k < n_vertices
        invariant
            k <= n_vertices,
            n_vertices == vertices@.len(),
            n_vertices == 4 * (2 * GRID_SIZE + 1) + 6,
            indices@.len() == k,
            forall|j: int| 0 <= j < k ==> indices@[j] == j,
        decreases n_vertices - k,
    {
        indices.push(k as u32);
        k = k + 1;
    }
    MeshData { vertices, indices, material_id: 0 }
}

/// The first `k` lines hold `2 k` vertices.
proof fn lemma_lines_len(coords: Seq<u32>, extent: u32, k: int)
    requires
        k >= 0,
    ensures
        spec_x_lines(coords, extent, k).len() == 2 * k,
        spec_z_lines(coords, extent, k).len() == 2 * k,
    decreases k,
{
    if k > 0 {
        lemma_lines_len(coords, extent, k - 1);
    }
}

/// Append one axis line of the gizmo.
fn push_axis(out: &mut Vec<Vertex>, tip: Bits3, color: Bits3)
    ensures
        final(out)@ == old(out)@ + spec_axis_line(tip, color),
{
    out.push(
        Vertex {
            position: Bits3 { x: F_ZERO, y: F_ZERO, z: F_ZERO },
            normal: color,
            tex_coords: Bits2 { u: F_ZERO, v: F_ZERO },
            color,
        },
    );
    out.push(
        Vertex {
            position: tip,
            normal: color,
            tex_coords: Bits2 { u: F_ONE, v: F_ZERO },
            color,
        },
    );
    proof {
        assert(out@ =~= old(out)@ + spec_axis_line(tip, color));
    }
}

/// The material instance of the debug grid: material 0, a white
/// flat-color texture, and a light buffer of its own.
pub fn debug_material() -> (r: MaterialInstance)
    ensures
        r.material_id == 0,
        r.texture matches TextureSource::FlatColor(c) && c == (Vec3 {
            x: crate::fixed::FX_ONE,
            y: crate::fixed::FX_ONE,
            z: crate::fixed::FX_ONE,
        }),
        r.light == LightBinding::DefaultLight,
{
    MaterialInstance {
        material_id: 0,
        texture: TextureSource::FlatColor(
            Vec3 { x: crate::fixed::FX_ONE, y: crate::fixed::FX_ONE, z: crate::fixed::FX_ONE },
        ),
        light: LightBinding::DefaultLight,
    }
}

} // verus!
