//! The mesh data model: vertices, raw mesh data, and GPU-ready meshes.
//!
//! Vertex attributes are 32-bit IEEE-754 float bit patterns, carried as
//! `u32`. The core never interprets them as numbers: it stores, arranges
//! and serializes them, and the GPU reads them as floats. The vertex layout
//! is fixed: position (3 floats), normal (3 floats), texture coordinates
//! (2 floats) and color (3 floats) — 11 floats, 44 bytes per vertex.

use vstd::prelude::*;
use vstd::bytes::spec_u32_to_le_bytes;
use vstd::bytes::u32_to_le_bytes;

verus! {

/// Bit pattern of the float `0.0`.
pub const F_ZERO: u32 = 0x0000_0000;

/// Bit pattern of the float `1.0`.
pub const F_ONE: u32 = 0x3F80_0000;

/// Bit pattern of the float `0.5`.
pub const F_HALF: u32 = 0x3F00_0000;

/// The sign bit of a 32-bit float.
pub const F_SIGN: u32 = 0x8000_0000;

/// Bytes per vertex: 11 attributes of 4 bytes each.
pub const VERTEX_STRIDE: usize = 44;

/// Negate a float bit pattern. IEEE-754 negation flips the sign bit and
/// nothing else, so this is exact for every input, zeros included.
pub fn f_neg(b: u32) -> (r: u32)
    ensures
        r == (b ^ F_SIGN),
{
    b ^ F_SIGN
}

/// Three float bit patterns: a position, a normal or a color.
#[derive(Clone, Copy, Debug, PartialEq, Eq, Structural)]
pub struct Bits3 {
    pub x: u32,
    pub y: u32,
    pub z: u32,
}

/// Two float bit patterns: a texture coordinate pair.
#[derive(Clone, Copy, Debug, PartialEq, Eq, Structural)]
pub struct Bits2 {
    pub u: u32,
    pub v: u32,
}

/// One vertex in the fixed 44-byte layout.
#[derive(Clone, Copy, Debug, PartialEq, Eq, Structural)]
pub struct Vertex {
    pub position: Bits3,
    pub normal: Bits3,
    pub tex_coords: Bits2,
    pub color: Bits3,
}

/// The 44 bytes of one vertex: its eleven attributes, little-endian, in
/// declaration order.
pub open spec fn spec_vertex_bytes(v: Vertex) -> Seq<u8> {
    spec_u32_to_le_bytes(v.position.x) + spec_u32_to_le_bytes(v.position.y)
        + spec_u32_to_le_bytes(v.position.z) + spec_u32_to_le_bytes(v.normal.x)
        + spec_u32_to_le_bytes(v.normal.y) + spec_u32_to_le_bytes(v.normal.z)
        + spec_u32_to_le_bytes(v.tex_coords.u) + spec_u32_to_le_bytes(v.tex_coords.v)
        + spec_u32_to_le_bytes(v.color.x) + spec_u32_to_le_bytes(v.color.y)
        + spec_u32_to_le_bytes(v.color.z)
}

/// The bytes of a whole vertex buffer: each vertex in order.
pub open spec fn spec_vertex_buffer_bytes(vs: Seq<Vertex>) -> Seq<u8>
    decreases vs.len(),
{
    if vs.len() == 0 {
        Seq::empty()
    } else {
        spec_vertex_bytes(vs.first()) + spec_vertex_buffer_bytes(vs.drop_first())
    }
}

/// The bytes of an index buffer: each `u32` index, little-endian, in order.
pub open spec fn spec_index_buffer_bytes(is: Seq<u32>) -> Seq<u8>
    decreases is.len(),
{
    if is.len() == 0 {
        Seq::empty()
    } else {
        spec_u32_to_le_bytes(is.first()) + spec_index_buffer_bytes(is.drop_first())
    }
}

fn push_word(out: &mut Vec<u8>, w: u32)
    ensures
        final(out)@ == old(out)@ + spec_u32_to_le_bytes(w),
{
    let mut bytes = u32_to_le_bytes(w);
    out.append(&mut bytes);
}

/// Serialize one vertex into its 44-byte wire form.
pub fn vertex_bytes(v: &Vertex) -> (r: Vec<u8>)
    ensures
        r@ == spec_vertex_bytes(*v),
        r@.len() == VERTEX_STRIDE,
{
    let mut out: Vec<u8> = Vec::new();
    push_word(&mut out, v.position.x);
    push_word(&mut out, v.position.y);
    push_word(&mut out, v.position.z);
    push_word(&mut out, v.normal.x);
    push_word(&mut out, v.normal.y);
    push_word(&mut out, v.normal.z);
    push_word(&mut out, v.tex_coords.u);
    push_word(&mut out, v.tex_coords.v);
    push_word(&mut out, v.color.x);
    push_word(&mut out, v.color.y);
    push_word(&mut out, v.color.z);
    proof {
        vstd::bytes::lemma_auto_spec_u32_to_from_le_bytes();
        assert(out@ =~= spec_vertex_bytes(*v));
    }
    out
}

proof fn lemma_vertex_buffer_bytes_push(vs: Seq<Vertex>, v: Vertex)
    ensures
        spec_vertex_buffer_bytes(vs.push(v)) == spec_vertex_buffer_bytes(vs)
            + spec_vertex_bytes(v),
    decreases vs.len(),
{
    if vs.len() == 0 {
        reveal_with_fuel(spec_vertex_buffer_bytes, 2);
        assert(vs.push(v).drop_first() =~= Seq::<Vertex>::empty());
        assert(vs.push(v).first() == v);
        assert(spec_vertex_buffer_bytes(vs.push(v)) =~= spec_vertex_bytes(v));
        assert(spec_vertex_buffer_bytes(vs) + spec_vertex_bytes(v) =~= spec_vertex_bytes(v));
    } else {
        assert(vs.push(v).drop_first() =~= vs.drop_first().push(v));
        lemma_vertex_buffer_bytes_push(vs.drop_first(), v);
        assert(spec_vertex_buffer_bytes(vs.push(v)) =~= spec_vertex_buffer_bytes(vs)
            + spec_vertex_bytes(v));
    }
}

proof fn lemma_index_buffer_bytes_push(is: Seq<u32>, w: u32)
    ensures
        spec_index_buffer_bytes(is.push(w)) == spec_index_buffer_bytes(is)
            + spec_u32_to_le_bytes(w),
    decreases is.len(),
{
    if is.len() == 0 {
        reveal_with_fuel(spec_index_buffer_bytes, 2);
        assert(is.push(w).drop_first() =~= Seq::<u32>::empty());
        assert(is.push(w).first() == w);
        assert(spec_index_buffer_bytes(is.push(w)) =~= spec_u32_to_le_bytes(w));
        assert(spec_index_buffer_bytes(is) + spec_u32_to_le_bytes(w) =~= spec_u32_to_le_bytes(w));
    } else {
        assert(is.push(w).drop_first() =~= is.drop_first().push(w));
        lemma_index_buffer_bytes_push(is.drop_first(), w);
        assert(spec_index_buffer_bytes(is.push(w)) =~= spec_index_buffer_bytes(is)
            + spec_u32_to_le_bytes(w));
    }
}

/// Serialize a vertex list into the bytes the GPU vertex buffer holds.
pub fn vertex_buffer_bytes(vs: &Vec<Vertex>) -> (r: Vec<u8>)
    ensures
        r@ == spec_vertex_buffer_bytes(vs@),
{
    let mut out: Vec<u8> = Vec::new();
    assert(vs@.take(0) =~= Seq::<Vertex>::empty());
    for i in 0..vs.len()
        invariant
            out@ == spec_vertex_buffer_bytes(vs@.take(i as int)),
    {
        let mut vb = vertex_bytes(&vs[i]);
        out.append(&mut vb);
        proof {
            assert(vs@.take(i + 1) =~= vs@.take(i as int).push(vs@[i as int]));
            lemma_vertex_buffer_bytes_push(vs@.take(i as int), vs@[i as int]);
        }
    }
    proof {
        assert(vs@.take(vs@.len() as int) =~= vs@);
    }
    out
}

/// Serialize an index list into the bytes the GPU index buffer holds.
pub fn index_buffer_bytes(is: &Vec<u32>) -> (r: Vec<u8>)
    ensures
        r@ == spec_index_buffer_bytes(is@),
{
    let mut out: Vec<u8> = Vec::new();
    assert(is@.take(0) =~= Seq::<u32>::empty());
    for i in 0..is.len()
        invariant
            out@ == spec_index_buffer_bytes(is@.take(i as int)),
    {
        push_word(&mut out, is[i]);
        proof {
            assert(is@.take(i + 1) =~= is@.take(i as int).push(is@[i as int]));
            lemma_index_buffer_bytes_push(is@.take(i as int), is@[i as int]);
        }
    }
    proof {
        assert(is@.take(is@.len() as int) =~= is@);
    }
    out
}

/// Bit pattern of the float `-1.0`.
pub const F_NEG_ONE: u32 = 0xBF80_0000;

/// The four vertices of a quad of half-extent `h` in the `z = 0` plane:
/// counter-clockwise from the lower-left corner, facing `+z`, white.
pub open spec fn spec_quad_vertices(h: u32) -> Seq<Vertex> {
    let n = h ^ F_SIGN;
    let front = Bits3 { x: F_ZERO, y: F_ZERO, z: F_ONE };
    let white = Bits3 { x: F_ONE, y: F_ONE, z: F_ONE };
    seq![
        Vertex {
            position: Bits3 { x: n, y: n, z: F_ZERO },
            normal: front,
            tex_coords: Bits2 { u: F_ZERO, v: F_ONE },
            color: white,
        },
        Vertex {
            position: Bits3 { x: h, y: n, z: F_ZERO },
            normal: front,
            tex_coords: Bits2 { u: F_ONE, v: F_ONE },
            color: white,
        },
        Vertex {
            position: Bits3 { x: h, y: h, z: F_ZERO },
            normal: front,
            tex_coords: Bits2 { u: F_ONE, v: F_ZERO },
            color: white,
        },
        Vertex {
            position: Bits3 { x: n, y: h, z: F_ZERO },
            normal: front,
            tex_coords: Bits2 { u: F_ZERO, v: F_ZERO },
            color: white,
        },
    ]
}

/// The two triangles of a quad.
pub open spec fn spec_quad_indices() -> Seq<u32> {
    seq![0u32, 1u32, 2u32, 0u32, 2u32, 3u32]
}

/// One face of a cube: four corners, one normal, one color, the standard
/// texture-coordinate winding.
pub open spec fn spec_face(p0: Bits3, p1: Bits3, p2: Bits3, p3: Bits3, normal: Bits3, color: Bits3) -> Seq<Vertex> {
    seq![
        Vertex { position: p0, normal: normal, tex_coords: Bits2 { u: F_ZERO, v: F_ONE }, color: color },
        Vertex { position: p1, normal: normal, tex_coords: Bits2 { u: F_ONE, v: F_ONE }, color: color },
        Vertex { position: p2, normal: normal, tex_coords: Bits2 { u: F_ONE, v: F_ZERO }, color: color },
        Vertex { position: p3, normal: normal, tex_coords: Bits2 { u: F_ZERO, v: F_ZERO }, color: color },
    ]
}

/// The 24 vertices of a cube of half-extent `h`: six faces of four corners
/// each, one face color per face, outward normals.
pub open spec fn spec_cube_vertices(h: u32) -> Seq<Vertex> {
    let n = h ^ F_SIGN;
    spec_face(
        Bits3 { x: n, y: n, z: h },
        Bits3 { x: h, y: n, z: h },
        Bits3 { x: h, y: h, z: h },
        Bits3 { x: n, y: h, z: h },
        Bits3 { x: F_ZERO, y: F_ZERO, z: F_ONE },
        Bits3 { x: F_ONE, y: F_ZERO, z: F_ZERO },
    ) + spec_face(
        Bits3 { x: h, y: n, z: n },
        Bits3 { x: n, y: n, z: n },
        Bits3 { x: n, y: h, z: n },
        Bits3 { x: h, y: h, z: n },
        Bits3 { x: F_ZERO, y: F_ZERO, z: F_NEG_ONE },
        Bits3 { x: F_ZERO, y: F_ONE, z: F_ZERO },
    ) + spec_face(
        Bits3 { x: n, y: h, z: h },
        Bits3 { x: h, y: h, z: h },
        Bits3 { x: h, y: h, z: n },
        Bits3 { x: n, y: h, z: n },
        Bits3 { x: F_ZERO, y: F_ONE, z: F_ZERO },
        Bits3 { x: F_ZERO, y: F_ZERO, z: F_ONE },
    ) + spec_face(
        Bits3 { x: n, y: n, z: n },
        Bits3 { x: h, y: n, z: n },
        Bits3 { x: h, y: n, z: h },
        Bits3 { x: n, y: n, z: h },
        Bits3 { x: F_ZERO, y: F_NEG_ONE, z: F_ZERO },
        Bits3 { x: F_ONE, y: F_ONE, z: F_ZERO },
    ) + spec_face(
        Bits3 { x: h, y: n, z: h },
        Bits3 { x: h, y: n, z: n },
        Bits3 { x: h, y: h, z: n },
        Bits3 { x: h, y: h, z: h },
        Bits3 { x: F_ONE, y: F_ZERO, z: F_ZERO },
        Bits3 { x: F_ONE, y: F_ZERO, z: F_ONE },
    ) + spec_face(
        Bits3 { x: n, y: n, z: n },
        Bits3 { x: n, y: n, z: h },
        Bits3 { x: n, y: h, z: h },
        Bits3 { x: n, y: h, z: n },
        Bits3 { x: F_NEG_ONE, y: F_ZERO, z: F_ZERO },
        Bits3 { x: F_ZERO, y: F_ONE, z: F_ONE },
    )
}

/// The 36 indices of a cube: two triangles per face.
pub open spec fn spec_cube_indices() -> Seq<u32> {
    seq![
        0u32, 1u32, 2u32, 0u32, 2u32, 3u32,
        4u32, 5u32, 6u32, 4u32, 6u32, 7u32,
        8u32, 9u32, 10u32, 8u32, 10u32, 11u32,
        12u32, 13u32, 14u32, 12u32, 14u32, 15u32,
        16u32, 17u32, 18u32, 16u32, 18u32, 19u32,
        20u32, 21u32, 22u32, 20u32, 22u32, 23u32,
    ]
}

impl Mesh {
    /// A quad mesh of half-extent `half_size` (the bit pattern of half the
    /// requested edge length), drawn with material 0.
    pub fn create_quad(half_size: u32) -> (r: Mesh)
        ensures
            r.wf(),
            r.vertices@ == spec_quad_vertices(half_size),
            r.indices@ == spec_quad_indices(),
            r.num_vertices == 4,
            r.num_indices == 6,
            r.material_id == 0,
    {
        let h = half_size;
        let n = f_neg(half_size);
        let front = Bits3 { x: F_ZERO, y: F_ZERO, z: F_ONE };
        let white = Bits3 { x: F_ONE, y: F_ONE, z: F_ONE };
        let mut vertices: Vec<Vertex> = Vec::new();
        vertices.push(
            Vertex {
                position: Bits3 { x: n, y: n, z: F_ZERO },
                normal: front,
                tex_coords: Bits2 { u: F_ZERO, v: F_ONE },
                color: white,
            },
        );
        vertices.push(
            Vertex {
                position: Bits3 { x: h, y: n, z: F_ZERO },
                normal: front,
                tex_coords: Bits2 { u: F_ONE, v: F_ONE },
                color: white,
            },
        );
        vertices.push(
            Vertex {
                position: Bits3 { x: h, y: h, z: F_ZERO },
                normal: front,
                tex_coords: Bits2 { u: F_ONE, v: F_ZERO },
                color: white,
            },
        );
        vertices.push(
            Vertex {
                position: Bits3 { x: n, y: h, z: F_ZERO },
                normal: front,
                tex_coords: Bits2 { u: F_ZERO, v: F_ZERO },
                color: white,
            },
        );
        let mut indices: Vec<u32> = Vec::new();
        indices.push(0);
        indices.push(1);
        indices.push(2);
        indices.push(0);
        indices.push(2);
        indices.push(3);
        proof {
            assert(vertices@ =~= spec_quad_vertices(half_size));
            assert(indices@ =~= spec_quad_indices());
        }
        Mesh { vertices, indices, num_vertices: 4, num_indices: 6, material_id: 0 }
    }

    /// A cube mesh of half-extent `half_size` (the bit pattern of half the
    /// requested edge length), drawn with material 0.
    pub fn create_cube(half_size: u32) -> (r: Mesh)
        ensures
            r.wf(),
            r.vertices@ == spec_cube_vertices(half_size),
            r.indices@ == spec_cube_indices(),
            r.num_vertices == 24,
            r.num_indices == 36,
            r.material_id == 0,
    {
        let h = half_size;
        let n = f_neg(half_size);
        let mut vertices: Vec<Vertex> = Vec::new();
        push_face(
            &mut vertices,
            Bits3 { x: n, y: n, z: h },
            Bits3 { x: h, y: n, z: h },
            Bits3 { x: h, y: h, z: h },
            Bits3 { x: n, y: h, z: h },
            Bits3 { x: F_ZERO, y: F_ZERO, z: F_ONE },
            Bits3 { x: F_ONE, y: F_ZERO, z: F_ZERO },
        );
        push_face(
            &mut vertices,
            Bits3 { x: h, y: n, z: n },
            Bits3 { x: n, y: n, z: n },
            Bits3 { x: n, y: h, z: n },
            Bits3 { x: h, y: h, z: n },
            Bits3 { x: F_ZERO, y: F_ZERO, z: F_NEG_ONE },
            Bits3 { x: F_ZERO, y: F_ONE, z: F_ZERO },
        );
        push_face(
            &mut vertices,
            Bits3 { x: n, y: h, z: h },
            Bits3 { x: h, y: h, z: h },
            Bits3 { x: h, y: h, z: n },
            Bits3 { x: n, y: h, z: n },
            Bits3 { x: F_ZERO, y: F_ONE, z: F_ZERO },
            Bits3 { x: F_ZERO, y: F_ZERO, z: F_ONE },
        );
        push_face(
            &mut vertices,
            Bits3 { x: n, y: n, z: n },
            Bits3 { x: h, y: n, z: n },
            Bits3 { x: h, y: n, z: h },
            Bits3 { x: n, y: n, z: h },
            Bits3 { x: F_ZERO, y: F_NEG_ONE, z: F_ZERO },
            Bits3 { x: F_ONE, y: F_ONE, z: F_ZERO },
        );
        push_face(
            &mut vertices,
            Bits3 { x: h, y: n, z: h },
            Bits3 { x: h, y: n, z: n },
            Bits3 { x: h, y: h, z: n },
            Bits3 { x: h, y: h, z: h },
            Bits3 { x: F_ONE, y: F_ZERO, z: F_ZERO },
            Bits3 { x: F_ONE, y: F_ZERO, z: F_ONE },
        );
        push_face(
            &mut vertices,
            Bits3 { x: n, y: n, z: n },
            Bits3 { x: n, y: n, z: h },
            Bits3 { x: n, y: h, z: h },
            Bits3 { x: n, y: h, z: n },
            Bits3 { x: F_NEG_ONE, y: F_ZERO, z: F_ZERO },
            Bits3 { x: F_ZERO, y: F_ONE, z: F_ONE },
        );
        let mut indices: Vec<u32> = Vec::new();
        push_face_indices(&mut indices, 0);
        push_face_indices(&mut indices, 4);
        push_face_indices(&mut indices, 8);
        push_face_indices(&mut indices, 12);
        push_face_indices(&mut indices, 16);
        push_face_indices(&mut indices, 20);
        proof {
            assert(vertices@ =~= spec_cube_vertices(half_size));
            assert(indices@ =~= spec_cube_indices());
        }
        Mesh { vertices, indices, num_vertices: 24, num_indices: 36, material_id: 0 }
    }
}

/// Append the four corners of one cube face.
fn push_face(out: &mut Vec<Vertex>, p0: Bits3, p1: Bits3, p2: Bits3, p3: Bits3, normal: Bits3, color: Bits3)
    ensures
        final(out)@ == old(out)@ + spec_face(p0, p1, p2, p3, normal, color),
{
    out.push(
        Vertex { position: p0, normal: normal, tex_coords: Bits2 { u: F_ZERO, v: F_ONE }, color: color },
    );
    out.push(
        Vertex { position: p1, normal: normal, tex_coords: Bits2 { u: F_ONE, v: F_ONE }, color: color },
    );
    out.push(
        Vertex { position: p2, normal: normal, tex_coords: Bits2 { u: F_ONE, v: F_ZERO }, color: color },
    );
    out.push(
        Vertex { position: p3, normal: normal, tex_coords: Bits2 { u: F_ZERO, v: F_ZERO }, color: color },
    );
    proof {
        assert(out@ =~= old(out)@ + spec_face(p0, p1, p2, p3, normal, color));
    }
}

/// Append the six indices of one face: two triangles over corners
/// `base .. base + 3`.
fn push_face_indices(out: &mut Vec<u32>, base: u32)
    requires
        base <= 20,
    ensures
        final(out)@ == old(out)@ + seq![base, (base + 1) as u32, (base + 2) as u32, base, (base + 2) as u32, (base + 3) as u32],
{
    out.push(base);
    out.push(base + 1);
    out.push(base + 2);
    out.push(base);
    out.push(base + 2);
    out.push(base + 3);
    proof {
        assert(out@ =~= old(out)@ + seq![
            base,
            (base + 1) as u32,
            (base + 2) as u32,
            base,
            (base + 2) as u32,
            (base + 3) as u32,
        ]);
    }
}

/// Raw mesh data before GPU buffers exist.
#[derive(Clone, Debug)]
pub struct MeshData {
    pub vertices: Vec<Vertex>,
    pub indices: Vec<u32>,
    pub material_id: usize,
}

/// A mesh as the renderer sees it: the buffer contents, the counts the
/// draw call needs, and the material it draws with.
#[derive(Clone, Debug)]
pub struct Mesh {
    pub vertices: Vec<Vertex>,
    pub indices: Vec<u32>,
    pub num_vertices: u32,
    pub num_indices: u32,
    pub material_id: usize,
}

impl Mesh {
    /// The counts agree with the stored data.
    pub open spec fn wf(&self) -> bool {
        self.num_vertices == self.vertices@.len() && self.num_indices == self.indices@.len()
    }

    /// Build a mesh from raw mesh data, recording the vertex and index
    /// counts for the draw call.
    pub fn new(mesh_data: &MeshData) -> (r: Mesh)
        requires
            mesh_data.vertices@.len() <= u32::MAX,
            mesh_data.indices@.len() <= u32::MAX,
        ensures
            r.wf(),
            r.vertices@ == mesh_data.vertices@,
            r.indices@ == mesh_data.indices@,
            r.num_vertices == mesh_data.vertices@.len(),
            r.num_indices == mesh_data.indices@.len(),
            r.material_id == mesh_data.material_id,
    {
        let mut vertices: Vec<Vertex> = Vec::new();
        let mut indices: Vec<u32> = Vec::new();
        assert(mesh_data.vertices@.take(0) =~= Seq::<Vertex>::empty());
        assert(mesh_data.indices@.take(0) =~= Seq::<u32>::empty());
        for i in 0..mesh_data.vertices.len()
            invariant
                vertices@ == mesh_data.vertices@.take(i as int),
        {
            vertices.push(mesh_data.vertices[i]);
            proof {
                assert(mesh_data.vertices@.take(i + 1)
                    =~= mesh_data.vertices@.take(i as int).push(mesh_data.vertices@[i as int]));
            }
        }
        for i in 0..mesh_data.indices.len()
            invariant
                indices@ == mesh_data.indices@.take(i as int),
        {
            indices.push(mesh_data.indices[i]);
            proof {
                assert(mesh_data.indices@.take(i + 1)
                    =~= mesh_data.indices@.take(i as int).push(mesh_data.indices@[i as int]));
            }
        }
        proof {
            assert(mesh_data.vertices@.take(mesh_data.vertices@.len() as int)
                =~= mesh_data.vertices@);
            assert(mesh_data.indices@.take(mesh_data.indices@.len() as int)
                =~= mesh_data.indices@);
        }
        let num_vertices = vertices.len() as u32;
        let num_indices = indices.len() as u32;
        Mesh {
            vertices,
            indices,
            num_vertices,
            num_indices,
            material_id: mesh_data.material_id,
        }
    }
}

} // verus!

verus! {

/// The six indices of one sphere quad: the two triangles between one ring
/// and the next at a given segment, over vertex rows of `segments + 1`
/// entries.
pub open spec fn spec_sphere_quad(segments: int, ring: int, seg: int) -> Seq<u32> {
    let first = ring * (segments + 1) + seg;
    let second = first + segments + 1;
    seq![
        first as u32,
        second as u32,
        (first + 1) as u32,
        second as u32,
        (second + 1) as u32,
        (first + 1) as u32,
    ]
}

/// The first `seg` quads of one ring, in segment order.
pub open spec fn spec_sphere_row(segments: int, ring: int, seg: int) -> Seq<u32>
    decreases seg,
{
    if seg <= 0 {
        Seq::empty()
    } else {
        spec_sphere_row(segments, ring, seg - 1) + spec_sphere_quad(segments, ring, seg - 1)
    }
}

/// The full rows of the first `ring` rings, in ring order.
pub open spec fn spec_sphere_rings(segments: int, ring: int) -> Seq<u32>
    decreases ring,
{
    if ring <= 0 {
        Seq::empty()
    } else {
        spec_sphere_rings(segments, ring - 1) + spec_sphere_row(segments, ring - 1, segments)
    }
}

/// The index topology of a sphere of `rings` by `segments` quads over a
/// vertex grid of `(rings + 1) * (segments + 1)` ring-major vertices: for
/// every ring and segment, the two triangles of that quad. The vertex
/// positions themselves are trigonometry over the grid and come from the
/// collaborator that owns the float math.
pub fn sphere_indices(segments: u32, rings: u32) -> (r: Vec<u32>)
    requires
        (rings as int + 1) * (segments as int + 1) <= u32::MAX,
    ensures
        r@ == spec_sphere_rings(segments as int, rings as int),
{
    let mut indices: Vec<u32> = Vec::new();
    let mut ring: u32 = 0;
    while ring < rings
        invariant
            ring <= rings,
            (rings as int + 1) * (segments as int + 1) <= u32::MAX,
            indices@ == spec_sphere_rings(segments as int, ring as int),
        decreases rings - ring,
    {
        let mut seg: u32 = 0;
        while seg < segments
            invariant
                seg <= segments,
                ring < rings,
                (rings as int + 1) * (segments as int + 1) <= u32::MAX,
                indices@ == spec_sphere_rings(segments as int, ring as int) + spec_sphere_row(
                    segments as int,
                    ring as int,
                    seg as int,
                ),
            decreases segments - seg,
        {
            proof {
                assert((ring as int) * (segments as int + 1) + seg as int + (segments as int + 1)
                    + 1 < (rings as int + 1) * (segments as int + 1)) by (nonlinear_arith)
                    requires
                        0 <= (ring as int) < (rings as int),
                        0 <= (seg as int) < (segments as int),
                ;
            }
            let first: u32 = (((ring as u64) * (segments as u64 + 1)) + seg as u64) as u32;
            let second: u32 = first + segments + 1;
            indices.push(first);
            indices.push(second);
            indices.push(first + 1);
            indices.push(second);
            indices.push(second + 1);
            indices.push(first + 1);
            proof {
                assert(indices@ =~= spec_sphere_rings(segments as int, ring as int)
                    + spec_sphere_row(segments as int, ring as int, seg as int)
                    + spec_sphere_quad(segments as int, ring as int, seg as int));
                assert(indices@ =~= spec_sphere_rings(segments as int, ring as int)
                    + spec_sphere_row(segments as int, ring as int, seg as int + 1));
            }
            seg = seg + 1;
        }
        proof {
            assert(indices@ =~= spec_sphere_rings(segments as int, ring as int + 1));
        }
        ring = ring + 1;
    }
    indices
}

} // verus!
