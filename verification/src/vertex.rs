//! Vertex data: layout descriptors, interleaving, and serialization.
//!
//! A lit vertex is position (3 scalars), texture coordinates (2) and normal
//! (3), each scalar a 32-bit float carried here as its bit-pattern word.
//! The module assembles vertices from the flat position/texcoord/normal
//! arrays an asset loader produces, serializes vertex and index arrays to
//! the exact bytes the GPU buffers hold, and states the buffer layout
//! (stride and attribute offsets) that the pipelines declare.

use vstd::prelude::*;
use crate::bytes::{words_le_bytes, words_to_bytes};
use crate::model::{quad_indices, spec_quad_index};

verus! {

/// Byte stride of one vertex: eight 32-bit scalars.
pub const VERTEX_BYTE_STRIDE: u32 = 32;

/// Quads of the light-marker cube: one per cube face.
pub const CUBE_QUAD_COUNT: usize = 6;

/// A vertex, each scalar as its 32-bit float bit pattern.
#[derive(Clone, Copy, PartialEq, Eq, Debug)]
pub struct Vertex {
    pub pos: [u32; 3],
    pub tex_cords: [u32; 2],
    pub normals: [u32; 3],
}

/// The eight words of one vertex, in buffer order.
pub open spec fn spec_vertex_words(v: Vertex) -> Seq<u32> {
    seq![
        v.pos@[0],
        v.pos@[1],
        v.pos@[2],
        v.tex_cords@[0],
        v.tex_cords@[1],
        v.normals@[0],
        v.normals@[1],
        v.normals@[2],
    ]
}

/// The words of a vertex list, vertex by vertex.
pub open spec fn spec_vertices_words(vs: Seq<Vertex>) -> Seq<u32>
    decreases vs.len(),
{
    if vs.len() == 0 {
        Seq::empty()
    } else {
        spec_vertices_words(vs.drop_last()) + spec_vertex_words(vs.last())
    }
}

/// Eight words per vertex.
pub proof fn lemma_vertices_words_len(vs: Seq<Vertex>)
    ensures
        spec_vertices_words(vs).len() == 8 * vs.len(),
    decreases vs.len(),
{
    if vs.len() > 0 {
        lemma_vertices_words_len(vs.drop_last());
    }
}

/// How a vertex buffer steps while drawing.
#[derive(Clone, Copy, PartialEq, Eq, Structural, Debug)]
pub enum StepMode {
    PerVertex,
    PerInstance,
}

/// One attribute of a vertex buffer layout: where it sits in the stride
/// and which shader location reads it.
#[derive(Clone, Copy, PartialEq, Eq, Structural, Debug)]
pub struct VertexAttribute {
    pub shader_location: u32,
    pub offset: u32,
    /// Byte size of the attribute's format.
    pub size: u32,
}

/// A vertex buffer layout: stride, step mode, and attributes.
pub struct VertexBufferLayoutDesc {
    pub array_stride: u32,
    pub step_mode: StepMode,
    pub attributes: Vec<VertexAttribute>,
}

impl VertexBufferLayoutDesc {
    /// The attributes tile the stride exactly: the first starts at zero,
    /// each next one starts where the previous ended, and the last ends at
    /// the stride.
    pub open spec fn tiles_stride(self) -> bool {
        &&& self.attributes@.len() > 0
        &&& self.attributes@[0].offset == 0
        &&& forall|i: int|
            0 < i < self.attributes@.len() ==> (#[trigger] self.attributes@[i]).offset
                == self.attributes@[i - 1].offset + self.attributes@[i - 1].size
        &&& self.attributes@.last().offset + self.attributes@.last().size == self.array_stride
    }
}

impl Vertex {
    /// The layout of a vertex buffer: 32-byte stride, position at offset 0
    /// (location 0), texture coordinates at 12 (location 1), normal at 20
    /// (location 2).
    pub fn desc() -> (r: VertexBufferLayoutDesc)
        ensures
            r.array_stride == VERTEX_BYTE_STRIDE,
            r.step_mode == StepMode::PerVertex,
            r.attributes@ =~= seq![
                VertexAttribute { shader_location: 0, offset: 0, size: 12 },
                VertexAttribute { shader_location: 1, offset: 12, size: 8 },
                VertexAttribute { shader_location: 2, offset: 20, size: 12 },
            ],
            r.tiles_stride(),
    {
        let mut attributes: Vec<VertexAttribute> = Vec::new();
        attributes.push(VertexAttribute { shader_location: 0, offset: 0, size: 12 });
        attributes.push(VertexAttribute { shader_location: 1, offset: 12, size: 8 });
        attributes.push(VertexAttribute { shader_location: 2, offset: 20, size: 12 });
        VertexBufferLayoutDesc { array_stride: VERTEX_BYTE_STRIDE, step_mode: StepMode::PerVertex, attributes }
    }

    /// Serializes a vertex list and an index list to the exact bytes of
    /// the two GPU buffers: 32 bytes per vertex and 4 bytes per index,
    /// little-endian.
    pub fn make_buffers(vertices: &Vec<Vertex>, indices: &Vec<u32>) -> (r: (Vec<u8>, Vec<u8>))
        ensures
            r.0@ == words_le_bytes(spec_vertices_words(vertices@)),
            r.0@.len() == 32 * vertices@.len(),
            r.1@ == words_le_bytes(indices@),
            r.1@.len() == 4 * indices@.len(),
    {
        let mut words: Vec<u32> = Vec::new();
        let mut i: usize = 0;
        while i < vertices.len()
            invariant
                i <= vertices@.len(),
                words@ == spec_vertices_words(vertices@.take(i as int)),
            decreases vertices@.len() - i,
        {
            let v = vertices[i];
            words.push(v.pos[0]);
            words.push(v.pos[1]);
            words.push(v.pos[2]);
            words.push(v.tex_cords[0]);
            words.push(v.tex_cords[1]);
            words.push(v.normals[0]);
            words.push(v.normals[1]);
            words.push(v.normals[2]);
            proof {
                assert(vertices@.take(i + 1 as int).drop_last() =~= vertices@.take(i as int));
                assert(vertices@.take(i + 1 as int).last() == vertices@[i as int]);
                assert(words@ =~= spec_vertices_words(vertices@.take(i as int))
                    + spec_vertex_words(vertices@[i as int]));
            }
            i = i + 1;
        }
        proof {
            assert(vertices@.take(vertices@.len() as int) =~= vertices@);
            lemma_vertices_words_len(vertices@);
        }
        let vertex_bytes = words_to_bytes(&words);
        let index_bytes = words_to_bytes(indices);
        (vertex_bytes, index_bytes)
    }
}

/// A vertex built from flat arrays at slot `i`: positions and normals are
/// three-scalar runs, texture coordinates two-scalar runs.
pub open spec fn spec_assembled_vertex(
    positions: Seq<u32>,
    texcoords: Seq<u32>,
    normals: Seq<u32>,
    i: int,
) -> Vertex {
    Vertex {
        pos: [positions[3 * i], positions[3 * i + 1], positions[3 * i + 2]],
        tex_cords: [texcoords[2 * i], texcoords[2 * i + 1]],
        normals: [normals[3 * i], normals[3 * i + 1], normals[3 * i + 2]],
    }
}

/// Interleaves the flat position, texture-coordinate and normal arrays of
/// a loaded mesh into a vertex list: vertex `i` takes positions
/// `3i..3i+3`, texture coordinates `2i..2i+2`, and normals `3i..3i+3`.
pub fn assemble_vertices(positions: &Vec<u32>, texcoords: &Vec<u32>, normals: &Vec<u32>) -> (r: Vec<
    Vertex,
>)
    requires
        positions@.len() % 3 == 0,
        texcoords@.len() * 3 == positions@.len() * 2,
        normals@.len() == positions@.len(),
    ensures
        r@.len() * 3 == positions@.len(),
        forall|i: int| 0 <= i < r@.len() ==> r@[i] == spec_assembled_vertex(
            positions@,
            texcoords@,
            normals@,
            i,
        ),
{
    let n = positions.len() / 3;
    proof {
        vstd::arithmetic::div_mod::lemma_fundamental_div_mod(positions@.len() as int, 3);
    }
    let mut out: Vec<Vertex> = Vec::new();
    let mut i: usize = 0;
    while i < n
        invariant
            i <= n,
            n * 3 == positions@.len(),
            positions@.len() <= usize::MAX,
            texcoords@.len() == 2 * n,
            normals@.len() == 3 * n,
            out@.len() == i,
            forall|k: int| 0 <= k < i ==> out@[k] == spec_assembled_vertex(
                positions@,
                texcoords@,
                normals@,
                k,
            ),
        decreases n - i,
    {
        let v = Vertex {
            pos: [positions[3 * i], positions[3 * i + 1], positions[3 * i + 2]],
            tex_cords: [texcoords[2 * i], texcoords[2 * i + 1]],
            normals: [normals[3 * i], normals[3 * i + 1], normals[3 * i + 2]],
        };
        out.push(v);
        i = i + 1;
    }
    out
}

/// The index list of the light-marker cube: six quads, four vertices each.
pub fn cube_indices() -> (r: Vec<u32>)
    ensures
        r@.len() == 36,
        forall|k: int| 0 <= k < r@.len() ==> r@[k] == spec_quad_index(k),
        forall|k: int| 0 <= k < r@.len() ==> r@[k] < 24,
{
    quad_indices(CUBE_QUAD_COUNT)
}

} // verus!
