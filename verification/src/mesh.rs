//! The mesh model: vertex positions, per-vertex colors and triangle indices,
//! together with the exact byte layout in which a frame uploads them.
//!
//! Positions and colors are sequences of IEEE-754 bit patterns (`u32` per
//! 32-bit float component).  The GPU buffers receive the same bits, so the
//! byte payloads below are computed and specified exactly, little-endian as
//! WebAssembly's typed-array views lay floats out in memory.

use vstd::bytes::{spec_u16_to_le_bytes, spec_u32_to_le_bytes, u16_to_le_bytes, u32_to_le_bytes};
use vstd::prelude::*;

verus! {

/// Why a mesh was rejected.
#[derive(Clone, Copy, Debug, PartialEq, Eq, Structural)]
pub enum MeshError {
    /// The color sequence length differs from the vertex sequence length.
    ColorCountMismatch,
    /// A triangle refers to a vertex index at or past the vertex count.
    IndexOutOfBounds,
}

/// The flattened index list of a triangle sequence: the three corners of each
/// triangle in order, one `u16` per corner.
pub open spec fn flat_indices(triangles: Seq<[u16; 3]>) -> Seq<u16> {
    Seq::new(triangles.len() * 3, |k: int| triangles[k / 3]@[k % 3])
}

/// The flattened component stream of a position sequence.
pub open spec fn flat_vec3(vs: Seq<[u32; 3]>) -> Seq<u32> {
    Seq::new(vs.len() * 3, |k: int| vs[k / 3]@[k % 3])
}

/// The flattened component stream of a color sequence.
pub open spec fn flat_vec4(cs: Seq<[u32; 4]>) -> Seq<u32> {
    Seq::new(cs.len() * 4, |k: int| cs[k / 4]@[k % 4])
}

/// The little-endian byte stream of a `u32` sequence.
pub open spec fn le_bytes_of_words(ws: Seq<u32>) -> Seq<u8> {
    Seq::new(ws.len() * 4, |b: int| spec_u32_to_le_bytes(ws[b / 4])[b % 4])
}

/// The little-endian byte stream of a `u16` sequence.
pub open spec fn le_bytes_of_shorts(ss: Seq<u16>) -> Seq<u8> {
    Seq::new(ss.len() * 2, |b: int| spec_u16_to_le_bytes(ss[b / 2])[b % 2])
}

/// The exact bytes a frame uploads for the position attribute.
pub open spec fn vertex_bytes(vs: Seq<[u32; 3]>) -> Seq<u8> {
    le_bytes_of_words(flat_vec3(vs))
}

/// The exact bytes a frame uploads for the color attribute.
pub open spec fn color_bytes(cs: Seq<[u32; 4]>) -> Seq<u8> {
    le_bytes_of_words(flat_vec4(cs))
}

/// The exact bytes a frame uploads for the element (index) buffer.
pub open spec fn index_bytes(is: Seq<u16>) -> Seq<u8> {
    le_bytes_of_shorts(is)
}

/// All three corners of the triangle name a vertex below `n`.
pub open spec fn triangle_in_bounds(t: [u16; 3], n: int) -> bool {
    (t@[0] as int) < n && (t@[1] as int) < n && (t@[2] as int) < n
}

/// Every triangle names only vertices below `n`.
pub open spec fn triangles_in_bounds(ts: Seq<[u16; 3]>, n: int) -> bool {
    forall|i: int| 0 <= i < ts.len() ==> triangle_in_bounds(ts[i], n)
}

/// What `MeshData::try_new` accepts: one color per vertex, and every triangle
/// index inside the vertex sequence.
pub open spec fn mesh_input_valid(
    vertices: Seq<[u32; 3]>,
    colors: Seq<[u32; 4]>,
    triangles: Seq<[u16; 3]>,
) -> bool {
    &&& colors.len() == vertices.len()
    &&& triangles_in_bounds(triangles, vertices.len() as int)
}

/// Bounded triangles flatten to a bounded index list.
pub proof fn lemma_flat_indices_bounds(ts: Seq<[u16; 3]>, n: int)
    requires
        triangles_in_bounds(ts, n),
    ensures
        forall|k: int|
            0 <= k < flat_indices(ts).len() ==> (#[trigger] flat_indices(ts)[k] as int) < n,
{
    assert forall|k: int|
        0 <= k < flat_indices(ts).len() implies (#[trigger] flat_indices(ts)[k] as int) < n by {
        let i = k / 3;
        let j = k % 3;
        assert(0 <= i < ts.len());
        assert(triangle_in_bounds(ts[i], n));
        assert(j == 0 || j == 1 || j == 2);
    }
}

/// A mesh as the renderer caches it: positions and colors as bit patterns,
/// indices already flattened.  Values of this type are only built by
/// [`MeshData::try_new`] and [`MeshData::empty`], so they always satisfy
/// [`MeshData::wf`].
pub struct MeshData {
    vertex_data: Vec<[u32; 3]>,
    color_data: Vec<[u32; 4]>,
    ibo_data: Vec<u16>,
}

impl MeshData {
    /// The cached vertex positions, one `[u32; 3]` of coordinate bit patterns each.
    pub closed spec fn vertices(self) -> Seq<[u32; 3]> {
        self.vertex_data@
    }

    /// The cached vertex colors, one `[u32; 4]` of channel bit patterns each.
    pub closed spec fn colors(self) -> Seq<[u32; 4]> {
        self.color_data@
    }

    /// The cached flattened triangle indices.
    pub closed spec fn indices(self) -> Seq<u16> {
        self.ibo_data@
    }

    /// The invariant of a cached mesh: one color per vertex, every index in
    /// bounds, and an index count a draw call can carry in an `i32`.
    pub open spec fn wf(self) -> bool {
        &&& self.colors().len() == self.vertices().len()
        &&& forall|k: int|
            0 <= k < self.indices().len() ==> (#[trigger] self.indices()[k] as int)
                < self.vertices().len()
        &&& self.indices().len() <= 0x7FFF_FFFF
    }

    /// The empty mesh: no vertices, no colors, no triangles.  Drawing it is a
    /// legal no-op draw of zero indices.
    pub fn empty() -> (m: MeshData)
        ensures
            m.vertices().len() == 0,
            m.colors().len() == 0,
            m.indices().len() == 0,
            m.wf(),
    {
        MeshData { vertex_data: Vec::new(), color_data: Vec::new(), ibo_data: Vec::new() }
    }

    /// Validates and caches a mesh.  Rejection is this library's policy for
    /// inconsistent input: a mesh with a color count different from the vertex
    /// count, or with a triangle index at or past the vertex count, is refused
    /// and never reaches the GPU.
    pub fn try_new(
        vertex_data: Vec<[u32; 3]>,
        color_data: Vec<[u32; 4]>,
        ibo_data: &[[u16; 3]],
    ) -> (r: Result<MeshData, MeshError>)
        requires
            ibo_data@.len() * 3 <= 0x7FFF_FFFF,
        ensures
            r is Ok <==> mesh_input_valid(vertex_data@, color_data@, ibo_data@),
            r == Err::<MeshData, MeshError>(MeshError::ColorCountMismatch) <==> color_data@.len()
                != vertex_data@.len(),
            r == Err::<MeshData, MeshError>(MeshError::IndexOutOfBounds) <==> (color_data@.len()
                == vertex_data@.len() && !triangles_in_bounds(
                ibo_data@,
                vertex_data@.len() as int,
            )),
            r matches Ok(m) ==> {
                &&& m.vertices() == vertex_data@
                &&& m.colors() == color_data@
                &&& m.indices() == flat_indices(ibo_data@)
                &&& m.wf()
            },
    {
        if color_data.len() != vertex_data.len() {
            return Err(MeshError::ColorCountMismatch);
        }
        if !triangles_all_in_bounds(ibo_data, vertex_data.len()) {
            return Err(MeshError::IndexOutOfBounds);
        }
        let ibo = flatten_triangles(ibo_data);
        proof {
            lemma_flat_indices_bounds(ibo_data@, vertex_data@.len() as int);
        }
        Ok(MeshData { vertex_data, color_data, ibo_data: ibo })
    }

    /// How many vertices the mesh holds.
    pub fn vertex_count(&self) -> (n: usize)
        ensures
            n == self.vertices().len(),
    {
        self.vertex_data.len()
    }

    /// How many indices one draw call of this mesh covers: three per triangle.
    pub fn index_count(&self) -> (n: usize)
        ensures
            n == self.indices().len(),
    {
        self.ibo_data.len()
    }

    /// The flattened triangle indices as cached.
    pub fn index_data(&self) -> (r: &Vec<u16>)
        ensures
            r@ == self.indices(),
    {
        &self.ibo_data
    }

    /// The exact position-attribute payload of a frame.
    pub fn vertex_buffer_bytes(&self) -> (r: Vec<u8>)
        ensures
            r@ == vertex_bytes(self.vertices()),
    {
        let flat = flatten_vec3(&self.vertex_data);
        words_to_le_bytes(&flat)
    }

    /// The exact color-attribute payload of a frame.
    pub fn color_buffer_bytes(&self) -> (r: Vec<u8>)
        ensures
            r@ == color_bytes(self.colors()),
    {
        let flat = flatten_vec4(&self.color_data);
        words_to_le_bytes(&flat)
    }

    /// The exact element-buffer payload of a frame.
    pub fn index_buffer_bytes(&self) -> (r: Vec<u8>)
        ensures
            r@ == index_bytes(self.indices()),
    {
        shorts_to_le_bytes(&self.ibo_data)
    }
}

/// Checks every triangle against the vertex count.
pub fn triangles_all_in_bounds(triangles: &[[u16; 3]], vertex_count: usize) -> (ok: bool)
    ensures
        ok <==> triangles_in_bounds(triangles@, vertex_count as int),
{
    let n = triangles.len();
    for i in 0..n
        invariant
            n == triangles@.len(),
            forall|t: int| 0 <= t < i ==> triangle_in_bounds(#[trigger] triangles@[t], vertex_count as int),
    {
        let tri = triangles[i];
        if (tri[0] as usize) >= vertex_count || (tri[1] as usize) >= vertex_count || (tri[2]
            as usize) >= vertex_count {
            return false;
        }
    }
    true
}

/// Flattens a triangle list into the index stream of the element buffer.
pub fn flatten_triangles(triangles: &[[u16; 3]]) -> (r: Vec<u16>)
    ensures
        r@ == flat_indices(triangles@),
{
    let n = triangles.len();
    let mut r: Vec<u16> = Vec::new();
    for i in 0..n
        invariant
            n == triangles@.len(),
            r@.len() == 3 * i,
            forall|k: int| 0 <= k < 3 * i ==> r@[k] == #[trigger] flat_indices(triangles@)[k],
    {
        let tri = triangles[i];
        r.push(tri[0]);
        r.push(tri[1]);
        r.push(tri[2]);
        proof {
            assert forall|k: int| 3 * i <= k < 3 * (i + 1) implies r@[k] == #[trigger] flat_indices(
                triangles@,
            )[k] by {
                assert(k / 3 == i as int && (k % 3 == k - 3 * i));
            }
        }
    }
    assert(r@ =~= flat_indices(triangles@));
    r
}

/// Flattens a position list into its component stream.
pub fn flatten_vec3(vs: &Vec<[u32; 3]>) -> (r: Vec<u32>)
    ensures
        r@ == flat_vec3(vs@),
{
    let n = vs.len();
    let mut r: Vec<u32> = Vec::new();
    for i in 0..n
        invariant
            n == vs@.len(),
            r@.len() == 3 * i,
            forall|k: int| 0 <= k < 3 * i ==> r@[k] == #[trigger] flat_vec3(vs@)[k],
    {
        let v = vs[i];
        r.push(v[0]);
        r.push(v[1]);
        r.push(v[2]);
        proof {
            assert forall|k: int| 3 * i <= k < 3 * (i + 1) implies r@[k] == #[trigger] flat_vec3(
                vs@,
            )[k] by {
                assert(k / 3 == i as int && (k % 3 == k - 3 * i));
            }
        }
    }
    assert(r@ =~= flat_vec3(vs@));
    r
}

/// Flattens a color list into its component stream.
pub fn flatten_vec4(cs: &Vec<[u32; 4]>) -> (r: Vec<u32>)
    ensures
        r@ == flat_vec4(cs@),
{
    let n = cs.len();
    let mut r: Vec<u32> = Vec::new();
    for i in 0..n
        invariant
            n == cs@.len(),
            r@.len() == 4 * i,
            forall|k: int| 0 <= k < 4 * i ==> r@[k] == #[trigger] flat_vec4(cs@)[k],
    {
        let c = cs[i];
        r.push(c[0]);
        r.push(c[1]);
        r.push(c[2]);
        r.push(c[3]);
        proof {
            assert forall|k: int| 4 * i <= k < 4 * (i + 1) implies r@[k] == #[trigger] flat_vec4(
                cs@,
            )[k] by {
                assert(k / 4 == i as int && (k % 4 == k - 4 * i));
            }
        }
    }
    assert(r@ =~= flat_vec4(cs@));
    r
}

/// Serializes a word stream into little-endian bytes.
pub fn words_to_le_bytes(ws: &Vec<u32>) -> (r: Vec<u8>)
    ensures
        r@ == le_bytes_of_words(ws@),
{
    let n = ws.len();
    let mut r: Vec<u8> = Vec::new();
    for i in 0..n
        invariant
            n == ws@.len(),
            r@.len() == 4 * i,
            forall|b: int| 0 <= b < 4 * i ==> r@[b] == #[trigger] le_bytes_of_words(ws@)[b],
    {
        let mut bytes = u32_to_le_bytes(ws[i]);
        r.append(&mut bytes);
        proof {
            assert forall|b: int| 4 * i <= b < 4 * (i + 1) implies r@[b]
                == #[trigger] le_bytes_of_words(ws@)[b] by {
                assert(b / 4 == i as int && (b % 4 == b - 4 * i));
            }
        }
    }
    assert(r@ =~= le_bytes_of_words(ws@));
    r
}

/// Serializes a short stream into little-endian bytes.
pub fn shorts_to_le_bytes(ss: &Vec<u16>) -> (r: Vec<u8>)
    ensures
        r@ == le_bytes_of_shorts(ss@),
{
    let n = ss.len();
    let mut r: Vec<u8> = Vec::new();
    for i in 0..n
        invariant
            n == ss@.len(),
            r@.len() == 2 * i,
            forall|b: int| 0 <= b < 2 * i ==> r@[b] == #[trigger] le_bytes_of_shorts(ss@)[b],
    {
        let mut bytes = u16_to_le_bytes(ss[i]);
        r.append(&mut bytes);
        proof {
            assert forall|b: int| 2 * i <= b < 2 * (i + 1) implies r@[b]
                == #[trigger] le_bytes_of_shorts(ss@)[b] by {
                assert(b / 2 == i as int && (b % 2 == b - 2 * i));
            }
        }
    }
    assert(r@ =~= le_bytes_of_shorts(ss@));
    r
}

} // verus!
