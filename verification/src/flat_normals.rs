//! Flat normals: the GPU computation's output buffer and uniform block, and
//! the walk over a mesh's faces that decides which faces get a computed
//! normal and where their vertex indices start.

use vstd::prelude::*;
use crate::hd_types::HdType;

verus! {

/// Name and element type of a computed buffer.
#[derive(Debug, Clone, PartialEq, Eq)]
pub struct HdBufferSpec {
    pub name: String,
    pub data_type: HdType,
}

/// Uniform block of the flat-normals compute shader: offsets and strides
/// into the points, normals, index and primitive-parameter buffers.
#[derive(Debug, Clone, Copy, PartialEq, Eq, Structural)]
pub struct FlatNormalsUniform {
    pub vertex_offset: i32,
    pub element_offset: i32,
    pub topology_offset: i32,
    pub points_offset: i32,
    pub points_stride: i32,
    pub normals_offset: i32,
    pub normals_stride: i32,
    pub index_offset: i32,
    pub index_stride: i32,
    pub p_param_offset: i32,
    pub p_param_stride: i32,
    pub prim_index_end: i32,
}

/// Destination type: packed 10-10-10-2 when `packed`, the source type
/// otherwise.
pub open spec fn spec_flat_normals_dst_type(src_data_type: HdType, packed: bool) -> HdType {
    if packed {
        HdType::Int32_2_10_10_10_Rev
    } else {
        src_data_type
    }
}

/// The uniform block for `num_faces` faces written as `dst_data_type`: a
/// packed normal takes one component, an unpacked one three.
pub open spec fn spec_flat_normals_uniform(num_faces: i32, dst_data_type: HdType) -> FlatNormalsUniform {
    FlatNormalsUniform {
        vertex_offset: 0,
        element_offset: 0,
        topology_offset: 0,
        points_offset: 0,
        points_stride: 3,
        normals_offset: 0,
        normals_stride: if dst_data_type == HdType::Int32_2_10_10_10_Rev {
            1
        } else {
            3
        },
        index_offset: 0,
        index_stride: 3,
        p_param_offset: 0,
        p_param_stride: 1,
        prim_index_end: num_faces,
    }
}

/// Per-face normals computed on the device from a points buffer.
pub struct FlatNormalsComputationGpu {
    num_faces: i32,
    src_name: String,
    dst_name: String,
    src_data_type: HdType,
    dst_data_type: HdType,
}

impl FlatNormalsComputationGpu {
    /// Number of faces.
    pub closed spec fn spec_num_faces(&self) -> i32 {
        self.num_faces
    }

    /// Name of the points buffer read.
    pub closed spec fn spec_src_name(&self) -> Seq<char> {
        self.src_name@
    }

    /// Name of the normals buffer written.
    pub closed spec fn spec_dst_name(&self) -> Seq<char> {
        self.dst_name@
    }

    /// Element type of the points.
    pub closed spec fn spec_src_data_type(&self) -> HdType {
        self.src_data_type
    }

    /// Element type of the normals.
    pub closed spec fn spec_dst_data_type(&self) -> HdType {
        self.dst_data_type
    }

    /// A computation of `num_faces` normals from `src_name` into
    /// `dst_name`; with `packed` the normals are written as 10-10-10-2
    /// integers. Points other than float or double triples are reported
    /// unsupported by the caller.
    pub fn new(num_faces: i32, src_name: String, dst_name: String, src_data_type: HdType, packed: bool) -> (c: Self)
        ensures
            c.spec_num_faces() == num_faces,
            c.spec_src_name() == src_name@,
            c.spec_dst_name() == dst_name@,
            c.spec_src_data_type() == src_data_type,
            c.spec_dst_data_type() == spec_flat_normals_dst_type(src_data_type, packed),
    {
        let dst_data_type = if packed {
            HdType::Int32_2_10_10_10_Rev
        } else {
            src_data_type
        };
        FlatNormalsComputationGpu { num_faces, src_name, dst_name, src_data_type, dst_data_type }
    }

    /// Whether the points type is one the shader reads (float or double
    /// triples).
    pub fn has_supported_points_type(&self) -> (b: bool)
        ensures
            b == (self.spec_src_data_type() == HdType::FloatVec3 || self.spec_src_data_type()
                == HdType::DoubleVec3),
    {
        self.src_data_type == HdType::FloatVec3 || self.src_data_type == HdType::DoubleVec3
    }

    /// The one output buffer: the normals, by name and type.
    pub fn get_buffer_specs(&self) -> (v: Vec<HdBufferSpec>)
        ensures
            v@.len() == 1,
            v@[0].name@ == self.spec_dst_name(),
            v@[0].data_type == self.spec_dst_data_type(),
    {
        let mut v: Vec<HdBufferSpec> = Vec::new();
        v.push(HdBufferSpec { name: self.dst_name.clone(), data_type: self.dst_data_type });
        v
    }

    /// Number of output elements: one per face.
    pub fn get_num_output_elements(&self) -> (n: i32)
        ensures
            n == self.spec_num_faces(),
    {
        self.num_faces
    }

    /// The uniform block a dispatch uses, or `None` when the points type is
    /// invalid and nothing is dispatched.
    pub fn execute(&self) -> (u: Option<FlatNormalsUniform>)
        ensures
            self.spec_src_data_type() == HdType::Invalid ==> u is None,
            self.spec_src_data_type() != HdType::Invalid ==> u == Some(
                spec_flat_normals_uniform(self.spec_num_faces(), self.spec_dst_data_type()),
            ),
    {
        if self.src_data_type == HdType::Invalid {
            return None;
        }
        Some(FlatNormalsUniform {
            vertex_offset: 0,
            element_offset: 0,
            topology_offset: 0,
            points_offset: 0,
            points_stride: 3,
            normals_offset: 0,
            normals_stride: if self.dst_data_type == HdType::Int32_2_10_10_10_Rev {
                1
            } else {
                3
            },
            index_offset: 0,
            index_stride: 3,
            p_param_offset: 0,
            p_param_stride: 1,
            prim_index_end: self.num_faces,
        })
    }
}

/// The output buffer of a CPU flat-normal computation: the normals by
/// name, packed as 10-10-10-2 integers or as three floats.
pub fn cpu_normals_buffer_specs(dst_name: String, packed: bool) -> (v: Vec<HdBufferSpec>)
    ensures
        v@.len() == 1,
        v@[0].name@ == dst_name@,
        v@[0].data_type == if packed {
            HdType::Int32_2_10_10_10_Rev
        } else {
            HdType::FloatVec3
        },
{
    let data_type = if packed {
        HdType::Int32_2_10_10_10_Rev
    } else {
        HdType::FloatVec3
    };
    let mut v: Vec<HdBufferSpec> = Vec::new();
    v.push(HdBufferSpec { name: dst_name, data_type });
    v
}

/// Where face `f` starts in the face-vertex indices: the sum of the
/// earlier face counts, each taken as a `usize`.
pub open spec fn face_index_offset(counts: Seq<i32>, f: int) -> int
    decreases f,
{
    if f <= 0 {
        0
    } else {
        face_index_offset(counts, f - 1) + (counts[f - 1] as usize) as int
    }
}

/// Face `f` gets a computed normal: it has at least three vertices, all
/// within the index list, each naming an existing point. Every other face
/// gets a zero normal.
pub open spec fn face_has_normal(counts: Seq<i32>, indices: Seq<i32>, num_points: int, f: int) -> bool {
    let c = (counts[f] as usize) as int;
    let o = face_index_offset(counts, f);
    &&& c >= 3
    &&& o + c <= indices.len()
    &&& forall|k: int| 0 <= k < c ==> ((#[trigger] indices[o + k]) as usize) < num_points
}

proof fn lemma_face_index_offset_monotone(counts: Seq<i32>, j: int, k: int)
    requires
        0 <= j <= k,
    ensures
        face_index_offset(counts, j) <= face_index_offset(counts, k),
    decreases k,
{
    if j < k {
        lemma_face_index_offset_monotone(counts, j, k - 1);
    }
}

/// Whether the `count` indices from `start` each name one of `num_points`
/// points.
fn indices_in_range(indices: &[i32], start: usize, count: usize, num_points: usize) -> (b: bool)
    requires
        start + count <= indices@.len(),
    ensures
        b == forall|k: int| 0 <= k < count ==> ((#[trigger] indices@[start + k]) as usize) < num_points,
{
    let mut k: usize = 0;
    while k < count
        invariant
            start + count <= indices.len(),
            k <= count,
            forall|j: int| 0 <= j < k ==> ((#[trigger] indices@[start + j]) as usize) < num_points,
        decreases count - k,
    {
        if indices[start + k] as usize >= num_points {
            assert(((indices@[start + k as int]) as usize) >= num_points);
            return false;
        }
        k = k + 1;
    }
    true
}

/// The face walk of the CPU flat-normal computation: for each face, the
/// offset of its first vertex index when it gets a computed normal, none
/// when it gets a zero normal. The face offsets must fit in a `usize`.
pub fn flat_normal_face_offsets(
    face_vertex_counts: &[i32],
    face_vertex_indices: &[i32],
    num_points: usize,
) -> (r: Vec<Option<usize>>)
    requires
        face_index_offset(face_vertex_counts@, face_vertex_counts@.len() as int) <= usize::MAX,
    ensures
        r@.len() == face_vertex_counts@.len(),
        forall|f: int|
            0 <= f < r@.len() ==> #[trigger] r@[f] == if face_has_normal(
                face_vertex_counts@,
                face_vertex_indices@,
                num_points as int,
                f,
            ) {
                Some(face_index_offset(face_vertex_counts@, f) as usize)
            } else {
                None
            },
{
    let ghost counts = face_vertex_counts@;
    let ghost indices = face_vertex_indices@;
    let mut r: Vec<Option<usize>> = Vec::new();
    let mut idx_offset: usize = 0;
    let mut f: usize = 0;
    while f < face_vertex_counts.len()
        invariant
            counts == face_vertex_counts@,
            indices == face_vertex_indices@,
            face_index_offset(counts, counts.len() as int) <= usize::MAX,
            f <= counts.len(),
            idx_offset == face_index_offset(counts, f as int),
            r@.len() == f,
            forall|g: int|
                0 <= g < f ==> #[trigger] r@[g] == if face_has_normal(counts, indices, num_points as int, g) {
                    Some(face_index_offset(counts, g) as usize)
                } else {
                    None
                },
        decreases counts.len() - f,
    {
        proof {
            lemma_face_index_offset_monotone(counts, f as int + 1, counts.len() as int);
        }
        let count = face_vertex_counts[f] as usize;
        let valid = count >= 3 && idx_offset + count <= face_vertex_indices.len()
            && indices_in_range(face_vertex_indices, idx_offset, count, num_points);
        let ghost before = r@;
        if valid {
            r.push(Some(idx_offset));
        } else {
            r.push(None);
        }
        proof {
            assert(valid == face_has_normal(counts, indices, num_points as int, f as int));
            assert forall|g: int|
                0 <= g < f + 1 implies #[trigger] r@[g] == if face_has_normal(
                    counts,
                    indices,
                    num_points as int,
                    g,
                ) {
                    Some(face_index_offset(counts, g) as usize)
                } else {
                    None
                } by {
                if g < f {
                    assert(r@[g] == before[g]);
                }
            }
        }
        idx_offset = idx_offset + count;
        f = f + 1;
    }
    r
}

} // verus!
