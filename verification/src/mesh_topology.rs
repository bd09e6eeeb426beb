//! Storm mesh topology: face/vertex counts, hole faces and geom subsets, with
//! fan triangulation, wireframe edge flags, Catmull-Clark quadrangulation
//! and the bookkeeping tables that go with them.

use vstd::prelude::*;
use vstd::arithmetic::div_mod::{lemma_mod_add_multiples_vanish, lemma_small_mod};
use crate::int_seq::{vec_contains_i32, vec_eq_i32};
use crate::text::str_eq;

verus! {

/// How subdivision mesh topology is refined.
#[derive(Debug, Clone, Copy, PartialEq, Eq, Structural)]
pub enum RefineMode {
    Uniform,
    Patches,
}

impl Default for RefineMode {
    fn default() -> (m: Self)
        ensures
            m is Uniform,
    {
        RefineMode::Uniform
    }
}

/// Whether quads are triangulated or kept as quads.
#[derive(Debug, Clone, Copy, PartialEq, Eq, Structural)]
pub enum QuadsMode {
    Triangulated,
    Untriangulated,
}

impl Default for QuadsMode {
    fn default() -> (m: Self)
        ensures
            m is Untriangulated,
    {
        QuadsMode::Untriangulated
    }
}

/// Interpolation type used in refinement.
#[derive(Debug, Clone, Copy, PartialEq, Eq, Structural)]
pub enum Interpolation {
    Vertex,
    Varying,
    FaceVarying,
}

impl Default for Interpolation {
    fn default() -> (m: Self)
        ensures
            m is Vertex,
    {
        Interpolation::Vertex
    }
}

// ---------------------------------------------------------------------------
// Quadrangulation info
// ---------------------------------------------------------------------------

/// Number of faces among the first `k` whose vertex count is not 4.
pub open spec fn non_quads_before(counts: Seq<i32>, k: int) -> nat
    decreases k,
{
    if k <= 0 {
        0
    } else {
        non_quads_before(counts, k - 1) + (if counts[k - 1] != 4 {
            1nat
        } else {
            0nat
        })
    }
}

/// Largest of the first `k` face-vertex counts, and at least 0.
pub open spec fn max_count_before(counts: Seq<i32>, k: int) -> i32
    decreases k,
{
    if k <= 0 {
        0
    } else {
        let m = max_count_before(counts, k - 1);
        if counts[k - 1] > m {
            counts[k - 1]
        } else {
            m
        }
    }
}

proof fn lemma_non_quads_monotone(counts: Seq<i32>, j: int, k: int)
    requires
        0 <= j <= k,
    ensures
        non_quads_before(counts, j) <= non_quads_before(counts, k),
    decreases k,
{
    if j < k {
        lemma_non_quads_monotone(counts, j, k - 1);
    }
}

/// Quadrangulation info for Catmull-Clark subdivision: per-face vertex
/// counts and, for each non-quad face, the index of its inserted center.
#[derive(Debug, Clone)]
pub struct HdQuadInfo {
    /// Number of vertices per face of the coarse mesh.
    pub verts_per_face: Vec<i32>,
    /// For each non-quad face the index of its center point; -1 for quads.
    pub point_indices: Vec<i32>,
    /// Number of inserted center points.
    pub num_points: usize,
    /// Largest face-vertex count in the mesh (0 for an empty mesh).
    pub max_num_verts_per_face: i32,
}

impl HdQuadInfo {
    /// The quad info computed from `counts`.
    pub open spec fn computed_from(self, counts: Seq<i32>) -> bool {
        &&& self.verts_per_face@ == counts
        &&& self.point_indices@.len() == counts.len()
        &&& forall|f: int|
            0 <= f < counts.len() ==> #[trigger] self.point_indices@[f] == (if counts[f] != 4 {
                non_quads_before(counts, f) as i32
            } else {
                -1i32
            })
        &&& self.num_points == non_quads_before(counts, counts.len() as int)
        &&& self.max_num_verts_per_face == max_count_before(counts, counts.len() as int)
    }

    /// Empty quad info.
    pub fn new() -> (q: Self)
        ensures
            q.verts_per_face@.len() == 0,
            q.point_indices@.len() == 0,
            q.num_points == 0,
            q.max_num_verts_per_face == 0,
    {
        HdQuadInfo {
            verts_per_face: Vec::new(),
            point_indices: Vec::new(),
            num_points: 0,
            max_num_verts_per_face: 0,
        }
    }

    /// Quad info has been computed for a non-empty mesh.
    pub fn is_valid(&self) -> (b: bool)
        ensures
            b == (self.verts_per_face@.len() > 0),
    {
        self.verts_per_face.len() > 0
    }

    /// Computes quad info from face vertex counts: every face that is not a
    /// quad gets the next center-point index, quads get -1.
    pub fn compute(face_vertex_counts: &[i32]) -> (info: Self)
        requires
            non_quads_before(face_vertex_counts@, face_vertex_counts@.len() as int) <= i32::MAX,
        ensures
            info.computed_from(face_vertex_counts@),
    {
        let mut info = HdQuadInfo::new();
        let mut num_added: i32 = 0;
        let mut max_verts: i32 = 0;
        let mut k: usize = 0;
        let n = face_vertex_counts.len();
        while k < n
            invariant
                n == face_vertex_counts@.len(),
                non_quads_before(face_vertex_counts@, n as int) <= i32::MAX,
                k <= n,
                info.verts_per_face@ == face_vertex_counts@.subrange(0, k as int),
                info.point_indices@.len() == k,
                forall|f: int|
                    0 <= f < k ==> #[trigger] info.point_indices@[f] == (if face_vertex_counts@[f]
                        != 4 {
                        non_quads_before(face_vertex_counts@, f) as i32
                    } else {
                        -1i32
                    }),
                num_added as int == non_quads_before(face_vertex_counts@, k as int),
                max_verts == max_count_before(face_vertex_counts@, k as int),
                info.num_points == 0,
            decreases n - k,
        {
            let count = face_vertex_counts[k];
            info.verts_per_face.push(count);
            if count > max_verts {
                max_verts = count;
            }
            proof {
                lemma_non_quads_monotone(face_vertex_counts@, k as int + 1, n as int);
            }
            if count != 4 {
                info.point_indices.push(num_added);
                num_added = num_added + 1;
            } else {
                info.point_indices.push(-1);
            }
            k = k + 1;
            assert(info.verts_per_face@ =~= face_vertex_counts@.subrange(0, k as int));
        }
        assert(face_vertex_counts@.subrange(0, n as int) =~= face_vertex_counts@);
        info.max_num_verts_per_face = max_verts;
        info.num_points = num_added as usize;
        info
    }
}

/// Quad info computed from face counts is valid exactly when there is a
/// face, and computed from no face it is the empty quad info.
pub proof fn lemma_quad_info_validity(info: HdQuadInfo, counts: Seq<i32>)
    requires
        info.computed_from(counts),
    ensures
        (info.verts_per_face@.len() > 0) <==> (counts.len() > 0),
        counts.len() == 0 ==> {
            &&& info.verts_per_face@.len() == 0
            &&& info.point_indices@.len() == 0
            &&& info.num_points == 0
            &&& info.max_num_verts_per_face == 0
        },
{
}

impl Default for HdQuadInfo {
    fn default() -> (q: Self)
        ensures
            q.verts_per_face@.len() == 0,
            q.point_indices@.len() == 0,
            q.num_points == 0,
            q.max_num_verts_per_face == 0,
    {
        HdQuadInfo::new()
    }
}

// ---------------------------------------------------------------------------
// Geom subsets
// ---------------------------------------------------------------------------

/// A geometric subset of a mesh, referencing a material and face indices.
#[derive(Debug, Clone)]
pub struct HdGeomSubset {
    /// Subset type (typically "materialBind").
    pub subset_type: String,
    /// Unique id (path) of this subset.
    pub id: String,
    /// Path of the material bound to this subset.
    pub material_id: String,
    /// Face indices belonging to this subset.
    pub indices: Vec<i32>,
}

impl HdGeomSubset {
    /// A material-binding subset.
    pub fn new(id: String, material_id: String, indices: Vec<i32>) -> (g: Self)
        ensures
            g.subset_type@ == "materialBind"@,
            g.id@ == id@,
            g.material_id@ == material_id@,
            g.indices@ == indices@,
    {
        HdGeomSubset { subset_type: String::from_str("materialBind"), id, material_id, indices }
    }
}

// ---------------------------------------------------------------------------
// Topology
// ---------------------------------------------------------------------------

/// Sum of the first `k` face-vertex counts.
pub open spec fn face_offset(counts: Seq<i32>, k: int) -> int
    decreases k,
{
    if k <= 0 {
        0
    } else {
        face_offset(counts, k - 1) + counts[k - 1]
    }
}

/// Every face-vertex count is non-negative.
pub open spec fn counts_nonneg(counts: Seq<i32>) -> bool {
    forall|f: int| 0 <= f < counts.len() ==> #[trigger] counts[f] >= 0
}

/// Offsets grow with the face index and never go negative.
pub proof fn lemma_offset_bounds(counts: Seq<i32>, j: int, k: int)
    requires
        counts_nonneg(counts),
        0 <= j <= k <= counts.len(),
    ensures
        0 <= face_offset(counts, j) <= face_offset(counts, k),
{
    lemma_offset_monotone(counts, j, k);
}

proof fn lemma_offset_monotone(counts: Seq<i32>, j: int, k: int)
    requires
        counts_nonneg(counts),
        0 <= j <= k <= counts.len(),
    ensures
        0 <= face_offset(counts, j) <= face_offset(counts, k),
    decreases k - j,
{
    if j < k {
        lemma_offset_monotone(counts, j, k - 1);
        assert(counts[k - 1] >= 0);
    } else {
        lemma_offset_nonneg(counts, j);
    }
}

proof fn lemma_offset_nonneg(counts: Seq<i32>, k: int)
    requires
        counts_nonneg(counts),
        0 <= k <= counts.len(),
    ensures
        0 <= face_offset(counts, k),
    decreases k,
{
    if k > 0 {
        lemma_offset_nonneg(counts, k - 1);
        assert(counts[k - 1] >= 0);
    }
}

/// Triangle `i` (1-based) of the fan of a face whose vertices start at `o`.
pub open spec fn fan_triangle(idx: Seq<i32>, o: int, i: int, right_handed: bool) -> Seq<u32> {
    if right_handed {
        seq![idx[o] as u32, idx[o + i] as u32, idx[o + i + 1] as u32]
    } else {
        seq![idx[o] as u32, idx[o + i + 1] as u32, idx[o + i] as u32]
    }
}

/// The first `n` triangles of a fan, in order.
pub open spec fn fan_triangles(idx: Seq<i32>, o: int, n: int, right_handed: bool) -> Seq<u32>
    decreases n,
{
    if n <= 0 {
        seq![]
    } else {
        fan_triangles(idx, o, n - 1, right_handed) + fan_triangle(idx, o, n, right_handed)
    }
}

/// Wireframe edge flags of fan triangle `i` (1-based) of a face with `c`
/// vertices: bit 0 for the first fan edge, bit 1 for the polygon edge, bit 2
/// for the closing fan edge.
pub open spec fn fan_edge_flags(i: int, c: int) -> u8 {
    ((if i == 1 {
        1u8
    } else {
        0u8
    }) | 2u8) | (if i == c - 2 {
        4u8
    } else {
        0u8
    })
}

/// Edge flags of the first `n` fan triangles of a face with `c` vertices.
pub open spec fn fan_edges(n: int, c: int) -> Seq<u8>
    decreases n,
{
    if n <= 0 {
        seq![]
    } else {
        fan_edges(n - 1, c).push(fan_edge_flags(n, c))
    }
}

/// Quad `i` (0-based) around the center point `ci` of a face with `c`
/// vertices starting at `o`: previous vertex, vertex, next vertex, center.
pub open spec fn ring_quad(idx: Seq<i32>, o: int, c: int, i: int, ci: u32) -> Seq<u32> {
    seq![
        idx[o + (if i == 0 {
            c - 1
        } else {
            i - 1
        })] as u32,
        idx[o + i] as u32,
        idx[o + (i + 1) % c] as u32,
        ci,
    ]
}

/// The first `n` quads around a face's center point.
pub open spec fn ring_quads(idx: Seq<i32>, o: int, c: int, n: int, ci: u32) -> Seq<u32>
    decreases n,
{
    if n <= 0 {
        seq![]
    } else {
        ring_quads(idx, o, c, n - 1, ci) + ring_quad(idx, o, c, n - 1, ci)
    }
}

/// Largest index cast to `usize`, plus one, over the first `k` indices (0
/// when `k` is 0).
pub open spec fn num_points_before(idx: Seq<i32>, k: int) -> int
    decreases k,
{
    if k <= 0 {
        0
    } else {
        let m = num_points_before(idx, k - 1);
        let p = (idx[k - 1] as usize) as int + 1;
        if p > m {
            p
        } else {
            m
        }
    }
}

/// Sum of the first `k` face-vertex counts, each cast to `usize`.
pub open spec fn usize_count_sum(counts: Seq<i32>, k: int) -> int
    decreases k,
{
    if k <= 0 {
        0
    } else {
        usize_count_sum(counts, k - 1) + (counts[k - 1] as usize) as int
    }
}

/// Storm mesh topology with triangulation, quadrangulation and geom-subset
/// support.
#[derive(Debug, Clone)]
pub struct HdStMeshTopology {
    /// Number of vertices per face.
    pub face_vertex_counts: Vec<i32>,
    /// Vertex indices of all faces, flattened.
    pub face_vertex_indices: Vec<i32>,
    /// Indices of faces that are holes.
    pub hole_indices: Vec<i32>,
    /// Orientation (true = right-handed).
    pub orientation_right_handed: bool,
    /// Subdivision scheme (catmullClark, loop, bilinear, none).
    pub subdivision_scheme: String,
    /// Geom subsets.
    pub geom_subsets: Vec<HdGeomSubset>,
    refine_level: i32,
    refine_mode: RefineMode,
    quads_mode: QuadsMode,
    quad_info: Option<HdQuadInfo>,
    fvar_topologies: Vec<Vec<i32>>,
    non_subset_faces: Option<Vec<i32>>,
}

impl HdStMeshTopology {
    pub closed spec fn spec_counts(self) -> Seq<i32> {
        self.face_vertex_counts@
    }

    pub closed spec fn spec_indices(self) -> Seq<i32> {
        self.face_vertex_indices@
    }

    pub closed spec fn spec_holes(self) -> Seq<i32> {
        self.hole_indices@
    }

    pub closed spec fn spec_right_handed(self) -> bool {
        self.orientation_right_handed
    }

    pub closed spec fn spec_scheme(self) -> Seq<char> {
        self.subdivision_scheme@
    }

    pub closed spec fn spec_geom_subsets(self) -> Seq<HdGeomSubset> {
        self.geom_subsets@
    }

    pub closed spec fn spec_refine_level(self) -> i32 {
        self.refine_level
    }

    pub closed spec fn spec_refine_mode(self) -> RefineMode {
        self.refine_mode
    }

    pub closed spec fn spec_quads_mode(self) -> QuadsMode {
        self.quads_mode
    }

    pub closed spec fn spec_quad_info(self) -> Option<HdQuadInfo> {
        self.quad_info
    }

    pub closed spec fn spec_fvar_topologies(self) -> Seq<Seq<i32>> {
        self.fvar_topologies@.map_values(|t: Vec<i32>| t@)
    }

    pub closed spec fn spec_non_subset_faces(self) -> Option<Seq<i32>> {
        match self.non_subset_faces {
            Some(v) => Some(v@),
            None => None,
        }
    }

    /// Face-vertex counts are non-negative and cover no more indices than
    /// there are.
    pub open spec fn counts_fit(self) -> bool {
        &&& counts_nonneg(self.spec_counts())
        &&& face_offset(self.spec_counts(), self.spec_counts().len() as int)
            <= self.spec_indices().len()
    }

    /// Face `f` is a hole.
    pub open spec fn is_hole(self, f: int) -> bool {
        self.spec_holes().contains(f as i32)
    }

    /// Triangles contributed by face `f`.
    pub open spec fn face_triangles(self, f: int) -> Seq<u32> {
        let c = self.spec_counts()[f] as int;
        if self.is_hole(f) || c < 3 {
            seq![]
        } else {
            fan_triangles(
                self.spec_indices(),
                face_offset(self.spec_counts(), f),
                c - 2,
                self.spec_right_handed(),
            )
        }
    }

    /// Primitive params (coarse face index per triangle) of face `f`.
    pub open spec fn face_triangle_params(self, f: int) -> Seq<i32> {
        let c = self.spec_counts()[f] as int;
        if self.is_hole(f) || c < 3 {
            seq![]
        } else {
            Seq::new((c - 2) as nat, |j: int| f as i32)
        }
    }

    /// Triangle indices of the first `k` faces.
    pub open spec fn triangles_before(self, k: int) -> Seq<u32>
        decreases k,
    {
        if k <= 0 {
            seq![]
        } else {
            self.triangles_before(k - 1) + self.face_triangles(k - 1)
        }
    }

    /// Primitive params of the first `k` faces.
    pub open spec fn triangle_params_before(self, k: int) -> Seq<i32>
        decreases k,
    {
        if k <= 0 {
            seq![]
        } else {
            self.triangle_params_before(k - 1) + self.face_triangle_params(k - 1)
        }
    }

    /// Edge flags of the triangles of the first `k` faces.
    pub open spec fn edge_flags_before(self, k: int) -> Seq<u8>
        decreases k,
    {
        if k <= 0 {
            seq![]
        } else {
            let c = self.spec_counts()[k - 1] as int;
            self.edge_flags_before(k - 1) + (if self.is_hole(k - 1) || c < 3 {
                seq![]
            } else {
                fan_edges(c - 2, c)
            })
        }
    }

    /// Number of faces.
    pub open spec fn face_count(self) -> nat {
        self.spec_counts().len()
    }

    /// Creates a topology from base data.
    pub fn new(
        face_vertex_counts: Vec<i32>,
        face_vertex_indices: Vec<i32>,
        refine_level: i32,
        refine_mode: RefineMode,
        quads_mode: QuadsMode,
    ) -> (t: Self)
        ensures
            t.spec_counts() == face_vertex_counts@,
            t.spec_indices() == face_vertex_indices@,
            t.spec_holes().len() == 0,
            t.spec_right_handed(),
            t.spec_scheme() == "none"@,
            t.spec_geom_subsets().len() == 0,
            t.spec_refine_level() == refine_level,
            t.spec_refine_mode() == refine_mode,
            t.spec_quads_mode() == quads_mode,
            t.spec_quad_info() is None,
            t.spec_fvar_topologies().len() == 0,
            t.spec_non_subset_faces() is None,
    {
        let t = HdStMeshTopology {
            face_vertex_counts,
            face_vertex_indices,
            hole_indices: Vec::new(),
            orientation_right_handed: true,
            subdivision_scheme: String::from_str("none"),
            geom_subsets: Vec::new(),
            refine_level,
            refine_mode,
            quads_mode,
            quad_info: None,
            fvar_topologies: Vec::new(),
            non_subset_faces: None,
        };
        assert(t.spec_fvar_topologies().len() == 0);
        t
    }

    /// Topology from face data only: no refinement, quads untriangulated.
    pub fn from_faces(counts: Vec<i32>, indices: Vec<i32>) -> (t: Self)
        ensures
            t.spec_counts() == counts@,
            t.spec_indices() == indices@,
            t.spec_holes().len() == 0,
            t.spec_right_handed(),
            t.spec_scheme() == "none"@,
            t.spec_geom_subsets().len() == 0,
            t.spec_refine_level() == 0,
            t.spec_refine_mode() is Uniform,
            t.spec_quads_mode() is Untriangulated,
            t.spec_quad_info() is None,
            t.spec_fvar_topologies().len() == 0,
            t.spec_non_subset_faces() is None,
    {
        HdStMeshTopology::new(counts, indices, 0, RefineMode::Uniform, QuadsMode::Untriangulated)
    }

    /// Number of faces.
    pub fn get_face_count(&self) -> (n: usize)
        ensures
            n == self.face_count(),
    {
        self.face_vertex_counts.len()
    }

    /// Total number of face-vertices (each count taken as `usize`).
    pub fn get_num_face_vertices(&self) -> (n: usize)
        requires
            usize_count_sum(self.spec_counts(), self.spec_counts().len() as int)
                <= usize::MAX,
        ensures
            n == usize_count_sum(self.spec_counts(), self.spec_counts().len() as int),
    {
        let mut sum: usize = 0;
        let mut k: usize = 0;
        while k < self.face_vertex_counts.len()
            invariant
                k <= self.spec_counts().len(),
                sum == usize_count_sum(self.spec_counts(), k as int),
                usize_count_sum(self.spec_counts(), self.spec_counts().len() as int)
                    <= usize::MAX,
            decreases self.face_vertex_counts.len() - k,
        {
            proof {
                lemma_usize_sum_monotone(
                    self.spec_counts(),
                    k as int + 1,
                    self.spec_counts().len() as int,
                );
            }
            sum = sum + self.face_vertex_counts[k] as usize;
            k = k + 1;
        }
        sum
    }

    /// One more than the largest vertex index (each taken as `usize`), or
    /// 0 without indices.
    pub fn get_num_points(&self) -> (n: usize)
        requires
            forall|k: int|
                0 <= k < self.spec_indices().len() ==> (#[trigger] self.spec_indices()[k] as usize)
                    < usize::MAX,
        ensures
            n == num_points_before(
                self.spec_indices(),
                self.spec_indices().len() as int,
            ),
    {
        let mut m: usize = 0;
        let mut k: usize = 0;
        while k < self.face_vertex_indices.len()
            invariant
                k <= self.spec_indices().len(),
                m == num_points_before(self.spec_indices(), k as int),
                forall|j: int|
                    0 <= j < self.spec_indices().len() ==> (#[trigger] self.spec_indices()[j]
                        as usize) < usize::MAX,
            decreases self.face_vertex_indices.len() - k,
        {
            let v = self.face_vertex_indices[k];
            let u: usize = v as usize;
            if u + 1 > m {
                m = u + 1;
            }
            k = k + 1;
        }
        m
    }

    pub fn get_refine_level(&self) -> (l: i32)
        ensures
            l == self.spec_refine_level(),
    {
        self.refine_level
    }

    pub fn get_refine_mode(&self) -> (m: RefineMode)
        ensures
            m == self.spec_refine_mode(),
    {
        self.refine_mode
    }

    pub fn get_quads_mode(&self) -> (m: QuadsMode)
        ensures
            m == self.spec_quads_mode(),
    {
        self.quads_mode
    }

    /// Whether quads are triangulated.
    pub fn triangulate_quads(&self) -> (b: bool)
        ensures
            b == (self.spec_quads_mode() is Triangulated),
    {
        self.quads_mode == QuadsMode::Triangulated
    }

    /// Fan triangulation of every drawn face (not a hole, at least three
    /// vertices), with the coarse face index of each triangle. Left-handed
    /// meshes swap the last two vertices of each triangle.
    pub fn compute_triangle_indices(&self) -> (r: (Vec<u32>, Vec<i32>))
        requires
            self.counts_fit(),
        ensures
            r.0@ == self.triangles_before(self.face_count() as int),
            r.1@ == self.triangle_params_before(self.face_count() as int),
    {
        let mut tri_indices: Vec<u32> = Vec::new();
        let mut prim_params: Vec<i32> = Vec::new();
        let mut offset: usize = 0;
        let n = self.face_vertex_counts.len();
        let mut face_idx: usize = 0;
        while face_idx < n
            invariant
                n == self.face_count(),
                self.counts_fit(),
                face_idx <= n,
                offset == face_offset(self.spec_counts(), face_idx as int),
                tri_indices@ == self.triangles_before(face_idx as int),
                prim_params@ == self.triangle_params_before(face_idx as int),
            decreases n - face_idx,
        {
            proof {
                lemma_offset_monotone(
                    self.spec_counts(),
                    face_idx as int + 1,
                    n as int,
                );
            }
            let count = self.face_vertex_counts[face_idx] as usize;
            assert(self.spec_counts()[face_idx as int] >= 0);
            assert(offset + count <= self.face_vertex_indices.len());
            let is_hole = vec_contains_i32(&self.hole_indices, face_idx as i32);
            if !is_hole && count >= 3 {
                let v0 = self.face_vertex_indices[offset] as u32;
                let ghost base = tri_indices@;
                let ghost pbase = prim_params@;
                let mut i: usize = 1;
                while i < count - 1
                    invariant
                        3 <= count,
                        1 <= i <= count - 1,
                        offset + count <= self.spec_indices().len(),
                        v0 == self.spec_indices()[offset as int] as u32,
                        tri_indices@ == base + fan_triangles(
                            self.spec_indices(),
                            offset as int,
                            i - 1,
                            self.spec_right_handed(),
                        ),
                        prim_params@ == pbase + Seq::new(
                            (i - 1) as nat,
                            |j: int| face_idx as i32,
                        ),
                    decreases count - 1 - i,
                {
                    assert(i + 1 < count);
                    assert(offset + count <= self.face_vertex_indices.len());
                    let v1 = self.face_vertex_indices[offset + i] as u32;
                    let v2 = self.face_vertex_indices[offset + i + 1] as u32;
                    if self.orientation_right_handed {
                        tri_indices.push(v0);
                        tri_indices.push(v1);
                        tri_indices.push(v2);
                    } else {
                        tri_indices.push(v0);
                        tri_indices.push(v2);
                        tri_indices.push(v1);
                    }
                    prim_params.push(face_idx as i32);
                    i = i + 1;
                    assert(tri_indices@ =~= base + fan_triangles(
                        self.spec_indices(),
                        offset as int,
                        i - 1,
                        self.spec_right_handed(),
                    ));
                    assert(prim_params@ =~= pbase + Seq::new(
                        (i - 1) as nat,
                        |j: int| face_idx as i32,
                    ));
                }
            }
            offset = offset + count;
            face_idx = face_idx + 1;
        }
        (tri_indices, prim_params)
    }

    /// Wireframe edge flags for each fan triangle: the first triangle of a
    /// fan marks its first edge, every triangle marks its polygon edge, the
    /// last triangle marks its closing edge.
    pub fn compute_triangle_edge_indices(&self) -> (flags: Vec<u8>)
        requires
            counts_nonneg(self.spec_counts()),
        ensures
            flags@ == self.edge_flags_before(self.face_count() as int),
    {
        let mut edge_flags: Vec<u8> = Vec::new();
        let n = self.face_vertex_counts.len();
        let mut face_idx: usize = 0;
        while face_idx < n
            invariant
                n == self.face_count(),
                counts_nonneg(self.spec_counts()),
                face_idx <= n,
                edge_flags@ == self.edge_flags_before(face_idx as int),
            decreases n - face_idx,
        {
            let count = self.face_vertex_counts[face_idx] as usize;
            let is_hole = vec_contains_i32(&self.hole_indices, face_idx as i32);
            if !is_hole && count >= 3 {
                let ghost base = edge_flags@;
                let mut i: usize = 1;
                while i < count - 1
                    invariant
                        3 <= count,
                        1 <= i <= count - 1,
                        count == self.spec_counts()[face_idx as int] as int,
                        edge_flags@ == base + fan_edges(i - 1, count as int),
                    decreases count - 1 - i,
                {
                    let first: u8 = if i == 1 {
                        1
                    } else {
                        0
                    };
                    let last: u8 = if i == count - 2 {
                        4
                    } else {
                        0
                    };
                    let flags: u8 = (first | 2) | last;
                    edge_flags.push(flags);
                    i = i + 1;
                    assert(edge_flags@ =~= base + fan_edges(i - 1, count as int));
                }
            }
            face_idx = face_idx + 1;
        }
        edge_flags
    }
}

impl HdStMeshTopology {
    /// Number of center points consumed while quadrangulating face `f`:
    /// a hole consumes one when the quad info gave it a center, a drawn
    /// non-quad face (at least three vertices) always consumes one.
    pub open spec fn face_centers(self, f: int, q: HdQuadInfo) -> nat {
        let c = self.spec_counts()[f] as int;
        if self.is_hole(f) {
            if f < q.point_indices@.len() && q.point_indices@[f] >= 0 {
                1
            } else {
                0
            }
        } else if c != 4 && c >= 3 {
            1
        } else {
            0
        }
    }

    /// Center points consumed by the first `k` faces.
    pub open spec fn centers_before(self, k: int, q: HdQuadInfo) -> nat
        decreases k,
    {
        if k <= 0 {
            0
        } else {
            self.centers_before(k - 1, q) + self.face_centers(k - 1, q)
        }
    }

    /// Number of points before quadrangulation.
    pub open spec fn spec_num_points(self) -> int {
        num_points_before(self.spec_indices(), self.spec_indices().len() as int)
    }

    /// Quad indices of face `f`, whose center point (if any) is `ci`.
    pub open spec fn face_quads(self, f: int, ci: u32) -> Seq<u32> {
        let c = self.spec_counts()[f] as int;
        let o = face_offset(self.spec_counts(), f);
        let idx = self.spec_indices();
        if self.is_hole(f) {
            seq![]
        } else if c == 4 {
            seq![idx[o] as u32, idx[o + 1] as u32, idx[o + 2] as u32, idx[o + 3] as u32]
        } else if c >= 3 {
            ring_quads(idx, o, c, c, ci)
        } else {
            seq![]
        }
    }

    /// Primitive params (coarse face index per quad) of face `f`.
    pub open spec fn face_quad_params(self, f: int) -> Seq<i32> {
        let c = self.spec_counts()[f] as int;
        if self.is_hole(f) {
            seq![]
        } else if c == 4 {
            seq![f as i32]
        } else if c >= 3 {
            Seq::new(c as nat, |j: int| f as i32)
        } else {
            seq![]
        }
    }

    /// Center index handed to face `f`.
    pub open spec fn center_of(self, f: int, q: HdQuadInfo) -> u32 {
        ((self.spec_num_points() as u32) as int + self.centers_before(f, q)) as u32
    }

    /// Quad indices of the first `k` faces.
    pub open spec fn quads_before(self, k: int, q: HdQuadInfo) -> Seq<u32>
        decreases k,
    {
        if k <= 0 {
            seq![]
        } else {
            self.quads_before(k - 1, q) + self.face_quads(k - 1, self.center_of(k - 1, q))
        }
    }

    /// Quad primitive params of the first `k` faces.
    pub open spec fn quad_params_before(self, k: int) -> Seq<i32>
        decreases k,
    {
        if k <= 0 {
            seq![]
        } else {
            self.quad_params_before(k - 1) + self.face_quad_params(k - 1)
        }
    }

    /// No vertex index turns into `usize::MAX` when taken as `usize`.
    pub open spec fn indices_castable(self) -> bool {
        forall|k: int|
            0 <= k < self.spec_indices().len() ==> (#[trigger] self.spec_indices()[k] as usize)
                < usize::MAX
    }

    /// Stores quad info.
    pub fn set_quad_info(&mut self, info: HdQuadInfo)
        ensures
            final(self).spec_quad_info() == Some(info),
            final(self).spec_counts() == old(self).spec_counts(),
            final(self).spec_indices() == old(self).spec_indices(),
            final(self).spec_holes() == old(self).spec_holes(),
            final(self).spec_right_handed() == old(self).spec_right_handed(),
    {
        self.quad_info = Some(info);
    }

    /// The stored quad info, if any.
    pub fn get_quad_info(&self) -> (q: Option<&HdQuadInfo>)
        ensures
            match q {
                Some(i) => self.spec_quad_info() == Some(*i),
                None => self.spec_quad_info() is None,
            },
    {
        self.quad_info.as_ref()
    }

    /// Computes and stores quad info from the face-vertex counts.
    pub fn compute_quad_info(&mut self)
        requires
            non_quads_before(old(self).spec_counts(), old(self).spec_counts().len() as int)
                <= i32::MAX,
        ensures
            final(self).spec_quad_info() matches Some(q) && q.computed_from(old(self).spec_counts()),
            final(self).spec_counts() == old(self).spec_counts(),
            final(self).spec_indices() == old(self).spec_indices(),
            final(self).spec_holes() == old(self).spec_holes(),
            final(self).spec_right_handed() == old(self).spec_right_handed(),
    {
        let info = HdQuadInfo::compute(self.face_vertex_counts.as_slice());
        self.quad_info = Some(info);
    }

    /// Quadrangulation for Catmull-Clark: quads pass through, other drawn
    /// faces get their next center point and one quad per vertex (previous
    /// vertex, vertex, next vertex, center). Holes are skipped but still
    /// consume the center the quad info gave them. Empty without quad info.
    pub fn compute_quad_indices(&self) -> (r: (Vec<u32>, Vec<i32>))
        requires
            self.counts_fit(),
            self.indices_castable(),
            self.spec_quad_info() matches Some(q) ==> (self.spec_num_points() as u32) as int
                + self.centers_before(self.face_count() as int, q) <= u32::MAX,
        ensures
            match self.spec_quad_info() {
                Some(q) => {
                    &&& r.0@ == self.quads_before(self.face_count() as int, q)
                    &&& r.1@ == self.quad_params_before(self.face_count() as int)
                },
                None => r.0@.len() == 0 && r.1@.len() == 0,
            },
    {
        let mut quad_indices: Vec<u32> = Vec::new();
        let mut prim_params: Vec<i32> = Vec::new();
        let num_orig_points = self.get_num_points();
        let quad_info = match &self.quad_info {
            Some(qi) => qi,
            None => {
                return (quad_indices, prim_params);
            },
        };
        let ghost q = *quad_info;
        let mut center_idx: u32 = num_orig_points as u32;
        let mut offset: usize = 0;
        let n = self.face_vertex_counts.len();
        let mut face_idx: usize = 0;
        proof {
            lemma_centers_monotone(*self, q, 0, n as int);
        }
        while face_idx < n
            invariant
                n == self.face_count(),
                self.counts_fit(),
                self.spec_quad_info() == Some(q),
                *quad_info == q,
                num_orig_points == self.spec_num_points(),
                (self.spec_num_points() as u32) as int + self.centers_before(n as int, q)
                    <= u32::MAX,
                face_idx <= n,
                offset == face_offset(self.spec_counts(), face_idx as int),
                center_idx as int == (self.spec_num_points() as u32) as int + self.centers_before(
                    face_idx as int,
                    q,
                ),
                quad_indices@ == self.quads_before(face_idx as int, q),
                prim_params@ == self.quad_params_before(face_idx as int),
            decreases n - face_idx,
        {
            proof {
                lemma_offset_monotone(self.spec_counts(), face_idx as int + 1, n as int);
                lemma_centers_monotone(*self, q, face_idx as int + 1, n as int);
            }
            let count = self.face_vertex_counts[face_idx] as usize;
            assert(self.spec_counts()[face_idx as int] >= 0);
            assert(offset + count <= self.face_vertex_indices.len());
            let ghost ci = self.center_of(face_idx as int, q);
            assert(ci == center_idx);
            let is_hole = vec_contains_i32(&self.hole_indices, face_idx as i32);
            if is_hole {
                let has_center = if face_idx < quad_info.point_indices.len() {
                    quad_info.point_indices[face_idx] >= 0
                } else {
                    false
                };
                if has_center {
                    center_idx = center_idx + 1;
                }
                assert(quad_indices@ =~= self.quads_before(face_idx as int + 1, q));
                assert(prim_params@ =~= self.quad_params_before(face_idx as int + 1));
            } else if count == 4 {
                let v0 = self.face_vertex_indices[offset] as u32;
                let v1 = self.face_vertex_indices[offset + 1] as u32;
                let v2 = self.face_vertex_indices[offset + 2] as u32;
                let v3 = self.face_vertex_indices[offset + 3] as u32;
                quad_indices.push(v0);
                quad_indices.push(v1);
                quad_indices.push(v2);
                quad_indices.push(v3);
                prim_params.push(face_idx as i32);
                assert(quad_indices@ =~= self.quads_before(face_idx as int + 1, q));
                assert(prim_params@ =~= self.quad_params_before(face_idx as int + 1));
            } else if count >= 3 {
                let c_idx = center_idx;
                center_idx = center_idx + 1;
                let ghost base = quad_indices@;
                let ghost pbase = prim_params@;
                let mut i: usize = 0;
                while i < count
                    invariant
                        3 <= count,
                        i <= count,
                        offset + count <= self.face_vertex_indices.len(),
                        offset + count <= self.spec_indices().len(),
                        quad_indices@ == base + ring_quads(
                            self.spec_indices(),
                            offset as int,
                            count as int,
                            i as int,
                            c_idx,
                        ),
                        prim_params@ == pbase + Seq::new(i as nat, |j: int| face_idx as i32),
                    decreases count - i,
                {
                    let v0 = self.face_vertex_indices[offset + i] as u32;
                    let v1 = self.face_vertex_indices[offset + (i + 1) % count] as u32;
                    let prev_k = if i == 0 {
                        count - 1
                    } else {
                        i - 1
                    };
                    let prev = self.face_vertex_indices[offset + prev_k] as u32;
                    quad_indices.push(prev);
                    quad_indices.push(v0);
                    quad_indices.push(v1);
                    quad_indices.push(c_idx);
                    prim_params.push(face_idx as i32);
                    i = i + 1;
                    assert(quad_indices@ =~= base + ring_quads(
                        self.spec_indices(),
                        offset as int,
                        count as int,
                        i as int,
                        c_idx,
                    ));
                    assert(prim_params@ =~= pbase + Seq::new(i as nat, |j: int| face_idx as i32));
                }
                assert(quad_indices@ =~= self.quads_before(face_idx as int + 1, q));
                assert(prim_params@ =~= self.quad_params_before(face_idx as int + 1));
            } else {
                assert(quad_indices@ =~= self.quads_before(face_idx as int + 1, q));
                assert(prim_params@ =~= self.quad_params_before(face_idx as int + 1));
            }
            offset = offset + count;
            face_idx = face_idx + 1;
        }
        (quad_indices, prim_params)
    }

    /// The point indices `0, 1, ..., n - 1` where `n` is the point count
    /// taken as `u32`.
    pub fn compute_points_index(&self) -> (v: Vec<u32>)
        requires
            self.indices_castable(),
        ensures
            v@.len() == (self.spec_num_points() as u32),
            forall|k: int| 0 <= k < v@.len() ==> #[trigger] v@[k] == k,
    {
        let n = self.get_num_points() as u32;
        let mut v: Vec<u32> = Vec::new();
        let mut k: u32 = 0;
        while k < n
            invariant
                k <= n,
                v@.len() == k,
                forall|j: int| 0 <= j < v@.len() ==> #[trigger] v@[j] == j,
            decreases n - k,
        {
            v.push(k);
            k = k + 1;
        }
        v
    }

    /// Subdivision produces triangles (Loop scheme).
    pub fn refines_to_triangles(&self) -> (b: bool)
        ensures
            b == (self.spec_scheme() == "loop"@),
    {
        str_eq(self.subdivision_scheme.as_str(), "loop")
    }

    /// Subdivision produces B-spline patches (Catmull-Clark scheme).
    pub fn refines_to_bspline_patches(&self) -> (b: bool)
        ensures
            b == (self.spec_scheme() == "catmullClark"@),
    {
        str_eq(self.subdivision_scheme.as_str(), "catmullClark")
    }

    /// Subdivision produces box-spline triangle patches (Loop scheme).
    pub fn refines_to_box_spline_triangle_patches(&self) -> (b: bool)
        ensures
            b == (self.spec_scheme() == "loop"@),
    {
        str_eq(self.subdivision_scheme.as_str(), "loop")
    }

    /// Replaces the face-varying topologies.
    pub fn set_fvar_topologies(&mut self, topologies: Vec<Vec<i32>>)
        ensures
            final(self).spec_fvar_topologies() == topologies@.map_values(|t: Vec<i32>| t@),
            final(self).spec_counts() == old(self).spec_counts(),
            final(self).spec_indices() == old(self).spec_indices(),
    {
        self.fvar_topologies = topologies;
    }

    /// The face-varying topologies.
    pub fn get_fvar_topologies(&self) -> (t: &[Vec<i32>])
        ensures
            t@.map_values(|v: Vec<i32>| v@) == self.spec_fvar_topologies(),
    {
        self.fvar_topologies.as_slice()
    }

    /// Faces not covered by any geom subset, if computed and non-empty.
    pub fn get_non_subset_faces(&self) -> (f: Option<&[i32]>)
        ensures
            match f {
                Some(s) => self.spec_non_subset_faces() == Some(s@),
                None => self.spec_non_subset_faces() is None,
            },
    {
        match &self.non_subset_faces {
            Some(v) => Some(v.as_slice()),
            None => None,
        }
    }

    /// Equality of the topology data (not of the computed tables).
    pub fn topology_eq(&self, other: &Self) -> (b: bool)
        ensures
            b == (self.spec_counts() == other.spec_counts() && self.spec_indices()
                == other.spec_indices() && self.spec_holes() == other.spec_holes()
                && self.spec_right_handed() == other.spec_right_handed() && self.spec_scheme()
                == other.spec_scheme() && self.spec_refine_level() == other.spec_refine_level()),
    {
        vec_eq_i32(&self.face_vertex_counts, &other.face_vertex_counts) && vec_eq_i32(
            &self.face_vertex_indices,
            &other.face_vertex_indices,
        ) && vec_eq_i32(&self.hole_indices, &other.hole_indices)
            && self.orientation_right_handed == other.orientation_right_handed
            && self.subdivision_scheme == other.subdivision_scheme && self.refine_level
            == other.refine_level
    }
}

/// A subset is kept when it names faces and a material.
pub open spec fn subset_kept(g: HdGeomSubset) -> bool {
    g.indices@.len() > 0 && g.material_id@.len() > 0
}

/// The kept subsets among the first `k`, in order.
pub open spec fn kept_subsets(gs: Seq<HdGeomSubset>, k: int) -> Seq<HdGeomSubset>
    decreases k,
{
    if k <= 0 {
        seq![]
    } else {
        kept_subsets(gs, k - 1) + (if subset_kept(gs[k - 1]) {
            seq![gs[k - 1]]
        } else {
            seq![]
        })
    }
}

/// Face `f` is named (as a `usize` index) by one of the first `si` subsets.
pub open spec fn face_covered(gs: Seq<HdGeomSubset>, si: int, f: int) -> bool {
    exists|s: int, j: int|
        0 <= s < si && 0 <= j < gs[s].indices@.len() && #[trigger] (gs[s].indices@[j] as usize)
            == f
}

/// The faces among `0..k` that no subset names.
pub open spec fn uncovered_faces(gs: Seq<HdGeomSubset>, k: int) -> Seq<i32>
    decreases k,
{
    if k <= 0 {
        seq![]
    } else {
        uncovered_faces(gs, k - 1) + (if face_covered(gs, gs.len() as int, k - 1) {
            seq![]
        } else {
            seq![(k - 1) as i32]
        })
    }
}

/// Faces left out of every kept subset: none when no subset is kept or
/// every face is covered.
pub open spec fn expected_non_subset_faces(gs: Seq<HdGeomSubset>, face_count: int) -> Option<
    Seq<i32>,
> {
    let kept = kept_subsets(gs, gs.len() as int);
    if kept.len() == 0 {
        None
    } else {
        let u = uncovered_faces(kept, face_count);
        if u.len() == 0 {
            None
        } else {
            Some(u)
        }
    }
}

impl HdStMeshTopology {
    /// Drops subsets without faces or without a material, then records the
    /// faces that no remaining subset names.
    pub fn sanitize_geom_subsets(&mut self)
        requires
            old(self).face_count() <= i32::MAX,
        ensures
            final(self).spec_geom_subsets() == kept_subsets(
                old(self).spec_geom_subsets(),
                old(self).spec_geom_subsets().len() as int,
            ),
            final(self).spec_non_subset_faces() == expected_non_subset_faces(
                old(self).spec_geom_subsets(),
                old(self).face_count() as int,
            ),
            final(self).spec_counts() == old(self).spec_counts(),
            final(self).spec_indices() == old(self).spec_indices(),
            final(self).spec_holes() == old(self).spec_holes(),
            final(self).spec_quad_info() == old(self).spec_quad_info(),
    {
        let ghost gs0 = self.geom_subsets@;
        let mut kept: Vec<HdGeomSubset> = Vec::new();
        let mut k: usize = 0;
        let mut old_subsets: Vec<HdGeomSubset> = Vec::new();
        std::mem::swap(&mut old_subsets, &mut self.geom_subsets);
        assert(old_subsets@ == gs0);
        let total = old_subsets.len();
        while old_subsets.len() > 0
            invariant
                total == gs0.len(),
                k <= gs0.len(),
                old_subsets@ == gs0.subrange(k as int, gs0.len() as int),
                kept@ == kept_subsets(gs0, k as int),
            decreases old_subsets.len(),
        {
            let g = old_subsets.remove(0);
            assert(g == gs0[k as int]);
            if g.indices.len() > 0 && !g.material_id.as_str().is_empty() {
                kept.push(g);
            }
            k = k + 1;
            assert(kept@ =~= kept_subsets(gs0, k as int));
            assert(old_subsets@ =~= gs0.subrange(k as int, gs0.len() as int));
        }
        assert(k == gs0.len());
        self.geom_subsets = kept;
        let ghost kv = self.geom_subsets@;
        if self.geom_subsets.len() == 0 {
            self.non_subset_faces = None;
            return;
        }
        let face_count = self.face_vertex_counts.len();
        let mut in_subset: Vec<bool> = Vec::new();
        let mut f: usize = 0;
        while f < face_count
            invariant
                f <= face_count,
                in_subset@.len() == f,
                forall|x: int| 0 <= x < f ==> !#[trigger] in_subset@[x],
            decreases face_count - f,
        {
            in_subset.push(false);
            f = f + 1;
        }
        let mut si: usize = 0;
        while si < self.geom_subsets.len()
            invariant
                self.geom_subsets@ == kv,
                si <= kv.len(),
                in_subset@.len() == face_count,
                forall|x: int|
                    0 <= x < face_count ==> #[trigger] in_subset@[x] == face_covered(kv, si as int, x),
            decreases self.geom_subsets.len() - si,
        {
            let indices = &self.geom_subsets[si].indices;
            let mut j: usize = 0;
            while j < indices.len()
                invariant
                    self.geom_subsets@ == kv,
                    si < kv.len(),
                    indices@ == kv[si as int].indices@,
                    j <= indices@.len(),
                    in_subset@.len() == face_count,
                    forall|x: int|
                        0 <= x < face_count ==> #[trigger] in_subset@[x] == (face_covered(
                            kv,
                            si as int,
                            x,
                        ) || exists|jj: int|
                            0 <= jj < j && #[trigger] (indices@[jj] as usize) == x),
                decreases indices.len() - j,
            {
                let idx = indices[j] as usize;
                if idx < face_count {
                    in_subset.set(idx, true);
                }
                j = j + 1;
                assert forall|x: int| 0 <= x < face_count implies #[trigger] in_subset@[x] == (
                face_covered(kv, si as int, x) || exists|jj: int|
                    0 <= jj < j && #[trigger] (indices@[jj] as usize) == x) by {
                    if x == idx {
                        assert(indices@[j - 1] as usize == x);
                    }
                }
            }
            proof {
                assert forall|x: int| 0 <= x < face_count implies #[trigger] in_subset@[x]
                    == face_covered(kv, si as int + 1, x) by {
                    if in_subset@[x] {
                        if !face_covered(kv, si as int, x) {
                            let jj = choose|jj: int|
                                0 <= jj < indices@.len() && #[trigger] (indices@[jj] as usize)
                                    == x;
                            assert(kv[si as int].indices@[jj] as usize == x);
                        }
                    } else {
                        if face_covered(kv, si as int + 1, x) {
                            let (s, jj) = choose|s: int, jj: int|
                                0 <= s < si + 1 && 0 <= jj < kv[s].indices@.len() && #[trigger] (
                                kv[s].indices@[jj] as usize) == x;
                            if s == si {
                                assert(indices@[jj] as usize == x);
                            }
                        }
                    }
                }
            }
            si = si + 1;
        }
        let mut non_subset: Vec<i32> = Vec::new();
        let mut i: usize = 0;
        while i < face_count
            invariant
                face_count == self.face_count(),
                face_count <= i32::MAX,
                self.geom_subsets@ == kv,
                i <= face_count,
                in_subset@.len() == face_count,
                forall|x: int|
                    0 <= x < face_count ==> #[trigger] in_subset@[x] == face_covered(
                        kv,
                        kv.len() as int,
                        x,
                    ),
                non_subset@ == uncovered_faces(kv, i as int),
            decreases face_count - i,
        {
            if !in_subset[i] {
                non_subset.push(i as i32);
            }
            i = i + 1;
            assert(non_subset@ =~= uncovered_faces(kv, i as int));
        }
        if non_subset.len() == 0 {
            self.non_subset_faces = None;
        } else {
            self.non_subset_faces = Some(non_subset);
        }
    }
}

proof fn lemma_centers_monotone(t: HdStMeshTopology, q: HdQuadInfo, j: int, k: int)
    requires
        0 <= j <= k,
    ensures
        t.centers_before(j, q) <= t.centers_before(k, q),
    decreases k - j,
{
    if j < k {
        lemma_centers_monotone(t, q, j, k - 1);
    }
}

proof fn lemma_usize_sum_monotone(counts: Seq<i32>, j: int, k: int)
    requires
        0 <= j <= k <= counts.len(),
    ensures
        usize_count_sum(counts, j) <= usize_count_sum(counts, k),
    decreases k - j,
{
    if j < k {
        lemma_usize_sum_monotone(counts, j, k - 1);
    }
}

proof fn lemma_fan_triangles_len(idx: Seq<i32>, o: int, n: int, right_handed: bool)
    requires
        n >= 0,
    ensures
        fan_triangles(idx, o, n, right_handed).len() == 3 * n,
    decreases n,
{
    if n > 0 {
        lemma_fan_triangles_len(idx, o, n - 1, right_handed);
    }
}

proof fn lemma_fan_edges_len(n: int, c: int)
    requires
        n >= 0,
    ensures
        fan_edges(n, c).len() == n,
    decreases n,
{
    if n > 0 {
        lemma_fan_edges_len(n - 1, c);
    }
}

proof fn lemma_ring_quads_len(idx: Seq<i32>, o: int, c: int, n: int, ci: u32)
    requires
        n >= 0,
    ensures
        ring_quads(idx, o, c, n, ci).len() == 4 * n,
    decreases n,
{
    if n > 0 {
        lemma_ring_quads_len(idx, o, c, n - 1, ci);
    }
}

/// Triangulation output is consistent: three indices and one wireframe
/// edge-flag byte for every face parameter, over any prefix of the faces.
pub proof fn lemma_triangulation_counts(t: HdStMeshTopology, k: int)
    requires
        0 <= k <= t.face_count(),
    ensures
        t.triangles_before(k).len() == 3 * t.triangle_params_before(k).len(),
        t.edge_flags_before(k).len() == t.triangle_params_before(k).len(),
    decreases k,
{
    if k > 0 {
        lemma_triangulation_counts(t, k - 1);
        let c = t.spec_counts()[k - 1] as int;
        if !(t.is_hole(k - 1) || c < 3) {
            lemma_fan_triangles_len(
                t.spec_indices(),
                face_offset(t.spec_counts(), k - 1),
                c - 2,
                t.spec_right_handed(),
            );
            lemma_fan_edges_len(c - 2, c);
        }
    }
}

/// Quadrangulation output is consistent: four indices for every face
/// parameter, over any prefix of the faces.
pub proof fn lemma_quadrangulation_counts(t: HdStMeshTopology, k: int, q: HdQuadInfo)
    requires
        0 <= k <= t.face_count(),
    ensures
        t.quads_before(k, q).len() == 4 * t.quad_params_before(k).len(),
    decreases k,
{
    if k > 0 {
        lemma_quadrangulation_counts(t, k - 1, q);
        let c = t.spec_counts()[k - 1] as int;
        if !t.is_hole(k - 1) && c != 4 && c >= 3 {
            lemma_ring_quads_len(
                t.spec_indices(),
                face_offset(t.spec_counts(), k - 1),
                c,
                c,
                t.center_of(k - 1, q),
            );
        }
    }
}

/// Every triangle comes from a face that is not a hole and has at least
/// three vertices, and triangles appear in face order.
pub proof fn lemma_triangles_skip_holes(t: HdStMeshTopology, k: int)
    requires
        0 <= k <= t.face_count(),
        t.face_count() <= i32::MAX,
    ensures
        forall|j: int|
            0 <= j < t.triangle_params_before(k).len() ==> {
                let f = #[trigger] t.triangle_params_before(k)[j] as int;
                &&& 0 <= f < k
                &&& !t.is_hole(f)
                &&& t.spec_counts()[f] >= 3
            },
        forall|i: int, j: int|
            0 <= i <= j < t.triangle_params_before(k).len() ==> #[trigger] t.triangle_params_before(k)[i]
                <= #[trigger] t.triangle_params_before(k)[j],
    decreases k,
{
    if k > 0 {
        lemma_triangles_skip_holes(t, k - 1);
        let prev = t.triangle_params_before(k - 1);
        let cur = t.face_triangle_params(k - 1);
        let all = t.triangle_params_before(k);
        assert(all == prev + cur);
        assert forall|j: int| 0 <= j < all.len() implies {
            let f = #[trigger] all[j] as int;
            &&& 0 <= f < k
            &&& !t.is_hole(f)
            &&& t.spec_counts()[f] >= 3
        } by {
            if j >= prev.len() {
                assert(all[j] == cur[j - prev.len()]);
            } else {
                assert(all[j] == prev[j]);
            }
        }
        assert forall|i: int, j: int| 0 <= i <= j < all.len() implies #[trigger] all[i] <= #[trigger] all[j] by {
            if j >= prev.len() {
                assert(all[j] == cur[j - prev.len()]);
                if i >= prev.len() {
                    assert(all[i] == cur[i - prev.len()]);
                } else {
                    assert(all[i] == prev[i]);
                    assert((prev[i] as int) < k);
                }
            } else {
                assert(all[j] == prev[j]);
                assert(all[i] == prev[i]);
            }
        }
    }
}


proof fn lemma_ring_quads_shape(idx: Seq<i32>, o: int, c: int, n: int, ci: u32)
    requires
        0 <= n,
    ensures
        ring_quads(idx, o, c, n, ci).len() == 4 * n,
        forall|i: int, k: int|
            0 <= i < n && 0 <= k < 4 ==> #[trigger] ring_quads(idx, o, c, n, ci)[4 * i + k] == ring_quad(
                idx,
                o,
                c,
                i,
                ci,
            )[k],
    decreases n,
{
    if n > 0 {
        lemma_ring_quads_shape(idx, o, c, n - 1, ci);
        let prev = ring_quads(idx, o, c, n - 1, ci);
        let cur = ring_quads(idx, o, c, n, ci);
        assert forall|i: int, k: int| 0 <= i < n && 0 <= k < 4 implies #[trigger] cur[4 * i + k]
            == ring_quad(idx, o, c, i, ci)[k] by {
            if i < n - 1 {
                assert(cur[4 * i + k] == prev[4 * i + k]);
            }
        }
    }
}

impl HdStMeshTopology {
    proof fn lemma_quads_prefix(self, q: HdQuadInfo, k: int, m: int)
        requires
            0 <= k <= m,
        ensures
            self.quads_before(k, q).len() <= self.quads_before(m, q).len(),
            forall|j: int|
                0 <= j < self.quads_before(k, q).len() ==> #[trigger] self.quads_before(m, q)[j]
                    == self.quads_before(k, q)[j],
        decreases m,
    {
        if k < m {
            self.lemma_quads_prefix(q, k, m - 1);
        }
    }
}

/// Catmull-Clark quadrangulation walks each drawn non-quad face around its
/// boundary: the `i`-th quad of a face with `c` vertices at offset `o` is
/// its previous vertex, its `i`-th vertex, its next vertex (all taken
/// modulo `c`), then the face's center point, the next center after the
/// original points and the centers of the faces before it. The quads of
/// the faces before come first.
pub proof fn lemma_quad_ring_walks_face(t: HdStMeshTopology, q: HdQuadInfo, f: int, i: int)
    requires
        0 <= f < t.spec_counts().len(),
        !t.is_hole(f),
        t.spec_counts()[f] >= 3,
        t.spec_counts()[f] != 4,
        0 <= i < t.spec_counts()[f],
    ensures
        ({
            let c = t.spec_counts()[f] as int;
            let o = face_offset(t.spec_counts(), f);
            let idx = t.spec_indices();
            let before = t.quads_before(f, q).len() as int;
            let all = t.quads_before(t.spec_counts().len() as int, q);
            &&& before + 4 * c <= all.len()
            &&& all[before + 4 * i] == idx[o + (i + c - 1) % c] as u32
            &&& all[before + 4 * i + 1] == idx[o + i] as u32
            &&& all[before + 4 * i + 2] == idx[o + (i + 1) % c] as u32
            &&& all[before + 4 * i + 3] == ((t.spec_num_points() as u32) as int + t.centers_before(
                f,
                q,
            )) as u32
        }),
{
    let c = t.spec_counts()[f] as int;
    let o = face_offset(t.spec_counts(), f);
    let idx = t.spec_indices();
    let ci = t.center_of(f, q);
    let prev = t.quads_before(f, q);
    let cur = t.quads_before(f + 1, q);
    let n = t.spec_counts().len() as int;
    lemma_ring_quads_shape(idx, o, c, c, ci);
    assert(cur == prev + ring_quads(idx, o, c, c, ci));
    t.lemma_quads_prefix(q, f + 1, n);
    let before = prev.len() as int;
    assert forall|k: int| 0 <= k < 4 implies t.quads_before(n, q)[before + 4 * i + k] == ring_quad(
        idx,
        o,
        c,
        i,
        ci,
    )[k] by {
        assert(cur[before + 4 * i + k] == ring_quads(idx, o, c, c, ci)[4 * i + k]);
        assert(t.quads_before(n, q)[before + 4 * i + k] == cur[before + 4 * i + k]);
    }
    if i == 0 {
        lemma_small_mod((c - 1) as nat, c as nat);
        assert((i + c - 1) % c == c - 1);
    } else {
        lemma_mod_add_multiples_vanish(i - 1, c);
        lemma_small_mod((i - 1) as nat, c as nat);
        assert(c + (i - 1) == i + c - 1);
        assert((i + c - 1) % c == i - 1);
    }
    assert(ring_quad(idx, o, c, i, ci)[0] == idx[o + (i + c - 1) % c] as u32);
    assert(t.quads_before(n, q)[before + 4 * i + 0] == ring_quad(idx, o, c, i, ci)[0]);
}

pub(crate) proof fn lemma_fan_triangles_shape(idx: Seq<i32>, o: int, n: int, rh: bool)
    requires
        0 <= n,
    ensures
        fan_triangles(idx, o, n, rh).len() == 3 * n,
        forall|j: int, k: int|
            0 <= j < n && 0 <= k < 3 ==> #[trigger] fan_triangles(idx, o, n, rh)[3 * j + k]
                == fan_triangle(idx, o, j + 1, rh)[k],
    decreases n,
{
    if n > 0 {
        lemma_fan_triangles_shape(idx, o, n - 1, rh);
        let prev = fan_triangles(idx, o, n - 1, rh);
        let cur = fan_triangles(idx, o, n, rh);
        assert forall|j: int, k: int| 0 <= j < n && 0 <= k < 3 implies #[trigger] cur[3 * j + k]
            == fan_triangle(idx, o, j + 1, rh)[k] by {
            if j < n - 1 {
                assert(cur[3 * j + k] == prev[3 * j + k]);
            }
        }
    }
}

proof fn lemma_fan_edges_shape(n: int, c: int)
    requires
        0 <= n,
    ensures
        fan_edges(n, c).len() == n,
        forall|j: int| 0 <= j < n ==> #[trigger] fan_edges(n, c)[j] == fan_edge_flags(j + 1, c),
    decreases n,
{
    if n > 0 {
        lemma_fan_edges_shape(n - 1, c);
    }
}

impl HdStMeshTopology {
    proof fn lemma_triangles_prefix(self, k: int, m: int)
        requires
            0 <= k <= m,
        ensures
            self.triangles_before(k).len() <= self.triangles_before(m).len(),
            self.triangle_params_before(k).len() <= self.triangle_params_before(m).len(),
            self.edge_flags_before(k).len() <= self.edge_flags_before(m).len(),
            forall|j: int|
                0 <= j < self.triangles_before(k).len() ==> #[trigger] self.triangles_before(m)[j]
                    == self.triangles_before(k)[j],
            forall|j: int|
                0 <= j < self.triangle_params_before(k).len() ==> #[trigger] self.triangle_params_before(
                    m,
                )[j] == self.triangle_params_before(k)[j],
            forall|j: int|
                0 <= j < self.edge_flags_before(k).len() ==> #[trigger] self.edge_flags_before(m)[j]
                    == self.edge_flags_before(k)[j],
        decreases m,
    {
        if k < m {
            self.lemma_triangles_prefix(k, m - 1);
        }
    }

    proof fn lemma_quad_params_prefix(self, k: int, m: int)
        requires
            0 <= k <= m,
        ensures
            self.quad_params_before(k).len() <= self.quad_params_before(m).len(),
            forall|j: int|
                0 <= j < self.quad_params_before(k).len() ==> #[trigger] self.quad_params_before(m)[j]
                    == self.quad_params_before(k)[j],
        decreases m,
    {
        if k < m {
            self.lemma_quad_params_prefix(k, m - 1);
        }
    }
}

/// Triangulation fans each drawn face (not a hole, at least three
/// vertices) from its first vertex: its `j`-th triangle is the first
/// vertex, vertex `j + 1` and vertex `j + 2` (the last two swapped for a
/// left-handed mesh), after the triangles of the faces before. Each of its
/// triangles records the face's index, and its edge flags mark the polygon
/// edge (2) of every triangle, the first edge (1) of the first triangle and
/// the closing edge (4) of the last.
pub proof fn lemma_triangle_fan_of_face(t: HdStMeshTopology, f: int, j: int)
    requires
        0 <= f < t.spec_counts().len(),
        !t.is_hole(f),
        t.spec_counts()[f] >= 3,
        0 <= j < t.spec_counts()[f] - 2,
    ensures
        ({
            let c = t.spec_counts()[f] as int;
            let o = face_offset(t.spec_counts(), f);
            let idx = t.spec_indices();
            let n = t.spec_counts().len() as int;
            let before = t.triangles_before(f).len() as int;
            let pbefore = t.triangle_params_before(f).len() as int;
            let all = t.triangles_before(n);
            &&& before + 3 * (c - 2) <= all.len()
            &&& all[before + 3 * j] == idx[o] as u32
            &&& all[before + 3 * j + 1] == (if t.spec_right_handed() {
                idx[o + j + 1]
            } else {
                idx[o + j + 2]
            }) as u32
            &&& all[before + 3 * j + 2] == (if t.spec_right_handed() {
                idx[o + j + 2]
            } else {
                idx[o + j + 1]
            }) as u32
            &&& pbefore + (c - 2) <= t.triangle_params_before(n).len()
            &&& t.triangle_params_before(n)[pbefore + j] == f as i32
            &&& t.edge_flags_before(n)[pbefore + j] == (if j == 0 {
                1u8
            } else {
                0u8
            }) + 2u8 + (if j == c - 3 {
                4u8
            } else {
                0u8
            })
        }),
{
    let c = t.spec_counts()[f] as int;
    let o = face_offset(t.spec_counts(), f);
    let idx = t.spec_indices();
    let n = t.spec_counts().len() as int;
    let rh = t.spec_right_handed();
    lemma_fan_triangles_shape(idx, o, c - 2, rh);
    lemma_fan_edges_shape(c - 2, c);
    lemma_triangulation_counts(t, f);
    t.lemma_triangles_prefix(f + 1, n);
    let before = t.triangles_before(f).len() as int;
    let pbefore = t.triangle_params_before(f).len() as int;
    assert(t.triangles_before(f + 1) == t.triangles_before(f) + fan_triangles(idx, o, c - 2, rh));
    let ft = fan_triangles(idx, o, c - 2, rh);
    assert(t.triangles_before(f + 1)[before + 3 * j] == ft[3 * j + 0]);
    assert(t.triangles_before(f + 1)[before + 3 * j + 1] == ft[3 * j + 1]);
    assert(t.triangles_before(f + 1)[before + 3 * j + 2] == ft[3 * j + 2]);
    assert(ft[3 * j + 0] == fan_triangle(idx, o, j + 1, rh)[0]);
    assert(ft[3 * j + 1] == fan_triangle(idx, o, j + 1, rh)[1]);
    assert(ft[3 * j + 2] == fan_triangle(idx, o, j + 1, rh)[2]);
    assert(t.triangle_params_before(f + 1)[pbefore + j] == f as i32);
    let flags = t.edge_flags_before(f + 1);
    assert(flags == t.edge_flags_before(f) + fan_edges(c - 2, c));
    assert(flags[pbefore + j] == fan_edge_flags(j + 1, c));
    let a: u8 = if j == 0 { 1u8 } else { 0u8 };
    let b: u8 = if j == c - 3 { 4u8 } else { 0u8 };
    assert((a | 2u8) | b == a + 2u8 + b) by (bit_vector)
        requires
            a == 0 || a == 1,
            b == 0 || b == 4,
    ;
}

/// Quadrangulation passes a drawn quad through as it is, after the quads
/// of the faces before, and every quad a drawn face produces (one for a
/// quad, one per vertex for another face of three or more vertices)
/// records the face's index.
pub proof fn lemma_quad_face_kept_and_params(t: HdStMeshTopology, q: HdQuadInfo, f: int, i: int)
    requires
        0 <= f < t.spec_counts().len(),
        !t.is_hole(f),
        t.spec_counts()[f] >= 3,
        0 <= i < (if t.spec_counts()[f] == 4 {
            1
        } else {
            t.spec_counts()[f] as int
        }),
    ensures
        ({
            let o = face_offset(t.spec_counts(), f);
            let idx = t.spec_indices();
            let n = t.spec_counts().len() as int;
            let before = t.quads_before(f, q).len() as int;
            let all = t.quads_before(n, q);
            &&& t.spec_counts()[f] == 4 ==> {
                &&& before + 4 <= all.len()
                &&& all[before] == idx[o] as u32
                &&& all[before + 1] == idx[o + 1] as u32
                &&& all[before + 2] == idx[o + 2] as u32
                &&& all[before + 3] == idx[o + 3] as u32
            }
            &&& t.quad_params_before(n)[t.quad_params_before(f).len() + i] == f as i32
        }),
{
    let n = t.spec_counts().len() as int;
    t.lemma_quads_prefix(q, f + 1, n);
    t.lemma_quad_params_prefix(f + 1, n);
    let before = t.quads_before(f, q).len() as int;
    let all = t.quads_before(n, q);
    if t.spec_counts()[f] == 4 {
        let cur = t.quads_before(f + 1, q);
        assert(all[before] == cur[before]);
        assert(all[before + 1] == cur[before + 1]);
        assert(all[before + 2] == cur[before + 2]);
        assert(all[before + 3] == cur[before + 3]);
    }
    let pb = t.quad_params_before(f).len() as int;
    assert(t.quad_params_before(f + 1)[pb + i] == f as i32);
}

proof fn lemma_kept_subsets_members(gs: Seq<HdGeomSubset>, k: int)
    requires
        0 <= k <= gs.len(),
    ensures
        forall|j: int|
            0 <= j < kept_subsets(gs, k).len() ==> subset_kept(#[trigger] kept_subsets(gs, k)[j])
                && gs.subrange(0, k).contains(kept_subsets(gs, k)[j]),
        forall|i: int| 0 <= i < k && subset_kept(#[trigger] gs[i]) ==> kept_subsets(gs, k).contains(gs[i]),
    decreases k,
{
    if k > 0 {
        lemma_kept_subsets_members(gs, k - 1);
        let prev = kept_subsets(gs, k - 1);
        let cur = kept_subsets(gs, k);
        assert forall|j: int| 0 <= j < cur.len() implies subset_kept(#[trigger] cur[j])
            && gs.subrange(0, k).contains(cur[j]) by {
            if j < prev.len() {
                assert(cur[j] == prev[j]);
                let w = choose|w: int| 0 <= w < gs.subrange(0, k - 1).len() && #[trigger] gs.subrange(0, k - 1)[w] == prev[j];
                assert(gs.subrange(0, k)[w] == prev[j]);
            } else {
                assert(cur[j] == gs[k - 1]);
                assert(gs.subrange(0, k)[k - 1] == gs[k - 1]);
            }
        }
        assert forall|i: int| 0 <= i < k && subset_kept(#[trigger] gs[i]) implies cur.contains(gs[i]) by {
            if i < k - 1 {
                let w = choose|w: int| 0 <= w < prev.len() && #[trigger] prev[w] == gs[i];
                assert(cur[w] == prev[w]);
            } else {
                assert(cur[prev.len() as int] == gs[k - 1]);
            }
        }
    }
}

proof fn lemma_uncovered_faces_members(gs: Seq<HdGeomSubset>, k: int)
    requires
        0 <= k <= i32::MAX,
    ensures
        forall|j: int|
            0 <= j < uncovered_faces(gs, k).len() ==> {
                let f = #[trigger] uncovered_faces(gs, k)[j] as int;
                &&& 0 <= f < k
                &&& !face_covered(gs, gs.len() as int, f)
            },
        forall|f: int|
            0 <= f < k && !face_covered(gs, gs.len() as int, f) ==> #[trigger] uncovered_faces(
                gs,
                k,
            ).contains(f as i32),
        forall|i: int, j: int|
            0 <= i < j < uncovered_faces(gs, k).len() ==> #[trigger] uncovered_faces(gs, k)[i]
                < #[trigger] uncovered_faces(gs, k)[j],
    decreases k,
{
    if k > 0 {
        lemma_uncovered_faces_members(gs, k - 1);
        let prev = uncovered_faces(gs, k - 1);
        let cur = uncovered_faces(gs, k);
        assert forall|j: int| 0 <= j < cur.len() implies {
            let f = #[trigger] cur[j] as int;
            &&& 0 <= f < k
            &&& !face_covered(gs, gs.len() as int, f)
        } by {
            if j < prev.len() {
                assert(cur[j] == prev[j]);
            }
        }
        assert forall|f: int| 0 <= f < k && !face_covered(gs, gs.len() as int, f) implies #[trigger] cur.contains(
            f as i32,
        ) by {
            if f < k - 1 {
                assert(prev.contains(f as i32));
                let w = choose|w: int| 0 <= w < prev.len() && #[trigger] prev[w] == f as i32;
                assert(cur[w] == prev[w]);
            } else {
                assert(cur[prev.len() as int] == (k - 1) as i32);
            }
        }
        assert forall|i: int, j: int| 0 <= i < j < cur.len() implies #[trigger] cur[i] < #[trigger] cur[j] by {
            if j < prev.len() {
                assert(cur[i] == prev[i]);
                assert(cur[j] == prev[j]);
            } else {
                assert(cur[i] == prev[i]);
                assert((prev[i] as int) < k - 1);
            }
        }
    }
}

/// Sanitizing geom subsets keeps exactly the subsets that name faces and a
/// material, in order; the faces it records as left out are, in increasing
/// order, exactly the faces no kept subset names, and nothing is recorded
/// when no subset is kept or every face is named.
pub proof fn lemma_sanitized_subsets(gs: Seq<HdGeomSubset>, face_count: int)
    requires
        0 <= face_count <= i32::MAX,
    ensures
        ({
            let kept = kept_subsets(gs, gs.len() as int);
            &&& forall|j: int|
                0 <= j < kept.len() ==> (#[trigger] kept[j]).indices@.len() > 0
                    && kept[j].material_id@.len() > 0 && gs.contains(kept[j])
            &&& forall|i: int|
                0 <= i < gs.len() && (#[trigger] gs[i]).indices@.len() > 0
                    && gs[i].material_id@.len() > 0 ==> kept.contains(gs[i])
            &&& match expected_non_subset_faces(gs, face_count) {
                None => kept.len() == 0 || forall|f: int|
                    0 <= f < face_count ==> #[trigger] face_covered(kept, kept.len() as int, f),
                Some(u) => {
                    &&& kept.len() > 0
                    &&& u.len() > 0
                    &&& forall|j: int|
                        0 <= j < u.len() ==> 0 <= #[trigger] u[j] < face_count && !face_covered(
                            kept,
                            kept.len() as int,
                            u[j] as int,
                        )
                    &&& forall|f: int|
                        0 <= f < face_count && !face_covered(kept, kept.len() as int, f)
                            ==> #[trigger] u.contains(f as i32)
                    &&& forall|i: int, j: int| 0 <= i < j < u.len() ==> #[trigger] u[i] < #[trigger] u[j]
                },
            }
        }),
{
    let kept = kept_subsets(gs, gs.len() as int);
    lemma_kept_subsets_members(gs, gs.len() as int);
    assert(gs.subrange(0, gs.len() as int) =~= gs);
    lemma_uncovered_faces_members(kept, face_count);
    let u = uncovered_faces(kept, face_count);
    if kept.len() > 0 && u.len() == 0 {
        assert forall|f: int| 0 <= f < face_count implies #[trigger] face_covered(
            kept,
            kept.len() as int,
            f,
        ) by {
            if !face_covered(kept, kept.len() as int, f) {
                assert(u.contains(f as i32));
            }
        }
    }
}

} // verus!
