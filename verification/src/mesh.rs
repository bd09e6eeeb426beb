//! Storm mesh logic: repr descriptors, the lightweight runtime topology with
//! its fan triangulation, the face-varying index map and the classification
//! of face-varying primvar channels.

use vstd::prelude::*;
use crate::text::str_eq;
use crate::lighting::{push_words, words_bytes};
use crate::int_seq::vec_contains_i32;
use crate::mesh_topology::{counts_nonneg, face_offset, fan_triangles};
use vstd::arithmetic::div_mod::lemma_fundamental_div_mod;
use vstd::arithmetic::mul::lemma_mul_inequality;

pub mod dirty_bits;

verus! {

/// Geometry style of one draw item of a mesh repr.
#[derive(Debug, Clone, Copy, PartialEq, Eq, Structural)]
pub enum MeshGeomStyle {
    Invalid,
    SmoothHull,
    FlatHull,
    HullEdgeOnly,
    HullEdgeOnSurf,
    Hull,
    Refined,
    Points,
}

/// How one draw item of a repr is configured.
#[derive(Debug, Clone, Copy, PartialEq, Eq, Structural)]
pub struct MeshReprDesc {
    /// Geometry drawing style.
    pub geom_style: MeshGeomStyle,
    /// Whether this draw item uses flat shading.
    pub flat_shading: bool,
}

/// One descriptor.
pub open spec fn desc(geom_style: MeshGeomStyle, flat_shading: bool) -> MeshReprDesc {
    MeshReprDesc { geom_style, flat_shading }
}

/// Repr descriptors for a repr name; unknown names fall back to a smooth
/// hull.
pub open spec fn spec_mesh_repr_descs(repr: Seq<char>) -> Seq<MeshReprDesc> {
    if repr == "smoothHull"@ || repr == "refined"@ || repr == ""@ || repr == "default"@ {
        seq![desc(MeshGeomStyle::SmoothHull, false)]
    } else if repr == "hull"@ {
        seq![desc(MeshGeomStyle::Hull, true)]
    } else if repr == "wireOnSurf"@ {
        seq![desc(MeshGeomStyle::SmoothHull, false), desc(MeshGeomStyle::HullEdgeOnSurf, true)]
    } else if repr == "refinedWireOnSurf"@ {
        seq![desc(MeshGeomStyle::Refined, false), desc(MeshGeomStyle::HullEdgeOnSurf, true)]
    } else if repr == "wire"@ || repr == "refinedWire"@ {
        seq![desc(MeshGeomStyle::HullEdgeOnly, true)]
    } else if repr == "points"@ {
        seq![desc(MeshGeomStyle::Points, false)]
    } else {
        seq![desc(MeshGeomStyle::SmoothHull, false)]
    }
}

/// A draw item that draws a surface (smooth, flat or refined).
pub open spec fn is_surface_style(g: MeshGeomStyle) -> bool {
    g is SmoothHull || g is FlatHull || g is Hull || g is Refined
}

/// Every repr has at least one draw item. Exactly the "on surface" reprs
/// (`wireOnSurf`, `refinedWireOnSurf`) draw a wireframe overlay: two items,
/// an unflattened surface first and a flat-shaded hull-edge overlay last,
/// where `wireOnSurf`'s surface is what `smoothHull` draws and
/// `refinedWireOnSurf`'s is the refined surface. Every other repr draws one
/// item and no overlay.
pub proof fn lemma_repr_overlay(repr: Seq<char>)
    ensures
        spec_mesh_repr_descs(repr).len() >= 1,
        (exists|i: int|
            0 <= i < spec_mesh_repr_descs(repr).len() && (#[trigger] spec_mesh_repr_descs(repr)[i]).geom_style
                is HullEdgeOnSurf) <==> (repr == "wireOnSurf"@ || repr == "refinedWireOnSurf"@),
        (repr == "wireOnSurf"@ || repr == "refinedWireOnSurf"@) ==> {
            let d = spec_mesh_repr_descs(repr);
            &&& d.len() == 2
            &&& is_surface_style(d[0].geom_style)
            &&& !d[0].flat_shading
            &&& d[1].geom_style is HullEdgeOnSurf
            &&& d[1].flat_shading
        },
        spec_mesh_repr_descs("wireOnSurf"@)[0] == spec_mesh_repr_descs("smoothHull"@)[0],
        spec_mesh_repr_descs("refinedWireOnSurf"@)[0].geom_style is Refined,
        !(repr == "wireOnSurf"@ || repr == "refinedWireOnSurf"@) ==> spec_mesh_repr_descs(repr).len()
            == 1,
{
    reveal_strlit("smoothHull");
    reveal_strlit("refined");
    reveal_strlit("");
    reveal_strlit("default");
    reveal_strlit("hull");
    reveal_strlit("wireOnSurf");
    reveal_strlit("refinedWireOnSurf");
    reveal_strlit("wire");
    reveal_strlit("refinedWire");
    reveal_strlit("points");
    assert("wireOnSurf"@ != "smoothHull"@) by {
        assert("wireOnSurf"@[0] != "smoothHull"@[0]);
    }
    assert("wireOnSurf"@ != "refined"@) by {
        assert("wireOnSurf"@[0] != "refined"@[0] || "wireOnSurf"@.len() != "refined"@.len());
    }
    assert("wireOnSurf"@ != "default"@) by {
        assert("wireOnSurf"@[0] != "default"@[0] || "wireOnSurf"@.len() != "default"@.len());
    }
    assert("wireOnSurf"@ != "hull"@) by {
        assert("wireOnSurf"@[0] != "hull"@[0] || "wireOnSurf"@.len() != "hull"@.len());
    }
    assert("wireOnSurf"@ != ""@);
    assert("refinedWireOnSurf"@ != "smoothHull"@) by {
        assert("refinedWireOnSurf"@[0] != "smoothHull"@[0] || "refinedWireOnSurf"@.len() != "smoothHull"@.len());
    }
    assert("refinedWireOnSurf"@ != "refined"@) by {
        assert("refinedWireOnSurf"@[0] != "refined"@[0] || "refinedWireOnSurf"@.len() != "refined"@.len());
    }
    assert("refinedWireOnSurf"@ != "default"@) by {
        assert("refinedWireOnSurf"@[0] != "default"@[0] || "refinedWireOnSurf"@.len() != "default"@.len());
    }
    assert("refinedWireOnSurf"@ != "hull"@) by {
        assert("refinedWireOnSurf"@[0] != "hull"@[0] || "refinedWireOnSurf"@.len() != "hull"@.len());
    }
    assert("refinedWireOnSurf"@ != ""@);
    assert("refinedWireOnSurf"@ != "wireOnSurf"@) by {
        assert("refinedWireOnSurf"@[0] != "wireOnSurf"@[0] || "refinedWireOnSurf"@.len() != "wireOnSurf"@.len());
    }
    let d = spec_mesh_repr_descs(repr);
    if repr == "wireOnSurf"@ || repr == "refinedWireOnSurf"@ {
        assert(d[1].geom_style is HullEdgeOnSurf);
    } else {
        assert(d.len() == 1);
        assert(!(d[0].geom_style is HullEdgeOnSurf));
    }
}

/// A repr name that the table lists.
pub open spec fn known_repr(repr: Seq<char>) -> bool {
    repr == "smoothHull"@ || repr == "refined"@ || repr == ""@ || repr == "default"@ || repr
        == "hull"@ || repr == "wireOnSurf"@ || repr == "refinedWireOnSurf"@ || repr == "wire"@
        || repr == "refinedWire"@ || repr == "points"@
}

/// Hull and edge items are flat-shaded and smooth and refined surfaces and
/// points are not, in every repr; an unknown repr draws what `smoothHull`
/// draws; the wire reprs draw only hull edges and `points` only points.
pub proof fn lemma_repr_item_shading(repr: Seq<char>, i: int)
    ensures
        0 <= i < spec_mesh_repr_descs(repr).len() ==> {
            let d = spec_mesh_repr_descs(repr)[i];
            d.flat_shading <==> (d.geom_style is Hull || d.geom_style is FlatHull || d.geom_style
                is HullEdgeOnly || d.geom_style is HullEdgeOnSurf)
        },
        !known_repr(repr) ==> spec_mesh_repr_descs(repr) == spec_mesh_repr_descs("smoothHull"@),
        (repr == "wire"@ || repr == "refinedWire"@) ==> (forall|k: int|
            0 <= k < spec_mesh_repr_descs(repr).len() ==> (#[trigger] spec_mesh_repr_descs(
                repr,
            )[k]).geom_style is HullEdgeOnly),
        repr == "points"@ ==> (forall|k: int|
            0 <= k < spec_mesh_repr_descs(repr).len() ==> (#[trigger] spec_mesh_repr_descs(
                repr,
            )[k]).geom_style is Points),
        repr == "hull"@ ==> spec_mesh_repr_descs(repr)[0].geom_style is Hull,
{
    reveal_strlit("smoothHull");
    reveal_strlit("refined");
    reveal_strlit("");
    reveal_strlit("default");
    reveal_strlit("hull");
    reveal_strlit("wireOnSurf");
    reveal_strlit("refinedWireOnSurf");
    reveal_strlit("wire");
    reveal_strlit("refinedWire");
    reveal_strlit("points");
    assert("wire"@ != "hull"@) by {
        assert("wire"@[0] != "hull"@[0]);
    }
    assert("refinedWire"@ != "refined"@) by {
        assert("refinedWire"@.len() != "refined"@.len());
    }
    assert("refinedWire"@ != "smoothHull"@) by {
        assert("refinedWire"@[0] != "smoothHull"@[0]);
    }
    assert("refinedWire"@ != "default"@) by {
        assert("refinedWire"@[0] != "default"@[0]);
    }
    assert("refinedWire"@ != "refinedWireOnSurf"@) by {
        assert("refinedWire"@.len() != "refinedWireOnSurf"@.len());
    }
    assert("wire"@ != "wireOnSurf"@) by {
        assert("wire"@.len() != "wireOnSurf"@.len());
    }
    assert("points"@ != "smoothHull"@) by {
        assert("points"@[0] != "smoothHull"@[0]);
    }
    assert("points"@ != "refined"@) by {
        assert("points"@[0] != "refined"@[0]);
    }
    assert("points"@ != "default"@) by {
        assert("points"@[0] != "default"@[0]);
    }
    assert("points"@ != "hull"@) by {
        assert("points"@[0] != "hull"@[0]);
    }
    assert("points"@ != "wire"@) by {
        assert("points"@[0] != "wire"@[0]);
    }
    assert("points"@ != "wireOnSurf"@) by {
        assert("points"@[0] != "wireOnSurf"@[0]);
    }
    assert("points"@ != "refinedWire"@) by {
        assert("points"@[0] != "refinedWire"@[0]);
    }
    assert("points"@ != "refinedWireOnSurf"@) by {
        assert("points"@[0] != "refinedWireOnSurf"@[0]);
    }
    assert("hull"@ != "smoothHull"@) by {
        assert("hull"@[0] != "smoothHull"@[0]);
    }
    assert("hull"@ != "refined"@) by {
        assert("hull"@[0] != "refined"@[0]);
    }
    assert("hull"@ != "default"@) by {
        assert("hull"@[0] != "default"@[0]);
    }
    assert("wire"@ != "smoothHull"@) by {
        assert("wire"@[0] != "smoothHull"@[0]);
    }
    assert("wire"@ != "refined"@) by {
        assert("wire"@[0] != "refined"@[0]);
    }
    assert("wire"@ != "default"@) by {
        assert("wire"@[0] != "default"@[0]);
    }
    assert("refinedWire"@ != "hull"@) by {
        assert("refinedWire"@[0] != "hull"@[0]);
    }
    assert("refinedWire"@ != "wireOnSurf"@) by {
        assert("refinedWire"@[0] != "wireOnSurf"@[0]);
    }
    assert("wire"@ != "refinedWireOnSurf"@) by {
        assert("wire"@[0] != "refinedWireOnSurf"@[0]);
    }
    assert("wire"@ != ""@) by {
        assert("wire"@.len() != ""@.len());
    }
    assert("refinedWire"@ != ""@) by {
        assert("refinedWire"@.len() != ""@.len());
    }
    assert("points"@ != ""@) by {
        assert("points"@.len() != ""@.len());
    }
    assert("hull"@ != ""@) by {
        assert("hull"@.len() != ""@.len());
    }
    if repr == "wire"@ || repr == "refinedWire"@ {
        assert(spec_mesh_repr_descs(repr) == seq![desc(MeshGeomStyle::HullEdgeOnly, true)]);
    }
    if repr == "points"@ {
        assert(spec_mesh_repr_descs(repr) == seq![desc(MeshGeomStyle::Points, false)]);
    }
}

/// The draw-item descriptors of a repr.
pub fn get_mesh_repr_descs(repr_token: &str) -> (v: Vec<MeshReprDesc>)
    ensures
        v@ == spec_mesh_repr_descs(repr_token@),
{
    if str_eq(repr_token, "smoothHull") || str_eq(repr_token, "refined") || str_eq(repr_token, "")
        || str_eq(repr_token, "default") {
        vec![MeshReprDesc { geom_style: MeshGeomStyle::SmoothHull, flat_shading: false }]
    } else if str_eq(repr_token, "hull") {
        vec![MeshReprDesc { geom_style: MeshGeomStyle::Hull, flat_shading: true }]
    } else if str_eq(repr_token, "wireOnSurf") {
        vec![
            MeshReprDesc { geom_style: MeshGeomStyle::SmoothHull, flat_shading: false },
            MeshReprDesc { geom_style: MeshGeomStyle::HullEdgeOnSurf, flat_shading: true },
        ]
    } else if str_eq(repr_token, "refinedWireOnSurf") {
        vec![
            MeshReprDesc { geom_style: MeshGeomStyle::Refined, flat_shading: false },
            MeshReprDesc { geom_style: MeshGeomStyle::HullEdgeOnSurf, flat_shading: true },
        ]
    } else if str_eq(repr_token, "wire") || str_eq(repr_token, "refinedWire") {
        vec![MeshReprDesc { geom_style: MeshGeomStyle::HullEdgeOnly, flat_shading: true }]
    } else if str_eq(repr_token, "points") {
        vec![MeshReprDesc { geom_style: MeshGeomStyle::Points, flat_shading: false }]
    } else {
        vec![MeshReprDesc { geom_style: MeshGeomStyle::SmoothHull, flat_shading: false }]
    }
}

/// Authored primvar data with `count` entries is face-varying: it is
/// non-empty, does not match the vertex count and matches the face-varying
/// count.
pub fn is_face_varying_channel(count: usize, vertex_count: usize, face_varying_count: usize) -> (b:
    bool)
    ensures
        b == (count > 0 && count != vertex_count && count == face_varying_count),
{
    count > 0 && count != vertex_count && count == face_varying_count
}

/// Runtime mesh topology: face data, hole faces, orientation, subdivision
/// scheme and the explicit point count.
#[derive(Debug, Clone)]
pub struct HdStMeshTopology {
    /// Number of vertices per face.
    pub face_vertex_counts: Vec<i32>,
    /// Vertex indices of all faces, flattened.
    pub face_vertex_indices: Vec<i32>,
    /// Indices of hole faces to skip.
    pub hole_indices: Vec<i32>,
    /// Orientation (true = right-handed).
    pub right_handed: bool,
    /// Subdivision scheme (e.g. "none", "catmullClark", "loop").
    pub subdivision_scheme: String,
    /// Explicit point count; 0 when unknown.
    pub num_points: usize,
}

/// Face `f` is named by a non-negative hole index.
pub open spec fn hole_named(holes: Seq<i32>, f: int) -> bool {
    exists|k: int| 0 <= k < holes.len() && holes[k] >= 0 && #[trigger] (holes[k] as int) == f
}

/// Largest vertex index as `usize`, plus one, over the first `k` indices.
pub open spec fn max_index_plus_one(idx: Seq<i32>, k: int) -> int
    decreases k,
{
    if k <= 0 {
        0
    } else {
        let m = max_index_plus_one(idx, k - 1);
        let p = (idx[k - 1] as usize) as int + 1;
        if p > m {
            p
        } else {
            m
        }
    }
}

impl HdStMeshTopology {
    /// Face `f` is drawn: not a hole and at least three vertices.
    pub open spec fn drawn(self, f: int) -> bool {
        !hole_named(self.hole_indices@, f) && self.face_vertex_counts@[f] >= 3
    }

    /// Drawn face `f` needs more vertex indices than there are.
    pub open spec fn short(self, f: int) -> bool {
        face_offset(self.face_vertex_counts@, f) + self.face_vertex_counts@[f]
            > self.face_vertex_indices@.len()
    }

    /// Triangulation stopped at or before face `k - 1` because a drawn face
    /// ran past the end of the vertex indices.
    pub open spec fn halted(self, k: int) -> bool
        decreases k,
    {
        if k <= 0 {
            false
        } else {
            self.halted(k - 1) || (self.drawn(k - 1) && self.short(k - 1))
        }
    }

    /// Triangle indices of the first `k` faces.
    pub open spec fn triangles_before(self, k: int) -> Seq<u32>
        decreases k,
    {
        if k <= 0 {
            seq![]
        } else if self.halted(k) {
            self.triangles_before(k - 1)
        } else if self.drawn(k - 1) {
            self.triangles_before(k - 1) + fan_triangles(
                self.face_vertex_indices@,
                face_offset(self.face_vertex_counts@, k - 1),
                self.face_vertex_counts@[k - 1] - 2,
                self.right_handed,
            )
        } else {
            self.triangles_before(k - 1)
        }
    }

    /// Face-varying index map of the first `k` faces: for each fan triangle,
    /// the face-vertex positions of its corners (always right-handed).
    pub open spec fn fvar_map_before(self, k: int) -> Seq<u32>
        decreases k,
    {
        if k <= 0 {
            seq![]
        } else if !self.hole_listed(k - 1) && self.face_vertex_counts@[k - 1] >= 3 {
            self.fvar_map_before(k - 1) + fvar_fan(
                face_offset(self.face_vertex_counts@, k - 1),
                self.face_vertex_counts@[k - 1] - 2,
            )
        } else {
            self.fvar_map_before(k - 1)
        }
    }

    /// Face `f` is listed among the hole indices.
    pub open spec fn hole_listed(self, f: int) -> bool {
        self.hole_indices@.contains(f as i32)
    }

    /// Empty topology, right-handed, no subdivision.
    pub fn new() -> (t: Self)
        ensures
            t.face_vertex_counts@.len() == 0,
            t.face_vertex_indices@.len() == 0,
            t.hole_indices@.len() == 0,
            t.right_handed,
            t.subdivision_scheme@ == "none"@,
            t.num_points == 0,
    {
        HdStMeshTopology {
            face_vertex_counts: Vec::new(),
            face_vertex_indices: Vec::new(),
            hole_indices: Vec::new(),
            right_handed: true,
            subdivision_scheme: String::from_str("none"),
            num_points: 0,
        }
    }

    /// Topology from face data, right-handed, no subdivision.
    pub fn from_faces(counts: Vec<i32>, indices: Vec<i32>) -> (t: Self)
        ensures
            t.face_vertex_counts@ == counts@,
            t.face_vertex_indices@ == indices@,
            t.hole_indices@.len() == 0,
            t.right_handed,
            t.subdivision_scheme@ == "none"@,
            t.num_points == 0,
    {
        HdStMeshTopology {
            face_vertex_counts: counts,
            face_vertex_indices: indices,
            hole_indices: Vec::new(),
            right_handed: true,
            subdivision_scheme: String::from_str("none"),
            num_points: 0,
        }
    }

    /// Number of faces.
    pub fn get_face_count(&self) -> (n: usize)
        ensures
            n == self.face_vertex_counts@.len(),
    {
        self.face_vertex_counts.len()
    }

    /// The explicit point count when set, otherwise one more than the
    /// largest vertex index (each taken as `usize`), or 0 without indices.
    pub fn get_vertex_count(&self) -> (n: usize)
        requires
            self.num_points == 0 ==> forall|k: int|
                0 <= k < self.face_vertex_indices@.len() ==> (#[trigger] self.face_vertex_indices@[k]
                    as usize) < usize::MAX,
        ensures
            n == (if self.num_points > 0 {
                self.num_points as int
            } else {
                max_index_plus_one(self.face_vertex_indices@, self.face_vertex_indices@.len() as int)
            }),
    {
        if self.num_points > 0 {
            return self.num_points;
        }
        let mut m: usize = 0;
        let mut k: usize = 0;
        while k < self.face_vertex_indices.len()
            invariant
                k <= self.face_vertex_indices@.len(),
                m == max_index_plus_one(self.face_vertex_indices@, k as int),
                forall|j: int|
                    0 <= j < self.face_vertex_indices@.len() ==> (#[trigger] self.face_vertex_indices@[j]
                        as usize) < usize::MAX,
            decreases self.face_vertex_indices.len() - k,
        {
            let u = self.face_vertex_indices[k] as usize;
            if u + 1 > m {
                m = u + 1;
            }
            k = k + 1;
        }
        m
    }

    /// Sets the explicit point count.
    pub fn set_num_points(&mut self, n: usize)
        ensures
            final(self).num_points == n,
            final(self).face_vertex_counts@ == old(self).face_vertex_counts@,
            final(self).face_vertex_indices@ == old(self).face_vertex_indices@,
            final(self).hole_indices@ == old(self).hole_indices@,
            final(self).right_handed == old(self).right_handed,
            final(self).subdivision_scheme@ == old(self).subdivision_scheme@,
    {
        self.num_points = n;
    }

    /// Per-face hole mask, when there are hole indices: negative and
    /// out-of-range hole indices are ignored.
    fn build_hole_mask(&self) -> (mask: Option<Vec<bool>>)
        ensures
            match mask {
                None => self.hole_indices@.len() == 0,
                Some(m) => {
                    &&& m@.len() == self.face_vertex_counts@.len()
                    &&& forall|f: int|
                        0 <= f < m@.len() ==> #[trigger] m@[f] == hole_named(self.hole_indices@, f)
                },
            },
    {
        if self.hole_indices.len() == 0 {
            return None;
        }
        let n = self.face_vertex_counts.len();
        let mut mask: Vec<bool> = Vec::new();
        let mut f: usize = 0;
        while f < n
            invariant
                f <= n,
                mask@.len() == f,
                forall|x: int| 0 <= x < f ==> !#[trigger] mask@[x],
            decreases n - f,
        {
            mask.push(false);
            f = f + 1;
        }
        let mut k: usize = 0;
        while k < self.hole_indices.len()
            invariant
                n == self.face_vertex_counts@.len(),
                k <= self.hole_indices@.len(),
                mask@.len() == n,
                forall|x: int|
                    0 <= x < n ==> #[trigger] mask@[x] == hole_named(
                        self.hole_indices@.subrange(0, k as int),
                        x,
                    ),
            decreases self.hole_indices.len() - k,
        {
            let h = self.hole_indices[k];
            let ghost pre = self.hole_indices@.subrange(0, k as int);
            let ghost post = self.hole_indices@.subrange(0, k as int + 1);
            if h >= 0 {
                let idx = h as usize;
                if idx < mask.len() {
                    mask.set(idx, true);
                }
            }
            proof {
                assert forall|x: int| 0 <= x < n implies #[trigger] mask@[x] == hole_named(post, x) by {
                    if hole_named(pre, x) {
                        let kk = choose|kk: int|
                            0 <= kk < pre.len() && pre[kk] >= 0 && #[trigger] (pre[kk] as int) == x;
                        assert(post[kk] == pre[kk]);
                    }
                    if hole_named(post, x) && !hole_named(pre, x) {
                        let kk = choose|kk: int|
                            0 <= kk < post.len() && post[kk] >= 0 && #[trigger] (post[kk] as int)
                                == x;
                        if kk < k {
                            assert(pre[kk] == post[kk]);
                        }
                    }
                    if h >= 0 && h as int == x {
                        assert(post[k as int] == h);
                    }
                }
            }
            k = k + 1;
        }
        assert(self.hole_indices@.subrange(0, k as int) =~= self.hole_indices@);
        Some(mask)
    }

    /// Fan triangulation of every drawn face; stops at the first drawn face
    /// whose vertices run past the end of the vertex indices. Left-handed
    /// meshes swap the last two vertices of each triangle. Returns the
    /// indices and the triangle count.
    pub fn triangulate(&self) -> (r: (Vec<u32>, usize))
        requires
            counts_nonneg(self.face_vertex_counts@),
            face_offset(self.face_vertex_counts@, self.face_vertex_counts@.len() as int)
                <= usize::MAX,
        ensures
            r.0@ == self.triangles_before(self.face_vertex_counts@.len() as int),
            r.1 == r.0@.len() / 3,
    {
        let hole_mask = self.build_hole_mask();
        let mut triangles: Vec<u32> = Vec::new();
        let mut index_offset: usize = 0;
        let n = self.face_vertex_counts.len();
        let mut face_idx: usize = 0;
        let mut stopped = false;
        while face_idx < n
            invariant
                n == self.face_vertex_counts@.len(),
                counts_nonneg(self.face_vertex_counts@),
                face_offset(self.face_vertex_counts@, n as int) <= usize::MAX,
                face_idx <= n,
                stopped ==> face_idx == n,
                !stopped ==> index_offset == face_offset(self.face_vertex_counts@, face_idx as int),
                stopped == self.halted(face_idx as int),
                triangles@ == self.triangles_before(face_idx as int),
                match hole_mask {
                    None => self.hole_indices@.len() == 0,
                    Some(m) => {
                        &&& m@.len() == n
                        &&& forall|f: int|
                            0 <= f < n ==> #[trigger] m@[f] == hole_named(self.hole_indices@, f)
                    },
                },
            decreases n - face_idx,
        {
            proof {
                crate::mesh_topology::lemma_offset_bounds(
                    self.face_vertex_counts@,
                    face_idx as int + 1,
                    n as int,
                );
            }
            let count = self.face_vertex_counts[face_idx] as usize;
            let is_hole = match &hole_mask {
                Some(m) => m[face_idx],
                None => false,
            };
            if !is_hole && count >= 3 && index_offset + count > self.face_vertex_indices.len() {
                stopped = true;
                proof {
                    assert(self.halted(face_idx as int + 1));
                    lemma_halted_stays(*self, face_idx as int + 1, n as int);
                    lemma_halted_triangles(*self, face_idx as int + 1, n as int);
                }
                face_idx = n;
            } else {
                if !is_hole && count >= 3 {
                    let first_idx = self.face_vertex_indices[index_offset] as u32;
                    let ghost base = triangles@;
                    let mut i: usize = 1;
                    while i < count - 1
                        invariant
                            3 <= count,
                            1 <= i <= count - 1,
                            index_offset + count <= self.face_vertex_indices@.len(),
                            first_idx == self.face_vertex_indices@[index_offset as int] as u32,
                            triangles@ == base + fan_triangles(
                                self.face_vertex_indices@,
                                index_offset as int,
                                i - 1,
                                self.right_handed,
                            ),
                        decreases count - 1 - i,
                    {
                        assert(i + 1 < count);
                        assert(index_offset + count <= self.face_vertex_indices.len());
                        let idx1 = self.face_vertex_indices[index_offset + i] as u32;
                        let idx2 = self.face_vertex_indices[index_offset + i + 1] as u32;
                        if self.right_handed {
                            triangles.push(first_idx);
                            triangles.push(idx1);
                            triangles.push(idx2);
                        } else {
                            triangles.push(first_idx);
                            triangles.push(idx2);
                            triangles.push(idx1);
                        }
                        i = i + 1;
                        assert(triangles@ =~= base + fan_triangles(
                            self.face_vertex_indices@,
                            index_offset as int,
                            i - 1,
                            self.right_handed,
                        ));
                    }
                }
                index_offset = index_offset + count;
                face_idx = face_idx + 1;
            }
        }
        let tri_count = triangles.len() / 3;
        (triangles, tri_count)
    }
}

impl HdStMeshTopology {
    /// Subdivision produces triangles (Loop scheme).
    pub fn refines_to_triangles(&self) -> (b: bool)
        ensures
            b == (self.subdivision_scheme@ == "loop"@),
    {
        str_eq(self.subdivision_scheme.as_str(), "loop")
    }
}

proof fn lemma_halted_stays(t: HdStMeshTopology, j: int, k: int)
    requires
        0 <= j <= k,
        t.halted(j),
    ensures
        t.halted(k),
    decreases k - j,
{
    if j < k {
        lemma_halted_stays(t, j, k - 1);
    }
}

proof fn lemma_halted_triangles(t: HdStMeshTopology, j: int, k: int)
    requires
        0 <= j <= k,
        t.halted(j),
    ensures
        t.triangles_before(k) == t.triangles_before(j),
    decreases k - j,
{
    if j < k {
        lemma_halted_triangles(t, j, k - 1);
        lemma_halted_stays(t, j, k);
    }
}

/// Tuple `i` of an array of `c`-component tuples.
pub open spec fn tuple_at(src: Seq<u32>, c: int, i: int) -> Seq<u32> {
    src.subrange(i * c, i * c + c)
}

/// Values of fan triangle `i` (1-based) of a face whose face-vertices start
/// at `o`: the hub's tuple, then the two rim tuples (swapped when
/// left-handed).
pub open spec fn fv_fan_triangle(src: Seq<u32>, c: int, o: int, i: int, right_handed: bool) -> Seq<u32> {
    if right_handed {
        tuple_at(src, c, o) + tuple_at(src, c, o + i) + tuple_at(src, c, o + i + 1)
    } else {
        tuple_at(src, c, o) + tuple_at(src, c, o + i + 1) + tuple_at(src, c, o + i)
    }
}

/// Values of the first `n` fan triangles of a face.
pub open spec fn fv_fan(src: Seq<u32>, c: int, o: int, n: int, right_handed: bool) -> Seq<u32>
    decreases n,
{
    if n <= 0 {
        seq![]
    } else {
        fv_fan(src, c, o, n - 1, right_handed) + fv_fan_triangle(src, c, o, n, right_handed)
    }
}

/// Tuple of vertex `v`, or `c` zero words past the last whole tuple.
pub open spec fn vertex_tuple(src: Seq<u32>, c: int, v: int) -> Seq<u32> {
    if v < (src.len() as int) / c {
        tuple_at(src, c, v)
    } else {
        Seq::new(c as nat, |k: int| 0u32)
    }
}

/// Vertex values of fan triangle `i` (1-based) of a face whose vertex
/// indices start at `o`.
pub open spec fn vertex_fan_triangle(
    idx: Seq<i32>,
    src: Seq<u32>,
    c: int,
    o: int,
    i: int,
    right_handed: bool,
) -> Seq<u32> {
    let hub = vertex_tuple(src, c, (idx[o] as usize) as int);
    let a = vertex_tuple(src, c, (idx[o + i] as usize) as int);
    let b = vertex_tuple(src, c, (idx[o + i + 1] as usize) as int);
    if right_handed {
        hub + a + b
    } else {
        hub + b + a
    }
}

/// Vertex values of the first `n` fan triangles of a face.
pub open spec fn vertex_fan(idx: Seq<i32>, src: Seq<u32>, c: int, o: int, n: int, right_handed: bool) -> Seq<u32>
    decreases n,
{
    if n <= 0 {
        seq![]
    } else {
        vertex_fan(idx, src, c, o, n - 1, right_handed) + vertex_fan_triangle(idx, src, c, o, n, right_handed)
    }
}

impl HdStMeshTopology {
    /// Drawn face `f` needs face-varying tuples past the end of `len` words.
    pub open spec fn fv_short(self, len: int, c: int, f: int) -> bool {
        (face_offset(self.face_vertex_counts@, f) + self.face_vertex_counts@[f]) * c > len
    }

    /// Face-varying triangulation stopped at or before face `k - 1`.
    pub open spec fn fv_halted(self, len: int, c: int, k: int) -> bool
        decreases k,
    {
        if k <= 0 {
            false
        } else {
            self.fv_halted(len, c, k - 1) || (self.drawn(k - 1) && self.fv_short(len, c, k - 1))
        }
    }

    /// Triangulated face-varying values of the first `k` faces.
    pub open spec fn fv_values_before(self, src: Seq<u32>, c: int, k: int) -> Seq<u32>
        decreases k,
    {
        if k <= 0 {
            seq![]
        } else if self.fv_halted(src.len() as int, c, k) {
            self.fv_values_before(src, c, k - 1)
        } else if self.drawn(k - 1) {
            self.fv_values_before(src, c, k - 1) + fv_fan(
                src,
                c,
                face_offset(self.face_vertex_counts@, k - 1),
                self.face_vertex_counts@[k - 1] - 2,
                self.right_handed,
            )
        } else {
            self.fv_values_before(src, c, k - 1)
        }
    }

    /// Triangulated per-vertex values of the first `k` faces.
    pub open spec fn vertex_values_before(self, src: Seq<u32>, c: int, k: int) -> Seq<u32>
        decreases k,
    {
        if k <= 0 {
            seq![]
        } else if self.halted(k) {
            self.vertex_values_before(src, c, k - 1)
        } else if self.drawn(k - 1) {
            self.vertex_values_before(src, c, k - 1) + vertex_fan(
                self.face_vertex_indices@,
                src,
                c,
                face_offset(self.face_vertex_counts@, k - 1),
                self.face_vertex_counts@[k - 1] - 2,
                self.right_handed,
            )
        } else {
            self.vertex_values_before(src, c, k - 1)
        }
    }

    /// Fan-triangulates a face-varying primvar of `components`-word tuples
    /// (one tuple per face-vertex, as `f32` bit patterns), in the order of
    /// the triangle indices; stops at the first drawn face whose tuples run
    /// past the end of `src`.
    pub fn triangulate_fv(&self, src: &[u32], components: usize) -> (dst: Vec<u32>)
        requires
            counts_nonneg(self.face_vertex_counts@),
            face_offset(self.face_vertex_counts@, self.face_vertex_counts@.len() as int) <= usize::MAX,
            face_offset(self.face_vertex_counts@, self.face_vertex_counts@.len() as int) * components
                <= usize::MAX,
        ensures
            dst@ == self.fv_values_before(src@, components as int, self.face_vertex_counts@.len() as int),
    {
        let ghost c = components as int;
        let ghost total = face_offset(self.face_vertex_counts@, self.face_vertex_counts@.len() as int);
        let hole_mask = self.build_hole_mask();
        let mut dst: Vec<u32> = Vec::new();
        let mut offset: usize = 0;
        let n = self.face_vertex_counts.len();
        let mut face_idx: usize = 0;
        while face_idx < n
            invariant
                n == self.face_vertex_counts@.len(),
                c == components,
                total == face_offset(self.face_vertex_counts@, n as int),
                counts_nonneg(self.face_vertex_counts@),
                total <= usize::MAX,
                total * components <= usize::MAX,
                face_idx <= n,
                !self.fv_halted(src@.len() as int, c, face_idx as int) ==> offset == face_offset(
                    self.face_vertex_counts@,
                    face_idx as int,
                ),
                self.fv_halted(src@.len() as int, c, face_idx as int) ==> face_idx == n,
                dst@ == self.fv_values_before(src@, c, face_idx as int),
                match hole_mask {
                    None => self.hole_indices@.len() == 0,
                    Some(m) => {
                        &&& m@.len() == n
                        &&& forall|f: int|
                            0 <= f < n ==> #[trigger] m@[f] == hole_named(self.hole_indices@, f)
                    },
                },
            decreases n - face_idx,
        {
            proof {
                crate::mesh_topology::lemma_offset_bounds(self.face_vertex_counts@, face_idx as int + 1, n as int);
                lemma_mul_inequality(face_idx_end(*self, face_idx as int), total, c);
            }
            let count = self.face_vertex_counts[face_idx] as usize;
            let is_hole = match &hole_mask {
                Some(m) => m[face_idx],
                None => false,
            };
            if !is_hole && count >= 3 && (offset + count) * components > src.len() {
                proof {
                    assert(self.fv_halted(src@.len() as int, c, face_idx as int + 1));
                    lemma_fv_halted_stays(*self, src@.len() as int, c, face_idx as int + 1, n as int);
                    lemma_fv_halted_values(*self, src@, c, face_idx as int + 1, n as int);
                }
                face_idx = n;
            } else {
                if !is_hole && count >= 3 {
                    let ghost base = dst@;
                    let mut i: usize = 1;
                    while i < count - 1
                        invariant
                            3 <= count,
                            1 <= i <= count - 1,
                            c == components,
                            offset + count <= usize::MAX,
                            (offset + count) * components <= usize::MAX,
                            (offset + count) * components <= src@.len(),
                            dst@ == base + fv_fan(src@, c, offset as int, i - 1, self.right_handed),
                        decreases count - 1 - i,
                    {
                        let i0 = offset;
                        let i1 = if self.right_handed { offset + i } else { offset + i + 1 };
                        let i2 = if self.right_handed { offset + i + 1 } else { offset + i };
                        let ghost before = dst@;
                        proof {
                            lemma_mul_inequality(i0 as int + 1, (offset + count) as int, c);
                            lemma_mul_inequality(i1 as int + 1, (offset + count) as int, c);
                            lemma_mul_inequality(i2 as int + 1, (offset + count) as int, c);
                            assert((i0 as int + 1) * c == i0 * c + c) by (nonlinear_arith);
                            assert((i1 as int + 1) * c == i1 * c + c) by (nonlinear_arith);
                            assert((i2 as int + 1) * c == i2 * c + c) by (nonlinear_arith);
                        }
                        push_tuple(&mut dst, src, i0 * components, components);
                        push_tuple(&mut dst, src, i1 * components, components);
                        push_tuple(&mut dst, src, i2 * components, components);
                        i = i + 1;
                        proof {
                            let t = fv_fan_triangle(src@, c, offset as int, (i - 1) as int, self.right_handed);
                            assert(dst@ =~= before + t);
                            vstd::seq_lib::lemma_concat_associative(
                                base,
                                fv_fan(src@, c, offset as int, i - 2, self.right_handed),
                                t,
                            );
                        }
                    }
                }
                offset = offset + count;
                face_idx = face_idx + 1;
            }
        }
        dst
    }

    /// Expands per-vertex tuples through the face-vertex indices and
    /// fan-triangulates them; an index past the last whole tuple reads as
    /// zeros. Stops at the first drawn face whose vertices run past the end
    /// of the face-vertex indices.
    pub fn expand_and_triangulate(&self, src: &[u32], components: usize) -> (dst: Vec<u32>)
        requires
            components > 0,
            counts_nonneg(self.face_vertex_counts@),
            face_offset(self.face_vertex_counts@, self.face_vertex_counts@.len() as int) <= usize::MAX,
        ensures
            dst@ == self.vertex_values_before(src@, components as int, self.face_vertex_counts@.len() as int),
    {
        let ghost c = components as int;
        let hole_mask = self.build_hole_mask();
        let mut dst: Vec<u32> = Vec::new();
        let mut fvi_offset: usize = 0;
        let n_verts = src.len() / components;
        let n = self.face_vertex_counts.len();
        let mut face_idx: usize = 0;
        while face_idx < n
            invariant
                n == self.face_vertex_counts@.len(),
                c == components,
                components > 0,
                n_verts == (src@.len() as int) / c,
                counts_nonneg(self.face_vertex_counts@),
                face_offset(self.face_vertex_counts@, n as int) <= usize::MAX,
                face_idx <= n,
                !self.halted(face_idx as int) ==> fvi_offset == face_offset(self.face_vertex_counts@, face_idx as int),
                self.halted(face_idx as int) ==> face_idx == n,
                dst@ == self.vertex_values_before(src@, c, face_idx as int),
                match hole_mask {
                    None => self.hole_indices@.len() == 0,
                    Some(m) => {
                        &&& m@.len() == n
                        &&& forall|f: int|
                            0 <= f < n ==> #[trigger] m@[f] == hole_named(self.hole_indices@, f)
                    },
                },
            decreases n - face_idx,
        {
            proof {
                crate::mesh_topology::lemma_offset_bounds(self.face_vertex_counts@, face_idx as int + 1, n as int);
            }
            let count = self.face_vertex_counts[face_idx] as usize;
            let is_hole = match &hole_mask {
                Some(m) => m[face_idx],
                None => false,
            };
            if !is_hole && count >= 3 && fvi_offset + count > self.face_vertex_indices.len() {
                proof {
                    assert(self.halted(face_idx as int + 1));
                    lemma_halted_stays(*self, face_idx as int + 1, n as int);
                    lemma_halted_vertex_values(*self, src@, c, face_idx as int + 1, n as int);
                }
                face_idx = n;
            } else {
                if !is_hole && count >= 3 {
                    let ghost base = dst@;
                    let hub = self.face_vertex_indices[fvi_offset] as usize;
                    let mut i: usize = 1;
                    while i < count - 1
                        invariant
                            3 <= count,
                            1 <= i <= count - 1,
                            c == components,
                            components > 0,
                            n_verts == (src@.len() as int) / c,
                            fvi_offset + count <= self.face_vertex_indices@.len(),
                            fvi_offset + count <= usize::MAX,
                            hub == (self.face_vertex_indices@[fvi_offset as int] as usize),
                            dst@ == base + vertex_fan(
                                self.face_vertex_indices@,
                                src@,
                                c,
                                fvi_offset as int,
                                i - 1,
                                self.right_handed,
                            ),
                        decreases count - 1 - i,
                    {
                        let a = if self.right_handed {
                            self.face_vertex_indices[fvi_offset + i] as usize
                        } else {
                            self.face_vertex_indices[fvi_offset + i + 1] as usize
                        };
                        let b = if self.right_handed {
                            self.face_vertex_indices[fvi_offset + i + 1] as usize
                        } else {
                            self.face_vertex_indices[fvi_offset + i] as usize
                        };
                        let ghost before = dst@;
                        copy_vert(&mut dst, src, components, n_verts, hub);
                        copy_vert(&mut dst, src, components, n_verts, a);
                        copy_vert(&mut dst, src, components, n_verts, b);
                        i = i + 1;
                        proof {
                            let t = vertex_fan_triangle(
                                self.face_vertex_indices@,
                                src@,
                                c,
                                fvi_offset as int,
                                (i - 1) as int,
                                self.right_handed,
                            );
                            assert(dst@ =~= before + t);
                            vstd::seq_lib::lemma_concat_associative(
                                base,
                                vertex_fan(self.face_vertex_indices@, src@, c, fvi_offset as int, i - 2, self.right_handed),
                                t,
                            );
                        }
                    }
                }
                fvi_offset = fvi_offset + count;
                face_idx = face_idx + 1;
            }
        }
        dst
    }
}

/// End of face `f`'s face-vertices.
spec fn face_idx_end(t: HdStMeshTopology, f: int) -> int {
    face_offset(t.face_vertex_counts@, f) + t.face_vertex_counts@[f]
}

/// Appends `len` words of `src` from `start`.
fn push_tuple(dst: &mut Vec<u32>, src: &[u32], start: usize, len: usize)
    requires
        start + len <= src@.len(),
    ensures
        final(dst)@ == old(dst)@ + src@.subrange(start as int, start + len),
{
    let ghost base = dst@;
    let slen = src.len();
    let mut k: usize = 0;
    while k < len
        invariant
            k <= len,
            slen == src@.len(),
            start + len <= src@.len(),
            dst@ == base + src@.subrange(start as int, start + k),
        decreases len - k,
    {
        dst.push(src[start + k]);
        k = k + 1;
        assert(dst@ =~= base + src@.subrange(start as int, start + k));
    }
}

/// Appends the tuple of vertex `v`, or `components` zeros when `v` is not
/// below `n_verts`.
fn copy_vert(dst: &mut Vec<u32>, src: &[u32], components: usize, n_verts: usize, v: usize)
    requires
        components > 0,
        n_verts == (src@.len() as int) / (components as int),
    ensures
        final(dst)@ == old(dst)@ + vertex_tuple(src@, components as int, v as int),
{
    let slen = src.len();
    if v < n_verts {
        proof {
            let c = components as int;
            lemma_mul_inequality(v as int + 1, n_verts as int, c);
            lemma_fundamental_div_mod(src@.len() as int, c);
            assert((v as int + 1) * c == v * c + c) by (nonlinear_arith);
            assert(n_verts * c <= src@.len()) by (nonlinear_arith)
                requires
                    src@.len() as int == c * n_verts + src@.len() as int % c,
                    src@.len() as int % c >= 0,
            ;
        }
        push_tuple(dst, src, v * components, components);
    } else {
        let ghost base = dst@;
        let mut k: usize = 0;
        while k < components
            invariant
                k <= components,
                dst@ == base + Seq::new(k as nat, |i: int| 0u32),
            decreases components - k,
        {
            dst.push(0);
            k = k + 1;
            assert(dst@ =~= base + Seq::new(k as nat, |i: int| 0u32));
        }
    }
}

proof fn lemma_fv_halted_stays(t: HdStMeshTopology, len: int, c: int, j: int, k: int)
    requires
        0 <= j <= k,
        t.fv_halted(len, c, j),
    ensures
        t.fv_halted(len, c, k),
    decreases k - j,
{
    if j < k {
        lemma_fv_halted_stays(t, len, c, j, k - 1);
    }
}

proof fn lemma_fv_halted_values(t: HdStMeshTopology, src: Seq<u32>, c: int, j: int, k: int)
    requires
        0 <= j <= k,
        t.fv_halted(src.len() as int, c, j),
    ensures
        t.fv_values_before(src, c, k) == t.fv_values_before(src, c, j),
    decreases k - j,
{
    if j < k {
        lemma_fv_halted_values(t, src, c, j, k - 1);
        lemma_fv_halted_stays(t, src.len() as int, c, j, k);
    }
}

proof fn lemma_halted_vertex_values(t: HdStMeshTopology, src: Seq<u32>, c: int, j: int, k: int)
    requires
        0 <= j <= k,
        t.halted(j),
    ensures
        t.vertex_values_before(src, c, k) == t.vertex_values_before(src, c, j),
    decreases k - j,
{
    if j < k {
        lemma_halted_vertex_values(t, src, c, j, k - 1);
        lemma_halted_stays(t, j, k);
    }
}

/// Face-vertex positions of the first `n` fan triangles of a face whose
/// face-vertices start at position `o`.
pub open spec fn fvar_fan(o: int, n: int) -> Seq<u32>
    decreases n,
{
    if n <= 0 {
        seq![]
    } else {
        fvar_fan(o, n - 1) + seq![o as u32, (o + n) as u32, (o + n + 1) as u32]
    }
}

/// For each fan triangle of each drawn face (hole faces and faces with
/// fewer than three vertices are skipped), the positions of its three
/// corners among the face-vertices: the fan hub, then the two rim corners.
pub fn build_fvar_triangle_index_map(topology: &HdStMeshTopology) -> (mapping: Vec<u32>)
    requires
        counts_nonneg(topology.face_vertex_counts@),
        face_offset(topology.face_vertex_counts@, topology.face_vertex_counts@.len() as int)
            <= u32::MAX,
    ensures
        mapping@ == topology.fvar_map_before(topology.face_vertex_counts@.len() as int),
{
    let mut mapping: Vec<u32> = Vec::new();
    let mut offset: u32 = 0;
    let n = topology.face_vertex_counts.len();
    let mut face_idx: usize = 0;
    while face_idx < n
        invariant
            n == topology.face_vertex_counts@.len(),
            counts_nonneg(topology.face_vertex_counts@),
            face_offset(topology.face_vertex_counts@, n as int) <= u32::MAX,
            face_idx <= n,
            offset == face_offset(topology.face_vertex_counts@, face_idx as int),
            mapping@ == topology.fvar_map_before(face_idx as int),
        decreases n - face_idx,
    {
        proof {
            crate::mesh_topology::lemma_offset_bounds(
                topology.face_vertex_counts@,
                face_idx as int + 1,
                n as int,
            );
        }
        let count = topology.face_vertex_counts[face_idx] as u32;
        assert(topology.face_vertex_counts@[face_idx as int] >= 0);
        let is_hole = vec_contains_i32(&topology.hole_indices, face_idx as i32);
        if !is_hole && count >= 3 {
            let ghost base = mapping@;
            let mut i: u32 = 1;
            while i < count - 1
                invariant
                    3 <= count,
                    1 <= i <= count - 1,
                    offset + count <= u32::MAX,
                    mapping@ == base + fvar_fan(offset as int, i - 1),
                decreases count - 1 - i,
            {
                mapping.push(offset);
                mapping.push(offset + i);
                mapping.push(offset + i + 1);
                i = i + 1;
                assert(mapping@ =~= base + fvar_fan(offset as int, i - 1));
            }
        }
        offset = offset + count;
        face_idx = face_idx + 1;
    }
    mapping
}

proof fn lemma_fvar_fan_len(o: int, n: int)
    requires
        n >= 0,
    ensures
        fvar_fan(o, n).len() == 3 * n,
    decreases n,
{
    if n > 0 {
        lemma_fvar_fan_len(o, n - 1);
    }
}

proof fn lemma_fan_len(idx: Seq<i32>, o: int, n: int, right_handed: bool)
    requires
        n >= 0,
    ensures
        fan_triangles(idx, o, n, right_handed).len() == 3 * n,
    decreases n,
{
    if n > 0 {
        lemma_fan_len(idx, o, n - 1, right_handed);
    }
}

impl HdStMeshTopology {
    proof fn lemma_triangles_before_prefix(self, k: int, m: int)
        requires
            0 <= k <= m,
        ensures
            self.triangles_before(k).len() <= self.triangles_before(m).len(),
            forall|j: int|
                0 <= j < self.triangles_before(k).len() ==> #[trigger] self.triangles_before(m)[j]
                    == self.triangles_before(k)[j],
        decreases m,
    {
        if k < m {
            self.lemma_triangles_before_prefix(k, m - 1);
        }
    }
}

/// Until triangulation stops at a face whose vertices run past the index
/// list, each drawn face (not a hole, at least three vertices) is fanned
/// from its first vertex: its `j`-th triangle is the first vertex, vertex
/// `j + 1` and vertex `j + 2` (the last two swapped for a left-handed
/// mesh), after the triangles of the faces before.
pub proof fn lemma_triangulate_fans_face(t: HdStMeshTopology, f: int, j: int)
    requires
        0 <= f < t.face_vertex_counts@.len(),
        t.drawn(f),
        !t.halted(f + 1),
        0 <= j < t.face_vertex_counts@[f] - 2,
    ensures
        ({
            let o = face_offset(t.face_vertex_counts@, f);
            let idx = t.face_vertex_indices@;
            let before = t.triangles_before(f).len() as int;
            let all = t.triangles_before(t.face_vertex_counts@.len() as int);
            &&& all[before + 3 * j] == idx[o] as u32
            &&& all[before + 3 * j + 1] == (if t.right_handed {
                idx[o + j + 1]
            } else {
                idx[o + j + 2]
            }) as u32
            &&& all[before + 3 * j + 2] == (if t.right_handed {
                idx[o + j + 2]
            } else {
                idx[o + j + 1]
            }) as u32
        }),
{
    let c = t.face_vertex_counts@[f] as int;
    let o = face_offset(t.face_vertex_counts@, f);
    let idx = t.face_vertex_indices@;
    let n = t.face_vertex_counts@.len() as int;
    let rh = t.right_handed;
    crate::mesh_topology::lemma_fan_triangles_shape(idx, o, c - 2, rh);
    t.lemma_triangles_before_prefix(f + 1, n);
    let before = t.triangles_before(f).len() as int;
    let ft = fan_triangles(idx, o, c - 2, rh);
    assert(t.triangles_before(f + 1) == t.triangles_before(f) + ft);
    assert(t.triangles_before(f + 1)[before + 3 * j] == ft[3 * j + 0]);
    assert(t.triangles_before(f + 1)[before + 3 * j + 1] == ft[3 * j + 1]);
    assert(t.triangles_before(f + 1)[before + 3 * j + 2] == ft[3 * j + 2]);
}

/// While every drawn face has its vertex indices, the face-varying index
/// map has one entry per triangle index: both skip the same hole faces and
/// faces with fewer than three vertices, and fan the others alike.
pub proof fn lemma_fvar_map_matches_triangles(t: HdStMeshTopology, k: int)
    requires
        0 <= k <= t.face_vertex_counts@.len(),
        t.face_vertex_counts@.len() <= i32::MAX,
        !t.halted(k),
    ensures
        t.fvar_map_before(k).len() == t.triangles_before(k).len(),
    decreases k,
{
    if k > 0 {
        let f = k - 1;
        lemma_fvar_map_matches_triangles(t, f);
        assert(t.hole_listed(f) == hole_named(t.hole_indices@, f)) by {
            if t.hole_listed(f) {
                let j = choose|j: int| 0 <= j < t.hole_indices@.len() && t.hole_indices@[j] == f as i32;
                assert(t.hole_indices@[j] >= 0 && (t.hole_indices@[j] as int) == f);
            }
            if hole_named(t.hole_indices@, f) {
                let j = choose|j: int|
                    0 <= j < t.hole_indices@.len() && t.hole_indices@[j] >= 0 && #[trigger] (
                    t.hole_indices@[j] as int) == f;
                assert(t.hole_indices@[j] == f as i32);
            }
        }
        let c = t.face_vertex_counts@[f] as int;
        if t.drawn(f) {
            lemma_fvar_fan_len(face_offset(t.face_vertex_counts@, f), c - 2);
            lemma_fan_len(t.face_vertex_indices@, face_offset(t.face_vertex_counts@, f), c - 2, t.right_handed);
        }
    }
}

/// The value an index selects: the value at that position, or zero (the
/// bits of `0.0_f32`) for a negative or out-of-range index.
pub open spec fn indexed_or_zero(values: Seq<u32>, i: i32) -> u32 {
    if 0 <= i < values.len() {
        values[i as int]
    } else {
        0
    }
}

/// Expands an indexed float primvar (values as `f32` bits): with indices,
/// one value per index, zero for an index out of range; without, the
/// values themselves.
pub fn expand_indexed_f32(values: &[u32], indices: Option<&[i32]>) -> (out: Vec<u32>)
    ensures
        match indices {
            Some(idx) => out@ == idx@.map_values(|i: i32| indexed_or_zero(values@, i)),
            None => out@ == values@,
        },
{
    match indices {
        Some(idx) => {
            let mut out: Vec<u32> = Vec::new();
            let mut k: usize = 0;
            while k < idx.len()
                invariant
                    k <= idx.len(),
                    out@ == idx@.take(k as int).map_values(|i: i32| indexed_or_zero(values@, i)),
                decreases idx.len() - k,
            {
                let i = idx[k];
                let v = if 0 <= i && (i as usize) < values.len() {
                    values[i as usize]
                } else {
                    0
                };
                out.push(v);
                assert(idx@.take(k as int + 1).map_values(|i: i32| indexed_or_zero(values@, i))
                    =~= idx@.take(k as int).map_values(|i: i32| indexed_or_zero(values@, i)).push(
                    indexed_or_zero(values@, idx@[k as int]),
                ));
                k = k + 1;
            }
            assert(idx@.take(idx.len() as int) =~= idx@);
            out
        },
        None => {
            let mut out: Vec<u32> = Vec::new();
            let mut k: usize = 0;
            while k < values.len()
                invariant
                    k <= values.len(),
                    out@ == values@.take(k as int),
                decreases values.len() - k,
            {
                out.push(values[k]);
                assert(values@.take(k as int + 1) =~= values@.take(k as int).push(values@[k as int]));
                k = k + 1;
            }
            assert(values@.take(values.len() as int) =~= values@);
            out
        },
    }
}

/// The tuple of `components` values an index selects, or zeros when the
/// tuple does not fit in the source.
pub open spec fn tuple_or_zeros(src: Seq<u32>, components: int, index: u32) -> Seq<u32> {
    let base = index * components;
    if base + components <= src.len() {
        src.subrange(base, base + components)
    } else {
        Seq::new(components as nat, |j: int| 0u32)
    }
}

/// The tuples selected by a list of indices, in order.
pub open spec fn tuples_by_indices(src: Seq<u32>, components: int, indices: Seq<u32>) -> Seq<u32>
    decreases indices.len(),
{
    if indices.len() == 0 {
        Seq::empty()
    } else {
        tuples_by_indices(src, components, indices.drop_last()) + tuple_or_zeros(
            src,
            components,
            indices.last(),
        )
    }
}

/// Expands tightly packed tuples (`components` values of `f32` bits each)
/// by an index map: one tuple per index, zeros where the tuple is missing.
pub fn expand_f32_components_by_indices(src: &[u32], components: usize, indices: &[u32]) -> (out: Vec<u32>)
    requires
        forall|k: int| 0 <= k < indices.len() ==> (#[trigger] indices[k]) * components + components <= usize::MAX,
    ensures
        out@ == tuples_by_indices(src@, components as int, indices@),
{
    let mut out: Vec<u32> = Vec::new();
    let mut k: usize = 0;
    while k < indices.len()
        invariant
            k <= indices.len(),
            forall|q: int| 0 <= q < indices.len() ==> (#[trigger] indices[q]) * components + components <= usize::MAX,
            out@ == tuples_by_indices(src@, components as int, indices@.take(k as int)),
        decreases indices.len() - k,
    {
        let ghost before = out@;
        let index = indices[k];
        assert(indices[k as int] * components + components <= usize::MAX);
        assert(index as usize * components <= index * components) by (nonlinear_arith);
        let base = index as usize * components;
        if base + components <= src.len() {
            let mut j: usize = 0;
            while j < components
                invariant
                    j <= components,
                    base + components <= src.len(),
                    out@ == before + src@.subrange(base as int, base + j),
                decreases components - j,
            {
                out.push(src[base + j]);
                assert(src@.subrange(base as int, base + j + 1) =~= src@.subrange(base as int, base + j).push(src@[base + j]));
                j = j + 1;
            }
        } else {
            let mut j: usize = 0;
            while j < components
                invariant
                    j <= components,
                    out@ == before + Seq::new(j as nat, |q: int| 0u32),
                decreases components - j,
            {
                out.push(0);
                assert(Seq::new((j + 1) as nat, |q: int| 0u32) =~= Seq::new(j as nat, |q: int| 0u32).push(0u32));
                j = j + 1;
            }
        }
        proof {
            let t = indices@.take(k as int + 1);
            assert(t.drop_last() =~= indices@.take(k as int));
            assert(t.last() == index);
            assert(base == index * components);
        }
        k = k + 1;
    }
    assert(indices@.take(indices.len() as int) =~= indices@);
    out
}

/// Little-endian bytes of a list of 32-bit words, for an index buffer.
pub fn encode_u32_slice_le(data: &[u32]) -> (bytes: Vec<u8>)
    ensures
        bytes@ == words_bytes(data@),
{
    let mut bytes: Vec<u8> = Vec::new();
    push_words(&mut bytes, data);
    assert(bytes@ =~= words_bytes(data@));
    bytes
}

/// Little-endian bytes of a list of floats given by their bits, for a
/// vertex buffer.
pub fn encode_f32_slice_le(data: &[u32]) -> (bytes: Vec<u8>)
    ensures
        bytes@ == words_bytes(data@),
{
    encode_u32_slice_le(data)
}

/// Vertex data of a mesh, every float as its bit pattern: positions and
/// normals (three per vertex), texture coordinates (two per vertex),
/// display colors (three per vertex) and the previous frame's positions for
/// motion blur.
#[derive(Debug, Clone)]
pub struct HdStMeshVertexData {
    pub positions: Vec<u32>,
    pub normals: Vec<u32>,
    pub uvs: Vec<u32>,
    pub colors: Vec<u32>,
    pub prev_positions: Vec<u32>,
}

impl HdStMeshVertexData {
    /// Number of vertices: whole positions.
    pub fn get_vertex_count(&self) -> (n: usize)
        ensures
            n == self.positions@.len() / 3,
    {
        self.positions.len() / 3
    }

    /// Bytes of position data.
    pub fn get_positions_byte_size(&self) -> (n: usize)
        requires
            self.positions@.len() * 4 <= usize::MAX,
        ensures
            n == self.positions@.len() * 4,
    {
        self.positions.len() * 4
    }

    /// Bytes of normal data.
    pub fn get_normals_byte_size(&self) -> (n: usize)
        requires
            self.normals@.len() * 4 <= usize::MAX,
        ensures
            n == self.normals@.len() * 4,
    {
        self.normals.len() * 4
    }
}

impl Default for HdStMeshVertexData {
    fn default() -> (d: Self)
        ensures
            d.positions@ == Seq::<u32>::empty(),
            d.normals@ == Seq::<u32>::empty(),
            d.uvs@ == Seq::<u32>::empty(),
            d.colors@ == Seq::<u32>::empty(),
            d.prev_positions@ == Seq::<u32>::empty(),
    {
        HdStMeshVertexData {
            positions: Vec::new(),
            normals: Vec::new(),
            uvs: Vec::new(),
            colors: Vec::new(),
            prev_positions: Vec::new(),
        }
    }
}

} // verus!
