//! Geometric shader configuration: classification of primitive types,
//! resolution of the hardware cull mode from the rprim's and the render
//! state's culling opinions, and the GLSL of the geometry stages.

use vstd::prelude::*;
use crate::hd_types::{HdCullStyle, HdPolygonMode};
use crate::hgi_types::{HgiCullMode, HgiPrimitiveType};
use crate::shader_key::{GeometricStyle, PrimitiveType};
use crate::text::text_if;
use vstd::string::StringExecFns;

verus! {

/// Primitive type of a geometric shader.
#[derive(Debug, Clone, Copy, PartialEq, Eq, Hash, Structural)]
pub enum GsPrimitiveType {
    Points,
    BasisCurvesLines,
    BasisCurvesLinearPatches,
    BasisCurvesCubicPatches,
    MeshCoarseTriangles,
    MeshRefinedTriangles,
    MeshCoarseQuads,
    MeshRefinedQuads,
    MeshCoarseTriQuads,
    MeshRefinedTriQuads,
    MeshBspline,
    MeshBoxsplineTriangle,
    Volume,
    Compute,
}

/// Basis-curve primitives.
pub open spec fn spec_is_basis_curves(p: GsPrimitiveType) -> bool {
    p is BasisCurvesLines || p is BasisCurvesLinearPatches || p is BasisCurvesCubicPatches
}

/// Mesh primitives, coarse or refined.
pub open spec fn spec_is_mesh(p: GsPrimitiveType) -> bool {
    p is MeshCoarseTriangles || p is MeshRefinedTriangles || p is MeshCoarseQuads
        || p is MeshRefinedQuads || p is MeshCoarseTriQuads || p is MeshRefinedTriQuads
        || p is MeshBspline || p is MeshBoxsplineTriangle
}

/// Primitives rasterized as triangles.
pub open spec fn spec_is_triangles(p: GsPrimitiveType) -> bool {
    p is MeshCoarseTriangles || p is MeshRefinedTriangles || p is Volume
}

/// Quad primitives.
pub open spec fn spec_is_quads(p: GsPrimitiveType) -> bool {
    p is MeshCoarseQuads || p is MeshRefinedQuads
}

/// Quads drawn as triangle pairs.
pub open spec fn spec_is_triquads(p: GsPrimitiveType) -> bool {
    p is MeshCoarseTriQuads || p is MeshRefinedTriQuads
}

/// Mesh primitives produced by subdivision refinement.
pub open spec fn spec_is_refined_mesh(p: GsPrimitiveType) -> bool {
    p is MeshRefinedTriangles || p is MeshRefinedQuads || p is MeshRefinedTriQuads
        || p is MeshBspline || p is MeshBoxsplineTriangle
}

/// Primitives drawn as tessellation patches.
pub open spec fn spec_is_patches(p: GsPrimitiveType) -> bool {
    p is MeshBspline || p is MeshBoxsplineTriangle || p is BasisCurvesCubicPatches
        || p is BasisCurvesLinearPatches
}

/// Number of indices per primitive.
pub open spec fn spec_primitive_index_size(p: GsPrimitiveType) -> i32 {
    match p {
        GsPrimitiveType::Points => 1,
        GsPrimitiveType::BasisCurvesLines | GsPrimitiveType::BasisCurvesLinearPatches => 2,
        GsPrimitiveType::MeshCoarseTriangles | GsPrimitiveType::MeshRefinedTriangles
        | GsPrimitiveType::Volume => 3,
        GsPrimitiveType::BasisCurvesCubicPatches | GsPrimitiveType::MeshCoarseQuads
        | GsPrimitiveType::MeshRefinedQuads => 4,
        GsPrimitiveType::MeshCoarseTriQuads | GsPrimitiveType::MeshRefinedTriQuads => 6,
        GsPrimitiveType::MeshBspline => 16,
        GsPrimitiveType::MeshBoxsplineTriangle => 12,
        GsPrimitiveType::Compute => 0,
    }
}

/// Number of vertices a patch evaluation reads (0 for non-patches).
pub open spec fn spec_num_patch_eval_verts(p: GsPrimitiveType) -> i32 {
    match p {
        GsPrimitiveType::BasisCurvesLinearPatches => 2,
        GsPrimitiveType::BasisCurvesCubicPatches => 4,
        GsPrimitiveType::MeshBspline => 16,
        GsPrimitiveType::MeshBoxsplineTriangle => 15,
        _ => 0,
    }
}

/// Number of primitive vertices seen by a geometry shader stage.
pub open spec fn spec_num_prim_verts_for_gs(p: GsPrimitiveType) -> i32 {
    match p {
        GsPrimitiveType::Points => 1,
        GsPrimitiveType::BasisCurvesLines => 2,
        GsPrimitiveType::MeshCoarseQuads | GsPrimitiveType::MeshRefinedQuads => 4,
        GsPrimitiveType::Compute => 1,
        _ => 3,
    }
}

/// Pipeline primitive topology.
pub open spec fn spec_hgi_primitive_type(p: GsPrimitiveType) -> HgiPrimitiveType {
    match p {
        GsPrimitiveType::Points => HgiPrimitiveType::PointList,
        GsPrimitiveType::BasisCurvesLines => HgiPrimitiveType::LineList,
        GsPrimitiveType::BasisCurvesLinearPatches | GsPrimitiveType::BasisCurvesCubicPatches
        | GsPrimitiveType::MeshBspline | GsPrimitiveType::MeshBoxsplineTriangle =>
            HgiPrimitiveType::PatchList,
        _ => HgiPrimitiveType::TriangleList,
    }
}

impl GsPrimitiveType {
    pub fn is_points(self) -> (b: bool)
        ensures
            b == (self is Points),
    {
        self == GsPrimitiveType::Points
    }

    pub fn is_basis_curves(self) -> (b: bool)
        ensures
            b == spec_is_basis_curves(self),
    {
        match self {
            GsPrimitiveType::BasisCurvesLines | GsPrimitiveType::BasisCurvesLinearPatches
            | GsPrimitiveType::BasisCurvesCubicPatches => true,
            _ => false,
        }
    }

    pub fn is_mesh(self) -> (b: bool)
        ensures
            b == spec_is_mesh(self),
    {
        match self {
            GsPrimitiveType::MeshCoarseTriangles | GsPrimitiveType::MeshRefinedTriangles
            | GsPrimitiveType::MeshCoarseQuads | GsPrimitiveType::MeshRefinedQuads
            | GsPrimitiveType::MeshCoarseTriQuads | GsPrimitiveType::MeshRefinedTriQuads
            | GsPrimitiveType::MeshBspline | GsPrimitiveType::MeshBoxsplineTriangle => true,
            _ => false,
        }
    }

    pub fn is_triangles(self) -> (b: bool)
        ensures
            b == spec_is_triangles(self),
    {
        match self {
            GsPrimitiveType::MeshCoarseTriangles | GsPrimitiveType::MeshRefinedTriangles
            | GsPrimitiveType::Volume => true,
            _ => false,
        }
    }

    pub fn is_quads(self) -> (b: bool)
        ensures
            b == spec_is_quads(self),
    {
        match self {
            GsPrimitiveType::MeshCoarseQuads | GsPrimitiveType::MeshRefinedQuads => true,
            _ => false,
        }
    }

    pub fn is_triquads(self) -> (b: bool)
        ensures
            b == spec_is_triquads(self),
    {
        match self {
            GsPrimitiveType::MeshCoarseTriQuads | GsPrimitiveType::MeshRefinedTriQuads => true,
            _ => false,
        }
    }

    pub fn is_refined_mesh(self) -> (b: bool)
        ensures
            b == spec_is_refined_mesh(self),
    {
        match self {
            GsPrimitiveType::MeshRefinedTriangles | GsPrimitiveType::MeshRefinedQuads
            | GsPrimitiveType::MeshRefinedTriQuads | GsPrimitiveType::MeshBspline
            | GsPrimitiveType::MeshBoxsplineTriangle => true,
            _ => false,
        }
    }

    pub fn is_patches(self) -> (b: bool)
        ensures
            b == spec_is_patches(self),
    {
        match self {
            GsPrimitiveType::MeshBspline | GsPrimitiveType::MeshBoxsplineTriangle
            | GsPrimitiveType::BasisCurvesCubicPatches
            | GsPrimitiveType::BasisCurvesLinearPatches => true,
            _ => false,
        }
    }

    pub fn is_compute(self) -> (b: bool)
        ensures
            b == (self is Compute),
    {
        self == GsPrimitiveType::Compute
    }

    /// Indices per primitive.
    pub fn primitive_index_size(self) -> (n: i32)
        ensures
            n == spec_primitive_index_size(self),
    {
        match self {
            GsPrimitiveType::Points => 1,
            GsPrimitiveType::BasisCurvesLines | GsPrimitiveType::BasisCurvesLinearPatches => 2,
            GsPrimitiveType::MeshCoarseTriangles | GsPrimitiveType::MeshRefinedTriangles
            | GsPrimitiveType::Volume => 3,
            GsPrimitiveType::BasisCurvesCubicPatches | GsPrimitiveType::MeshCoarseQuads
            | GsPrimitiveType::MeshRefinedQuads => 4,
            GsPrimitiveType::MeshCoarseTriQuads | GsPrimitiveType::MeshRefinedTriQuads => 6,
            GsPrimitiveType::MeshBspline => 16,
            GsPrimitiveType::MeshBoxsplineTriangle => 12,
            GsPrimitiveType::Compute => 0,
        }
    }

    /// Vertices read by one patch evaluation.
    pub fn num_patch_eval_verts(self) -> (n: i32)
        ensures
            n == spec_num_patch_eval_verts(self),
    {
        match self {
            GsPrimitiveType::BasisCurvesLinearPatches => 2,
            GsPrimitiveType::BasisCurvesCubicPatches => 4,
            GsPrimitiveType::MeshBspline => 16,
            GsPrimitiveType::MeshBoxsplineTriangle => 15,
            _ => 0,
        }
    }

    /// Primitive vertices seen by a geometry shader.
    pub fn num_prim_verts_for_gs(self) -> (n: i32)
        ensures
            n == spec_num_prim_verts_for_gs(self),
    {
        match self {
            GsPrimitiveType::Points => 1,
            GsPrimitiveType::BasisCurvesLines => 2,
            GsPrimitiveType::MeshCoarseTriangles | GsPrimitiveType::MeshRefinedTriangles
            | GsPrimitiveType::MeshCoarseTriQuads | GsPrimitiveType::MeshRefinedTriQuads
            | GsPrimitiveType::BasisCurvesLinearPatches
            | GsPrimitiveType::BasisCurvesCubicPatches | GsPrimitiveType::MeshBspline
            | GsPrimitiveType::MeshBoxsplineTriangle => 3,
            GsPrimitiveType::MeshCoarseQuads | GsPrimitiveType::MeshRefinedQuads => 4,
            GsPrimitiveType::Volume => 3,
            GsPrimitiveType::Compute => 1,
        }
    }

    /// Pipeline primitive topology.
    pub fn hgi_primitive_type(self) -> (t: HgiPrimitiveType)
        ensures
            t == spec_hgi_primitive_type(self),
    {
        match self {
            GsPrimitiveType::Points => HgiPrimitiveType::PointList,
            GsPrimitiveType::BasisCurvesLines => HgiPrimitiveType::LineList,
            GsPrimitiveType::BasisCurvesLinearPatches
            | GsPrimitiveType::BasisCurvesCubicPatches | GsPrimitiveType::MeshBspline
            | GsPrimitiveType::MeshBoxsplineTriangle => HgiPrimitiveType::PatchList,
            _ => HgiPrimitiveType::TriangleList,
        }
    }
}

/// Refined meshes are meshes, and the triangle, quad and tri-quad families
/// are pairwise disjoint.
pub proof fn lemma_primitive_families(p: GsPrimitiveType)
    ensures
        spec_is_refined_mesh(p) ==> spec_is_mesh(p),
        !(spec_is_triangles(p) && spec_is_quads(p)),
        !(spec_is_triangles(p) && spec_is_triquads(p)),
        !(spec_is_quads(p) && spec_is_triquads(p)),
        !(spec_is_mesh(p) && spec_is_basis_curves(p)),
{
}

/// A primitive is a patch exactly when the pipeline draws patch lists, and
/// exactly when a patch evaluation reads vertices.
pub proof fn lemma_patches_agree(p: GsPrimitiveType)
    ensures
        spec_is_patches(p) <==> spec_hgi_primitive_type(p) == HgiPrimitiveType::PatchList,
        spec_is_patches(p) <==> spec_num_patch_eval_verts(p) > 0,
{
}

/// Face-varying patch type.
#[derive(Debug, Clone, Copy, PartialEq, Eq, Hash, Structural)]
pub enum FvarPatchType {
    CoarseTriangles,
    RefinedTriangles,
    CoarseQuads,
    RefinedQuads,
    Bspline,
    BoxsplineTriangle,
    NoFvarPatch,
}

impl Default for FvarPatchType {
    /// The default face-varying patch type is `NoFvarPatch`.
    fn default() -> (t: Self)
        ensures
            t is NoFvarPatch,
    {
        FvarPatchType::NoFvarPatch
    }
}

/// Hardware cull mode for a resolved cull style.
pub open spec fn cull_mode_for_style(
    style: HdCullStyle,
    double_sided: bool,
    mirrored: bool,
) -> HgiCullMode {
    match style {
        HdCullStyle::Front => if mirrored { HgiCullMode::Back } else { HgiCullMode::Front },
        HdCullStyle::FrontUnlessDoubleSided => if double_sided {
            HgiCullMode::NoCull
        } else if mirrored {
            HgiCullMode::Back
        } else {
            HgiCullMode::Front
        },
        HdCullStyle::Back => if mirrored { HgiCullMode::Front } else { HgiCullMode::Back },
        HdCullStyle::BackUnlessDoubleSided => if double_sided {
            HgiCullMode::NoCull
        } else if mirrored {
            HgiCullMode::Front
        } else {
            HgiCullMode::Back
        },
        _ => HgiCullMode::NoCull,
    }
}

/// The rprim's own culling opinion wins unless it does not care.
pub open spec fn effective_cull_style(own: HdCullStyle, render_state: HdCullStyle) -> HdCullStyle {
    if own is DontCare {
        render_state
    } else {
        own
    }
}

/// Swaps front and back culling.
pub open spec fn flip_cull_mode(m: HgiCullMode) -> HgiCullMode {
    match m {
        HgiCullMode::Front => HgiCullMode::Back,
        HgiCullMode::Back => HgiCullMode::Front,
        _ => m,
    }
}

/// Geometric style implied by the polygon mode and primitive type.
pub open spec fn spec_geom_style(polygon_mode: HdPolygonMode, p: GsPrimitiveType) -> GeometricStyle {
    if polygon_mode is Line {
        GeometricStyle::Edges
    } else if p is Points {
        GeometricStyle::Points
    } else {
        GeometricStyle::Surface
    }
}

/// Shader-key primitive kind implied by the primitive type.
pub open spec fn spec_shader_primitive_type(p: GsPrimitiveType) -> PrimitiveType {
    match p {
        GsPrimitiveType::BasisCurvesLines | GsPrimitiveType::BasisCurvesLinearPatches =>
            PrimitiveType::Lines,
        GsPrimitiveType::MeshBspline | GsPrimitiveType::MeshBoxsplineTriangle
        | GsPrimitiveType::BasisCurvesCubicPatches => PrimitiveType::Patches,
        GsPrimitiveType::Points => PrimitiveType::Points,
        _ => PrimitiveType::Triangles,
    }
}

/// Pipeline configuration of a geometric shader.
#[derive(Debug, Clone, Copy)]
pub struct HdStGeometricShader {
    prim_type: GsPrimitiveType,
    cull_style: HdCullStyle,
    use_hw_face_culling: bool,
    has_mirrored_transform: bool,
    double_sided: bool,
    polygon_mode: HdPolygonMode,
    frustum_culling_pass: bool,
    fvar_patch_type: FvarPatchType,
    geom_style: GeometricStyle,
    shader_prim_type: PrimitiveType,
    line_width_bits: u32,
}

impl HdStGeometricShader {
    pub closed spec fn prim_type(self) -> GsPrimitiveType {
        self.prim_type
    }

    pub closed spec fn cull_style(self) -> HdCullStyle {
        self.cull_style
    }

    pub closed spec fn use_hw_face_culling(self) -> bool {
        self.use_hw_face_culling
    }

    pub closed spec fn mirrored(self) -> bool {
        self.has_mirrored_transform
    }

    pub closed spec fn double_sided(self) -> bool {
        self.double_sided
    }

    pub closed spec fn polygon_mode(self) -> HdPolygonMode {
        self.polygon_mode
    }

    pub closed spec fn frustum_culling_pass(self) -> bool {
        self.frustum_culling_pass
    }

    pub closed spec fn fvar_patch_type(self) -> FvarPatchType {
        self.fvar_patch_type
    }

    pub closed spec fn geom_style(self) -> GeometricStyle {
        self.geom_style
    }

    pub closed spec fn shader_prim_type(self) -> PrimitiveType {
        self.shader_prim_type
    }

    /// Bit pattern of the `f32` edge line width.
    pub closed spec fn line_width_bits(self) -> u32 {
        self.line_width_bits
    }

    /// Builds the configuration; the geometric style and the shader-key
    /// primitive kind are derived from the polygon mode and primitive type.
    pub fn new(
        prim_type: GsPrimitiveType,
        cull_style: HdCullStyle,
        use_hw_face_culling: bool,
        has_mirrored_transform: bool,
        double_sided: bool,
        polygon_mode: HdPolygonMode,
        frustum_culling_pass: bool,
        fvar_patch_type: FvarPatchType,
        line_width_bits: u32,
    ) -> (s: Self)
        ensures
            s.line_width_bits() == line_width_bits,
            s.prim_type() == prim_type,
            s.cull_style() == cull_style,
            s.use_hw_face_culling() == use_hw_face_culling,
            s.mirrored() == has_mirrored_transform,
            s.double_sided() == double_sided,
            s.polygon_mode() == polygon_mode,
            s.frustum_culling_pass() == frustum_culling_pass,
            s.fvar_patch_type() == fvar_patch_type,
            s.geom_style() == spec_geom_style(polygon_mode, prim_type),
            s.shader_prim_type() == spec_shader_primitive_type(prim_type),
    {
        let geom_style = if polygon_mode == HdPolygonMode::Line {
            GeometricStyle::Edges
        } else if prim_type == GsPrimitiveType::Points {
            GeometricStyle::Points
        } else {
            GeometricStyle::Surface
        };
        let shader_prim_type = match prim_type {
            GsPrimitiveType::BasisCurvesLines | GsPrimitiveType::BasisCurvesLinearPatches => {
                PrimitiveType::Lines
            },
            GsPrimitiveType::MeshBspline | GsPrimitiveType::MeshBoxsplineTriangle
            | GsPrimitiveType::BasisCurvesCubicPatches => PrimitiveType::Patches,
            GsPrimitiveType::Points => PrimitiveType::Points,
            _ => PrimitiveType::Triangles,
        };
        HdStGeometricShader {
            prim_type,
            cull_style,
            use_hw_face_culling,
            has_mirrored_transform,
            double_sided,
            polygon_mode,
            frustum_culling_pass,
            fvar_patch_type,
            geom_style,
            shader_prim_type,
            line_width_bits,
        }
    }

    /// Edge line width, as the bit pattern of its `f32` value.
    pub fn get_line_width(&self) -> (w: u32)
        ensures
            w == self.line_width_bits(),
    {
        self.line_width_bits
    }

    /// Sets the edge line width (bit pattern of an `f32`).
    pub fn set_line_width(&mut self, w: u32)
        ensures
            final(self).line_width_bits() == w,
            final(self).prim_type() == old(self).prim_type(),
            final(self).cull_style() == old(self).cull_style(),
            final(self).use_hw_face_culling() == old(self).use_hw_face_culling(),
            final(self).mirrored() == old(self).mirrored(),
            final(self).double_sided() == old(self).double_sided(),
            final(self).polygon_mode() == old(self).polygon_mode(),
            final(self).frustum_culling_pass() == old(self).frustum_culling_pass(),
            final(self).fvar_patch_type() == old(self).fvar_patch_type(),
            final(self).geom_style() == old(self).geom_style(),
            final(self).shader_prim_type() == old(self).shader_prim_type(),
    {
        self.line_width_bits = w;
    }

    pub fn get_gs_primitive_type(&self) -> (p: GsPrimitiveType)
        ensures
            p == self.prim_type(),
    {
        self.prim_type
    }

    pub fn get_primitive_type(&self) -> (p: PrimitiveType)
        ensures
            p == self.shader_prim_type(),
    {
        self.shader_prim_type
    }

    pub fn get_geom_style(&self) -> (g: GeometricStyle)
        ensures
            g == self.geom_style(),
    {
        self.geom_style
    }

    pub fn get_cull_style(&self) -> (c: HdCullStyle)
        ensures
            c == self.cull_style(),
    {
        self.cull_style
    }

    pub fn is_double_sided(&self) -> (b: bool)
        ensures
            b == self.double_sided(),
    {
        self.double_sided
    }

    pub fn has_mirrored_transform(&self) -> (b: bool)
        ensures
            b == self.mirrored(),
    {
        self.has_mirrored_transform
    }

    pub fn get_polygon_mode(&self) -> (m: HdPolygonMode)
        ensures
            m == self.polygon_mode(),
    {
        self.polygon_mode
    }

    pub fn is_frustum_culling_pass(&self) -> (b: bool)
        ensures
            b == self.frustum_culling_pass(),
    {
        self.frustum_culling_pass
    }

    pub fn get_fvar_patch_type(&self) -> (t: FvarPatchType)
        ensures
            t == self.fvar_patch_type(),
    {
        self.fvar_patch_type
    }

    pub fn get_primitive_index_size(&self) -> (n: i32)
        ensures
            n == spec_primitive_index_size(self.prim_type()),
    {
        self.prim_type.primitive_index_size()
    }

    pub fn get_num_patch_eval_verts(&self) -> (n: i32)
        ensures
            n == spec_num_patch_eval_verts(self.prim_type()),
    {
        self.prim_type.num_patch_eval_verts()
    }

    pub fn get_num_prim_verts_for_gs(&self) -> (n: i32)
        ensures
            n == spec_num_prim_verts_for_gs(self.prim_type()),
    {
        self.prim_type.num_prim_verts_for_gs()
    }

    pub fn get_hgi_primitive_type(&self) -> (t: HgiPrimitiveType)
        ensures
            t == spec_hgi_primitive_type(self.prim_type()),
    {
        self.prim_type.hgi_primitive_type()
    }

    /// Hardware cull mode: none when culling happens in the fragment shader;
    /// otherwise the rprim's opinion (or the render state's when the rprim
    /// does not care), with front and back swapped for mirrored transforms
    /// and no culling for double-sided "unless double sided" styles.
    pub fn resolve_cull_mode(&self, render_state_cull: HdCullStyle) -> (m: HgiCullMode)
        ensures
            m == (if !self.use_hw_face_culling() {
                HgiCullMode::NoCull
            } else {
                cull_mode_for_style(
                    effective_cull_style(self.cull_style(), render_state_cull),
                    self.double_sided(),
                    self.mirrored(),
                )
            }),
    {
        if !self.use_hw_face_culling {
            return HgiCullMode::NoCull;
        }
        let resolved = if self.cull_style == HdCullStyle::DontCare {
            render_state_cull
        } else {
            self.cull_style
        };
        match resolved {
            HdCullStyle::Front => {
                if self.has_mirrored_transform {
                    HgiCullMode::Back
                } else {
                    HgiCullMode::Front
                }
            },
            HdCullStyle::FrontUnlessDoubleSided => {
                if !self.double_sided {
                    if self.has_mirrored_transform {
                        HgiCullMode::Back
                    } else {
                        HgiCullMode::Front
                    }
                } else {
                    HgiCullMode::NoCull
                }
            },
            HdCullStyle::Back => {
                if self.has_mirrored_transform {
                    HgiCullMode::Front
                } else {
                    HgiCullMode::Back
                }
            },
            HdCullStyle::BackUnlessDoubleSided => {
                if !self.double_sided {
                    if self.has_mirrored_transform {
                        HgiCullMode::Front
                    } else {
                        HgiCullMode::Back
                    }
                } else {
                    HgiCullMode::NoCull
                }
            },
            _ => HgiCullMode::NoCull,
        }
    }
}

/// Each primitive family reads as many indices per primitive as its shape
/// has corners: triangles 3, quads 4, triangle pairs 6, points 1, curve
/// segments 2; a geometry stage sees a triangle's or quad's corners; and
/// the pipeline draws triangles, points, lines or patches to match.
pub proof fn lemma_primitive_sizes_follow_family(p: GsPrimitiveType)
    ensures
        spec_is_triangles(p) ==> spec_primitive_index_size(p) == 3 && spec_num_prim_verts_for_gs(p)
            == 3 && spec_hgi_primitive_type(p) == HgiPrimitiveType::TriangleList,
        spec_is_quads(p) ==> spec_primitive_index_size(p) == 4 && spec_num_prim_verts_for_gs(p) == 4
            && spec_hgi_primitive_type(p) == HgiPrimitiveType::TriangleList,
        spec_is_triquads(p) ==> spec_primitive_index_size(p) == 6 && spec_hgi_primitive_type(p)
            == HgiPrimitiveType::TriangleList,
        p is Points ==> spec_primitive_index_size(p) == 1 && spec_num_prim_verts_for_gs(p) == 1
            && spec_hgi_primitive_type(p) == HgiPrimitiveType::PointList,
        p is BasisCurvesLines ==> spec_primitive_index_size(p) == 2 && spec_hgi_primitive_type(p)
            == HgiPrimitiveType::LineList,
        spec_is_patches(p) && !(p is MeshBoxsplineTriangle) ==> spec_primitive_index_size(p)
            == spec_num_patch_eval_verts(p),
{
}

/// A polygon drawn as lines is drawn as edges, whatever the primitive; a
/// filled one is drawn as points exactly for points and as a surface
/// otherwise; and the shader's primitive kind follows the pipeline's.
pub proof fn lemma_geom_style_and_kind(mode: HdPolygonMode, p: GsPrimitiveType)
    ensures
        spec_geom_style(HdPolygonMode::Line, p) is Edges,
        (spec_geom_style(HdPolygonMode::Fill, p) is Points) <==> (p is Points),
        (spec_geom_style(HdPolygonMode::Fill, p) is Surface) <==> !(p is Points),
        (spec_shader_primitive_type(p) is Points) <==> (spec_hgi_primitive_type(p)
            == HgiPrimitiveType::PointList),
        spec_hgi_primitive_type(p) == HgiPrimitiveType::LineList ==> spec_shader_primitive_type(p)
            is Lines,
        spec_hgi_primitive_type(p) == HgiPrimitiveType::TriangleList ==> spec_shader_primitive_type(
            p,
        ) is Triangles,
{
}

/// A mirrored transform swaps front-face and back-face culling.
pub proof fn lemma_mirroring_flips_cull_mode(style: HdCullStyle, double_sided: bool)
    ensures
        cull_mode_for_style(style, double_sided, true) == flip_cull_mode(
            cull_mode_for_style(style, double_sided, false),
        ),
{
}

/// A cull style culls the face it names on a prim that is not mirrored,
/// whatever its sidedness; an "unless double sided" style culls as its
/// plain style does on a single-sided prim; styles that name no face cull
/// nothing.
pub proof fn lemma_cull_style_names_culled_face(double_sided: bool, mirrored: bool)
    ensures
        cull_mode_for_style(HdCullStyle::Front, double_sided, false) == HgiCullMode::Front,
        cull_mode_for_style(HdCullStyle::Back, double_sided, false) == HgiCullMode::Back,
        cull_mode_for_style(HdCullStyle::FrontUnlessDoubleSided, false, mirrored) == cull_mode_for_style(
            HdCullStyle::Front,
            double_sided,
            mirrored,
        ),
        cull_mode_for_style(HdCullStyle::BackUnlessDoubleSided, false, mirrored) == cull_mode_for_style(
            HdCullStyle::Back,
            double_sided,
            mirrored,
        ),
        cull_mode_for_style(HdCullStyle::Nothing, double_sided, mirrored) == HgiCullMode::NoCull,
        cull_mode_for_style(HdCullStyle::DontCare, double_sided, mirrored) == HgiCullMode::NoCull,
{
}

/// Double-sided prims with an "unless double sided" style are never culled,
/// and no style ever culls both faces.
pub proof fn lemma_double_sided_not_culled(style: HdCullStyle, mirrored: bool)
    ensures
        (style is BackUnlessDoubleSided || style is FrontUnlessDoubleSided) ==> cull_mode_for_style(
            style,
            true,
            mirrored,
        ) == HgiCullMode::NoCull,
        cull_mode_for_style(style, true, mirrored) != HgiCullMode::FrontAndBack,
        cull_mode_for_style(style, false, mirrored) != HgiCullMode::FrontAndBack,
{
}

/// Text of the vertex stage.
pub open spec fn vertex_shader_glsl(has_vertex_colors: bool, has_texture_coords: bool) -> Seq<char> {
    "#version 450\n\n"@
        + "layout(location = 0) in vec3 position;\n"@
        + "layout(location = 1) in vec3 normal;\n"@
        + text_if(has_vertex_colors, "layout(location = 2) in vec4 color;\n"@)
        + text_if(has_texture_coords, "layout(location = 3) in vec2 uv;\n"@)
        + "\nlayout(binding = 0) uniform Transform {\n"@
        + "    mat4 modelViewProjection;\n"@
        + "    mat4 modelView;\n"@
        + "};\n\n"@
        + "out VertexData {\n"@
        + "    vec3 position;\n"@
        + "    vec3 normal;\n"@
        + text_if(has_vertex_colors, "    vec4 color;\n"@)
        + text_if(has_texture_coords, "    vec2 uv;\n"@)
        + "} outData;\n\n"@
        + "void main() {\n"@
        + "    gl_Position = modelViewProjection * vec4(position, 1.0);\n"@
        + "    outData.position = (modelView * vec4(position, 1.0)).xyz;\n"@
        + "    outData.normal = mat3(modelView) * normal;\n"@
        + text_if(has_vertex_colors, "    outData.color = color;\n"@)
        + text_if(has_texture_coords, "    outData.uv = uv;\n"@)
        + "}\n"@
}

/// Vertex stage: position and normal inputs, optional color and texture
/// coordinate inputs, the transform uniforms, and `main` passing the
/// attributes on in view space.
pub fn generate_vertex_shader(has_vertex_colors: bool, has_texture_coords: bool) -> (src: String)
    ensures
        src@ == vertex_shader_glsl(has_vertex_colors, has_texture_coords),
{
    let mut src = String::from_str("#version 450\n\n");
    let ghost mut acc: Seq<char> = "#version 450\n\n"@;
    src.append("layout(location = 0) in vec3 position;\n");
    proof {
        acc = acc + "layout(location = 0) in vec3 position;\n"@;
    }
    src.append("layout(location = 1) in vec3 normal;\n");
    proof {
        acc = acc + "layout(location = 1) in vec3 normal;\n"@;
    }
    if has_vertex_colors {
        src.append("layout(location = 2) in vec4 color;\n");
    }
    proof {
        assert(acc + Seq::<char>::empty() =~= acc);
        acc = acc + text_if(has_vertex_colors, "layout(location = 2) in vec4 color;\n"@);
    }
    if has_texture_coords {
        src.append("layout(location = 3) in vec2 uv;\n");
    }
    proof {
        assert(acc + Seq::<char>::empty() =~= acc);
        acc = acc + text_if(has_texture_coords, "layout(location = 3) in vec2 uv;\n"@);
    }
    src.append("\nlayout(binding = 0) uniform Transform {\n");
    proof {
        acc = acc + "\nlayout(binding = 0) uniform Transform {\n"@;
    }
    src.append("    mat4 modelViewProjection;\n");
    proof {
        acc = acc + "    mat4 modelViewProjection;\n"@;
    }
    src.append("    mat4 modelView;\n");
    proof {
        acc = acc + "    mat4 modelView;\n"@;
    }
    src.append("};\n\n");
    proof {
        acc = acc + "};\n\n"@;
    }
    src.append("out VertexData {\n");
    proof {
        acc = acc + "out VertexData {\n"@;
    }
    src.append("    vec3 position;\n");
    proof {
        acc = acc + "    vec3 position;\n"@;
    }
    src.append("    vec3 normal;\n");
    proof {
        acc = acc + "    vec3 normal;\n"@;
    }
    if has_vertex_colors {
        src.append("    vec4 color;\n");
    }
    proof {
        assert(acc + Seq::<char>::empty() =~= acc);
        acc = acc + text_if(has_vertex_colors, "    vec4 color;\n"@);
    }
    if has_texture_coords {
        src.append("    vec2 uv;\n");
    }
    proof {
        assert(acc + Seq::<char>::empty() =~= acc);
        acc = acc + text_if(has_texture_coords, "    vec2 uv;\n"@);
    }
    src.append("} outData;\n\n");
    proof {
        acc = acc + "} outData;\n\n"@;
    }
    src.append("void main() {\n");
    proof {
        acc = acc + "void main() {\n"@;
    }
    src.append("    gl_Position = modelViewProjection * vec4(position, 1.0);\n");
    proof {
        acc = acc + "    gl_Position = modelViewProjection * vec4(position, 1.0);\n"@;
    }
    src.append("    outData.position = (modelView * vec4(position, 1.0)).xyz;\n");
    proof {
        acc = acc + "    outData.position = (modelView * vec4(position, 1.0)).xyz;\n"@;
    }
    src.append("    outData.normal = mat3(modelView) * normal;\n");
    proof {
        acc = acc + "    outData.normal = mat3(modelView) * normal;\n"@;
    }
    if has_vertex_colors {
        src.append("    outData.color = color;\n");
    }
    proof {
        assert(acc + Seq::<char>::empty() =~= acc);
        acc = acc + text_if(has_vertex_colors, "    outData.color = color;\n"@);
    }
    if has_texture_coords {
        src.append("    outData.uv = uv;\n");
    }
    proof {
        assert(acc + Seq::<char>::empty() =~= acc);
        acc = acc + text_if(has_texture_coords, "    outData.uv = uv;\n"@);
    }
    src.append("}\n");
    proof {
        acc = acc + "}\n"@;
    }
    proof {
        assert(acc == vertex_shader_glsl(has_vertex_colors, has_texture_coords));
    }
    src
}

/// Text of the tessellation control stage.
pub open spec fn tess_control_shader_glsl() -> Seq<char> {
    "#version 450\n\n"@
        + "layout(vertices = 4) out;\n\n"@
        + "void main() {\n"@
        + "    gl_TessLevelOuter[0] = 4.0;\n"@
        + "    gl_TessLevelOuter[1] = 4.0;\n"@
        + "    gl_TessLevelOuter[2] = 4.0;\n"@
        + "    gl_TessLevelOuter[3] = 4.0;\n"@
        + "    gl_TessLevelInner[0] = 4.0;\n"@
        + "    gl_TessLevelInner[1] = 4.0;\n"@
        + "}\n"@
}

/// Tessellation control stage: quad patches at a uniform level of four.
pub fn generate_tess_control_shader() -> (src: String)
    ensures
        src@ == tess_control_shader_glsl(),
{
    let mut src = String::from_str("#version 450\n\n");
    let ghost mut acc: Seq<char> = "#version 450\n\n"@;
    src.append("layout(vertices = 4) out;\n\n");
    proof {
        acc = acc + "layout(vertices = 4) out;\n\n"@;
    }
    src.append("void main() {\n");
    proof {
        acc = acc + "void main() {\n"@;
    }
    src.append("    gl_TessLevelOuter[0] = 4.0;\n");
    proof {
        acc = acc + "    gl_TessLevelOuter[0] = 4.0;\n"@;
    }
    src.append("    gl_TessLevelOuter[1] = 4.0;\n");
    proof {
        acc = acc + "    gl_TessLevelOuter[1] = 4.0;\n"@;
    }
    src.append("    gl_TessLevelOuter[2] = 4.0;\n");
    proof {
        acc = acc + "    gl_TessLevelOuter[2] = 4.0;\n"@;
    }
    src.append("    gl_TessLevelOuter[3] = 4.0;\n");
    proof {
        acc = acc + "    gl_TessLevelOuter[3] = 4.0;\n"@;
    }
    src.append("    gl_TessLevelInner[0] = 4.0;\n");
    proof {
        acc = acc + "    gl_TessLevelInner[0] = 4.0;\n"@;
    }
    src.append("    gl_TessLevelInner[1] = 4.0;\n");
    proof {
        acc = acc + "    gl_TessLevelInner[1] = 4.0;\n"@;
    }
    src.append("}\n");
    proof {
        acc = acc + "}\n"@;
    }
    proof {
        assert(acc == tess_control_shader_glsl());
    }
    src
}

/// Text of the tessellation evaluation stage.
pub open spec fn tess_eval_shader_glsl() -> Seq<char> {
    "#version 450\n\n"@
        + "layout(quads, equal_spacing, ccw) in;\n\n"@
        + "void main() {\n"@
        + "    gl_Position = gl_in[0].gl_Position;\n"@
        + "}\n"@
}

/// Tessellation evaluation stage: passes the first control point through.
pub fn generate_tess_eval_shader() -> (src: String)
    ensures
        src@ == tess_eval_shader_glsl(),
{
    let mut src = String::from_str("#version 450\n\n");
    let ghost mut acc: Seq<char> = "#version 450\n\n"@;
    src.append("layout(quads, equal_spacing, ccw) in;\n\n");
    proof {
        acc = acc + "layout(quads, equal_spacing, ccw) in;\n\n"@;
    }
    src.append("void main() {\n");
    proof {
        acc = acc + "void main() {\n"@;
    }
    src.append("    gl_Position = gl_in[0].gl_Position;\n");
    proof {
        acc = acc + "    gl_Position = gl_in[0].gl_Position;\n"@;
    }
    src.append("}\n");
    proof {
        acc = acc + "}\n"@;
    }
    proof {
        assert(acc == tess_eval_shader_glsl());
    }
    src
}

/// Text of the geometry stage.
pub open spec fn geometry_shader_glsl() -> Seq<char> {
    "#version 450\n\n"@
        + "layout(triangles) in;\n"@
        + "layout(triangle_strip, max_vertices = 3) out;\n\n"@
        + "void main() {\n"@
        + "    for (int i = 0; i < 3; i++) {\n"@
        + "        gl_Position = gl_in[i].gl_Position;\n"@
        + "        EmitVertex();\n"@
        + "    }\n"@
        + "    EndPrimitive();\n"@
        + "}\n"@
}

/// Geometry stage: re-emits each triangle unchanged.
pub fn generate_geometry_shader() -> (src: String)
    ensures
        src@ == geometry_shader_glsl(),
{
    let mut src = String::from_str("#version 450\n\n");
    let ghost mut acc: Seq<char> = "#version 450\n\n"@;
    src.append("layout(triangles) in;\n");
    proof {
        acc = acc + "layout(triangles) in;\n"@;
    }
    src.append("layout(triangle_strip, max_vertices = 3) out;\n\n");
    proof {
        acc = acc + "layout(triangle_strip, max_vertices = 3) out;\n\n"@;
    }
    src.append("void main() {\n");
    proof {
        acc = acc + "void main() {\n"@;
    }
    src.append("    for (int i = 0; i < 3; i++) {\n");
    proof {
        acc = acc + "    for (int i = 0; i < 3; i++) {\n"@;
    }
    src.append("        gl_Position = gl_in[i].gl_Position;\n");
    proof {
        acc = acc + "        gl_Position = gl_in[i].gl_Position;\n"@;
    }
    src.append("        EmitVertex();\n");
    proof {
        acc = acc + "        EmitVertex();\n"@;
    }
    src.append("    }\n");
    proof {
        acc = acc + "    }\n"@;
    }
    src.append("    EndPrimitive();\n");
    proof {
        acc = acc + "    EndPrimitive();\n"@;
    }
    src.append("}\n");
    proof {
        acc = acc + "}\n"@;
    }
    proof {
        assert(acc == geometry_shader_glsl());
    }
    src
}

} // verus!
