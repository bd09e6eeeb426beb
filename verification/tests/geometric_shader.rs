use usd_hd_st::geometric_shader::{
    generate_geometry_shader, generate_tess_control_shader, generate_tess_eval_shader,
    generate_vertex_shader, GsPrimitiveType,
};

#[test]
fn test_primitive_index_sizes() {
    assert_eq!(GsPrimitiveType::Points.primitive_index_size(), 1);
    assert_eq!(GsPrimitiveType::BasisCurvesLines.primitive_index_size(), 2);
    assert_eq!(GsPrimitiveType::MeshCoarseTriangles.primitive_index_size(), 3);
    assert_eq!(GsPrimitiveType::MeshCoarseQuads.primitive_index_size(), 4);
    assert_eq!(GsPrimitiveType::MeshCoarseTriQuads.primitive_index_size(), 6);
    assert_eq!(GsPrimitiveType::MeshBspline.primitive_index_size(), 16);
    assert_eq!(GsPrimitiveType::MeshBoxsplineTriangle.primitive_index_size(), 12);
    assert_eq!(GsPrimitiveType::Compute.primitive_index_size(), 0);
}

#[test]
fn test_prim_type_queries() {
    assert!(GsPrimitiveType::MeshBspline.is_patches());
    assert!(GsPrimitiveType::MeshCoarseTriangles.is_triangles());
    assert!(GsPrimitiveType::MeshCoarseQuads.is_quads());
    assert!(GsPrimitiveType::MeshRefinedQuads.is_refined_mesh());
    assert!(GsPrimitiveType::BasisCurvesLines.is_basis_curves());
    assert!(GsPrimitiveType::Compute.is_compute());
}

#[test]
fn vertex_shader_optional_inputs() {
    let plain = generate_vertex_shader(false, false);
    assert!(plain.starts_with("#version 450\n\n"));
    assert!(plain.contains("layout(location = 0) in vec3 position;\n"));
    assert!(!plain.contains("vec4 color"));
    assert!(!plain.contains("vec2 uv"));
    assert!(plain.ends_with("}\n"));

    let full = generate_vertex_shader(true, true);
    assert!(full.contains("layout(location = 2) in vec4 color;\n"));
    assert!(full.contains("layout(location = 3) in vec2 uv;\n"));
    assert!(full.contains("    outData.color = color;\n"));
    assert!(full.contains("    outData.uv = uv;\n"));
    assert!(full.len() > plain.len());
}

#[test]
fn tessellation_and_geometry_stages() {
    let tc = generate_tess_control_shader();
    assert!(tc.contains("layout(vertices = 4) out;"));
    assert_eq!(tc.matches("= 4.0;").count(), 6);
    let te = generate_tess_eval_shader();
    assert_eq!(
        te,
        "#version 450\n\nlayout(quads, equal_spacing, ccw) in;\n\nvoid main() {\n    gl_Position = gl_in[0].gl_Position;\n}\n"
    );
    let gs = generate_geometry_shader();
    assert!(gs.contains("max_vertices = 3"));
    assert!(gs.contains("EmitVertex();"));
}

use usd_hd_st::geometric_shader::{FvarPatchType, HdStGeometricShader};
use usd_hd_st::hd_types::{HdCullStyle, HdPolygonMode};
use usd_hd_st::hgi_types::{HgiCullMode, HgiPrimitiveType};
use usd_hd_st::shader_key::GeometricStyle;

fn make_tri(use_hw_face_culling: bool, mirrored: bool) -> HdStGeometricShader {
    HdStGeometricShader::new(
        GsPrimitiveType::MeshCoarseTriangles,
        HdCullStyle::Back,
        use_hw_face_culling,
        mirrored,
        false,
        HdPolygonMode::Fill,
        false,
        FvarPatchType::NoFvarPatch,
        1.0f32.to_bits(),
    )
}

#[test]
fn test_hgi_primitive_types() {
    assert_eq!(GsPrimitiveType::Points.hgi_primitive_type(), HgiPrimitiveType::PointList);
    assert_eq!(GsPrimitiveType::BasisCurvesLines.hgi_primitive_type(), HgiPrimitiveType::LineList);
    assert_eq!(GsPrimitiveType::MeshBspline.hgi_primitive_type(), HgiPrimitiveType::PatchList);
    assert_eq!(GsPrimitiveType::MeshCoarseTriangles.hgi_primitive_type(), HgiPrimitiveType::TriangleList);
}

#[test]
fn test_resolve_cull_no_hw() {
    let s = make_tri(false, false);
    assert_eq!(s.resolve_cull_mode(HdCullStyle::Back), HgiCullMode::NoCull);
}

#[test]
fn test_resolve_cull_back() {
    let s = make_tri(true, false);
    assert_eq!(s.resolve_cull_mode(HdCullStyle::DontCare), HgiCullMode::Back);
}

#[test]
fn test_resolve_cull_mirrored() {
    let s = make_tri(true, true);
    assert_eq!(s.resolve_cull_mode(HdCullStyle::DontCare), HgiCullMode::Front);
}

#[test]
fn test_resolve_cull_double_sided() {
    let make = |double_sided: bool| {
        HdStGeometricShader::new(
            GsPrimitiveType::MeshCoarseTriangles,
            HdCullStyle::BackUnlessDoubleSided,
            true,
            false,
            double_sided,
            HdPolygonMode::Fill,
            false,
            FvarPatchType::NoFvarPatch,
            1.0f32.to_bits(),
        )
    };
    assert_eq!(make(true).resolve_cull_mode(HdCullStyle::DontCare), HgiCullMode::NoCull);
    assert_eq!(make(false).resolve_cull_mode(HdCullStyle::DontCare), HgiCullMode::Back);
}

#[test]
fn test_wireframe_mode() {
    let s = HdStGeometricShader::new(
        GsPrimitiveType::MeshCoarseTriangles,
        HdCullStyle::Nothing,
        true,
        false,
        false,
        HdPolygonMode::Line,
        false,
        FvarPatchType::NoFvarPatch,
        2.0f32.to_bits(),
    );
    assert_eq!(s.get_polygon_mode(), HdPolygonMode::Line);
    assert_eq!(f32::from_bits(s.get_line_width()), 2.0);
    assert_eq!(s.get_geom_style(), GeometricStyle::Edges);
}

#[test]
fn test_frustum_culling_pass() {
    let s = HdStGeometricShader::new(
        GsPrimitiveType::Compute,
        HdCullStyle::Nothing,
        false,
        false,
        false,
        HdPolygonMode::Fill,
        true,
        FvarPatchType::NoFvarPatch,
        0.0f32.to_bits(),
    );
    assert!(s.is_frustum_culling_pass());
    assert_eq!(s.get_hgi_primitive_type(), HgiPrimitiveType::TriangleList);
}

#[test]
fn rprim_cull_style_wins_over_render_state() {
    let s = make_tri(true, false);
    assert_eq!(s.resolve_cull_mode(HdCullStyle::Front), HgiCullMode::Back);
    assert_eq!(s.resolve_cull_mode(HdCullStyle::Nothing), HgiCullMode::Back);
    let m = make_tri(true, true);
    assert_eq!(m.resolve_cull_mode(HdCullStyle::Front), HgiCullMode::Front);
    let dont_care = HdStGeometricShader::new(
        GsPrimitiveType::MeshCoarseTriangles,
        HdCullStyle::DontCare,
        true,
        false,
        false,
        HdPolygonMode::Fill,
        false,
        FvarPatchType::NoFvarPatch,
        1.0f32.to_bits(),
    );
    assert_eq!(dont_care.resolve_cull_mode(HdCullStyle::Front), HgiCullMode::Front);
    assert_eq!(dont_care.resolve_cull_mode(HdCullStyle::Nothing), HgiCullMode::NoCull);
}
