use usd_hd_st::material::SamplerParams as TextureSamplerParams;
use usd_hd_st::material_network::{
    is_primvar_reader_node, is_texture_node, resolve_texture_coordinate_primvar, FilterMode,
    HdStMaterialNetwork, MaterialNode, SamplerParams, WrapMode,
};
use usd_hd_st::material_param::{FallbackValue, HdStTextureType, ParamType};

#[test]
fn test_texture_node_detection() {
    assert!(is_texture_node("UsdUVTexture"));
    assert!(is_texture_node("MtlxImage"));
    assert!(!is_texture_node("UsdPreviewSurface"));
}

#[test]
fn test_primvar_reader_detection() {
    assert!(is_primvar_reader_node("UsdPrimvarReader_float3"));
    assert!(!is_primvar_reader_node("UsdUVTexture"));
}

#[test]
fn material_network_test_sampler_params_default() {
    let sp = SamplerParams::default();
    assert_eq!(sp.wrap_s, WrapMode::Repeat);
    assert_eq!(sp.mag_filter, FilterMode::Linear);
}

#[test]
fn material_test_sampler_params_default() {
    let sp = TextureSamplerParams::default();
    assert_eq!(sp.wrap_s, "useMetadata");
    assert_eq!(sp.min_filter, "linear");
    assert_eq!(sp.mag_filter, "linear");
}

fn node(
    identifier: &str,
    path: &str,
    parameters: Vec<(&str, FallbackValue)>,
    connections: Vec<(&str, Vec<(&str, &str)>)>,
) -> MaterialNode {
    MaterialNode {
        identifier: identifier.to_string(),
        path: path.to_string(),
        parameters: parameters.into_iter().map(|(k, v)| (k.to_string(), v)).collect(),
        input_connections: connections
            .into_iter()
            .map(|(k, cs)| {
                (
                    k.to_string(),
                    cs.into_iter().map(|(p, o)| (p.to_string(), o.to_string())).collect(),
                )
            })
            .collect(),
    }
}

#[test]
fn test_material_network_default() {
    let net = HdStMaterialNetwork::new();
    assert_eq!(net.get_material_tag(), "defaultMaterialTag");
    assert!(net.get_fragment_code().is_empty());
    assert!(net.get_material_params().is_empty());
    assert!(net.get_texture_descriptors().is_empty());
}

#[test]
fn test_texture_param_uses_connected_primvar_reader_varname() {
    let texture_node = node("UsdUVTexture", "/Tex", vec![], vec![("st", vec![("/Reader", "result")])]);
    let reader_node = node(
        "UsdPrimvarReader_float2",
        "/Reader",
        vec![("varname", FallbackValue::String("st1".to_string()))],
        vec![],
    );
    assert_eq!(
        resolve_texture_coordinate_primvar(&texture_node, &[texture_node.clone(), reader_node]),
        "st1"
    );
}

#[test]
fn texture_coordinate_primvar_prefers_authored_st_then_varname_then_st() {
    let authored = node(
        "UsdUVTexture",
        "/Tex",
        vec![
            ("st", FallbackValue::String("uv0".to_string())),
            ("varname", FallbackValue::String("uv9".to_string())),
        ],
        vec![],
    );
    assert_eq!(resolve_texture_coordinate_primvar(&authored, &[]), "uv0");
    let varname_only =
        node("UsdUVTexture", "/Tex", vec![("varname", FallbackValue::String("map1".to_string()))], vec![]);
    assert_eq!(resolve_texture_coordinate_primvar(&varname_only, &[]), "map1");
    let bare = node("UsdUVTexture", "/Tex", vec![], vec![]);
    assert_eq!(resolve_texture_coordinate_primvar(&bare, &[]), "st");
    let non_text_st = node("UsdUVTexture", "/Tex", vec![("st", FallbackValue::Int(2))], vec![]);
    assert_eq!(resolve_texture_coordinate_primvar(&non_text_st, &[]), "st");
}

#[test]
fn process_preview_surface_with_texture_and_reader() {
    let surface = node(
        "UsdPreviewSurface",
        "/Mat/Surface",
        vec![
            ("diffuseColor", FallbackValue::Vec3([0; 3])),
            ("roughness", FallbackValue::Float(0.5f32.to_bits())),
        ],
        vec![
            ("diffuseColor", vec![("/Mat/Tex", "rgb")]),
            ("roughness", vec![("/Mat/Reader", "result")]),
        ],
    );
    let tex = node(
        "UsdUVTexture",
        "/Mat/Tex",
        vec![("file", FallbackValue::String("albedo.png".to_string()))],
        vec![],
    );
    let reader = node(
        "UsdPrimvarReader_float",
        "/Mat/Reader",
        vec![("varname", FallbackValue::String("rough".to_string()))],
        vec![],
    );
    let nodes = vec![tex, reader, surface];
    let mut net = HdStMaterialNetwork::new();
    net.process("/Mat", &nodes, Some("/Mat/Surface"));
    assert_eq!(net.get_material_tag(), "defaultMaterialTag");
    let params = net.get_material_params();
    assert_eq!(params.len(), 4);
    assert_eq!(params[0].param_type, ParamType::Texture);
    assert_eq!(params[0].name, "diffuseColor");
    assert_eq!(params[0].sampler_coords, vec!["st".to_string()]);
    assert_eq!(params[1].param_type, ParamType::Fallback);
    assert_eq!(params[1].name, "diffuseColor");
    assert_eq!(params[2].param_type, ParamType::PrimvarRedirect);
    assert_eq!(params[2].sampler_coords, vec!["rough".to_string()]);
    assert!(matches!(params[2].fallback_value, FallbackValue::Float(b) if b == 0.5f32.to_bits()));
    assert_eq!(params[3].param_type, ParamType::Fallback);
    let textures = net.get_texture_descriptors();
    assert_eq!(textures.len(), 1);
    assert_eq!(textures[0].name, "diffuseColor");
    assert_eq!(textures[0].texture_id, "albedo.png");
    assert_eq!(textures[0].texture_type, HdStTextureType::Uv);
    assert_eq!(textures[0].sampler_params, SamplerParams::default());
    let code = net.get_fragment_code();
    assert!(code.starts_with("// Surface shader: UsdPreviewSurface\n"));
    assert!(code.contains("HdGet_diffuseColor()"));
    assert!(code.contains("return vec4<f32>(diffuseColor + emissiveColor, opacity);"));
}

#[test]
fn process_marks_translucent_materials() {
    let below_one =
        node("UsdPreviewSurface", "/S", vec![("opacity", FallbackValue::Float(0.5f32.to_bits()))], vec![]);
    let mut net = HdStMaterialNetwork::new();
    net.process("/M", &[below_one], None);
    assert_eq!(net.get_material_tag(), "translucent");

    let opaque =
        node("UsdPreviewSurface", "/S", vec![("opacity", FallbackValue::Float(1.0f32.to_bits()))], vec![]);
    net.process("/M", &[opaque], None);
    assert_eq!(net.get_material_tag(), "defaultMaterialTag");

    let negative =
        node("UsdPreviewSurface", "/S", vec![("opacity", FallbackValue::Float((-2.0f32).to_bits()))], vec![]);
    net.process("/M", &[negative], None);
    assert_eq!(net.get_material_tag(), "translucent");

    let nan = node("UsdPreviewSurface", "/S", vec![("opacity", FallbackValue::Float(f32::NAN.to_bits()))], vec![]);
    net.process("/M", &[nan], None);
    assert_eq!(net.get_material_tag(), "defaultMaterialTag");

    let connected = node("UsdPreviewSurface", "/S", vec![], vec![("opacity", vec![("/T", "a")])]);
    net.process("/M", &[connected], None);
    assert_eq!(net.get_material_tag(), "translucent");
}

#[test]
fn process_without_nodes_clears_outputs() {
    let surface = node("UsdPreviewSurface", "/S", vec![("metallic", FallbackValue::Float(0))], vec![]);
    let mut net = HdStMaterialNetwork::default();
    net.process("/M", &[surface], None);
    assert_eq!(net.get_material_params().len(), 1);
    assert!(!net.get_fragment_code().is_empty());
    net.process("/M", &[], None);
    assert!(net.get_material_params().is_empty());
    assert!(net.get_texture_descriptors().is_empty());
    assert!(net.get_fragment_code().is_empty());
}

#[test]
fn process_falls_back_to_last_node_and_generic_shader() {
    let first = node("UsdPreviewSurface", "/A", vec![], vec![]);
    let last = node("ND_standard_surface", "/B", vec![], vec![]);
    let mut net = HdStMaterialNetwork::new();
    net.process("/M", &[first, last], Some("/Missing"));
    assert_eq!(
        net.get_fragment_code(),
        "// Surface shader: ND_standard_surface\nfn surfaceShader(N: vec3<f32>, V: vec3<f32>) -> vec4<f32> {\n    return vec4<f32>(0.18, 0.18, 0.18, 1.0);\n}\n"
    );
    assert!(net.get_volume_code().is_empty());
    assert!(net.get_displacement_code().is_empty());
    assert!(net.get_metadata().is_empty());
}
