use usd_hd_st::material::{
    compute_texture_hash, terminal_node, HdStMaterial, MaterialNetwork2, ShadingFloats, TextureType,
    MATERIAL_ALL_DIRTY, MATERIAL_DIRTY_PARAMS,
};
use usd_hd_st::material_network::MaterialNode;
use usd_hd_st::material_network_shader::ParamType;
use usd_hd_st::material_param::FallbackValue;
use usd_hd_st::shader_code::ShaderStage;

fn text(s: &str) -> FallbackValue {
    FallbackValue::String(s.to_string())
}

fn node(
    identifier: &str,
    path: &str,
    parameters: Vec<(&str, FallbackValue)>,
    connections: Vec<(&str, Vec<(&str, &str)>)>,
) -> MaterialNode {
    MaterialNode {
        identifier: identifier.to_string(),
        path: path.to_string(),
        parameters: parameters.into_iter().map(|(k, v)| (k.to_string(), v)).collect(),
        input_connections: connections
            .into_iter()
            .map(|(k, cs)| {
                (k.to_string(), cs.into_iter().map(|(p, o)| (p.to_string(), o.to_string())).collect())
            })
            .collect(),
    }
}

fn preview_network() -> MaterialNetwork2 {
    MaterialNetwork2 {
        nodes: vec![
            node("UsdPreviewSurface", "/mat/disp", vec![], vec![]),
            node("UsdPtexTexture", "/mat/ptex", vec![("file", text("skin.ptex"))], vec![]),
            node(
                "UsdPreviewSurface",
                "/mat/surf",
                vec![
                    ("opacity", FallbackValue::Float(0.5f32.to_bits())),
                    ("roughness", FallbackValue::Float(0.3f32.to_bits())),
                ],
                vec![("diffuseColor", vec![("/mat/tex", "rgb")])],
            ),
            node(
                "UsdUVTexture",
                "/mat/tex",
                vec![("file", text("albedo.png")), ("wrapS", text("repeat"))],
                vec![],
            ),
            node("VolumeShader", "/mat/vol", vec![], vec![]),
        ],
        terminals: vec![
            ("surface".to_string(), "/mat/surf".to_string()),
            ("displacement".to_string(), "/mat/disp".to_string()),
            ("volume".to_string(), "/mat/vol".to_string()),
        ],
    }
}

fn floats(fragment: &str, params: Vec<u8>, scale: &str) -> ShadingFloats<Vec<u8>> {
    ShadingFloats {
        surface_fragment: fragment.to_string(),
        surface_params: params,
        displacement_scale: scale.to_string(),
    }
}

const FALLBACK: &str = "\n// Fallback surface: constant grey\nfn compute_surface(in: VertexOutput) -> vec4<f32> {\n    return vec4<f32>(0.18, 0.18, 0.18, 1.0);\n}\n";

#[test]
fn test_initial_dirty_bits() {
    let bits = HdStMaterial::<()>::get_initial_dirty_bits_mask();
    assert_ne!(bits, 0);
    assert_eq!(bits, MATERIAL_ALL_DIRTY);
}

#[test]
fn terminal_node_follows_terminal_path() {
    let net = preview_network();
    assert_eq!(terminal_node(&net, "surface").unwrap().path, "/mat/surf");
    assert_eq!(terminal_node(&net, "volume").unwrap().identifier, "VolumeShader");
    assert!(terminal_node(&net, "missing").is_none());
}

#[test]
fn sync_from_network_reads_every_terminal() {
    let net = preview_network();
    let mut m: HdStMaterial<Vec<u8>> = HdStMaterial::new("/mat".to_string());
    let mut bits = MATERIAL_ALL_DIRTY;
    m.sync_from_network(&mut bits, Some(&net), floats("fn surface() {}\n", vec![1, 2], "0.500000"));
    assert_eq!(bits, 0);
    assert_eq!(m.get_fragment_source(), "fn surface() {}\n");
    assert!(!m.is_using_fallback());
    assert_eq!(m.get_tag(), "translucent");
    assert_eq!(
        m.get_displacement_source(),
        "// Displacement terminal: UsdPreviewSurface\nfn compute_displacement(in_pos: vec3<f32>, in_normal: vec3<f32>) -> vec3<f32> {\n    let disp_scale: f32 = 0.500000;\n    return in_pos + in_normal * disp_scale;\n}\n"
    );
    assert!(m.has_displacement());
    assert_eq!(m.get_volume_source(), "// volume terminal: VolumeShader\n");
    assert_eq!(m.get_volume_material_data().source, "// volume terminal: VolumeShader\n");
    assert_eq!(m.get_volume_material_data().params.len(), 2);
    assert_eq!(m.get_material_params(), &vec![1u8, 2]);
    assert!(matches!(m.get_param("opacity"), Some(FallbackValue::Float(b)) if *b == 0.5f32.to_bits()));
    assert!(matches!(m.get_param("roughness"), Some(FallbackValue::Float(b)) if *b == 0.3f32.to_bits()));

    let descs = m.get_texture_descriptors();
    assert_eq!(descs.len(), 2);
    assert_eq!(descs[0].name, "unknown");
    assert_eq!(descs[0].file_path, "skin.ptex");
    assert_eq!(descs[0].texture_type, TextureType::Ptex);
    assert_eq!(descs[1].name, "diffuseColor");
    assert_eq!(descs[1].file_path, "albedo.png");
    assert_eq!(descs[1].texture_type, TextureType::Uv);
    assert_eq!(descs[1].sampler_params.wrap_s, "repeat");
    assert_eq!(descs[1].sampler_params.wrap_t, "useMetadata");
    assert!(m.has_ptex());
    assert_eq!(m.get_texture_hash(), compute_texture_hash(descs));
    assert_ne!(m.get_texture_hash(), 0);
    let paths = m.get_texture_paths();
    assert_eq!(paths.len(), 2);
    assert!(paths.contains(&("diffuseColor".to_string(), "albedo.png".to_string())));
    assert!(paths.contains(&("unknown".to_string(), "skin.ptex".to_string())));

    assert!(m.is_compiled());
    assert_eq!(m.get_shader_handle(), 1);
    assert!(!m.is_network_dirty());

    let ns = m.get_network_shader();
    assert_eq!(ns.get_source(ShaderStage::Fragment), "fn surface() {}\n");
    assert_eq!(ns.get_material_tag(), "translucent");
    assert_eq!(ns.get_material_params(), &vec![1u8, 2]);
    let ps = ns.get_params();
    assert_eq!(ps.len(), 4);
    assert_eq!(ps[0].param_type, ParamType::Fallback);
    assert_eq!(ps[0].name, "opacity");
    assert_eq!(ps[2].param_type, ParamType::Texture);
    assert_eq!(ps[2].name, "unknown");
    assert_eq!(ps[3].name, "diffuseColor");
    assert_eq!(ps[3].sampler_coords, vec!["st".to_string()]);
}

#[test]
fn sync_without_network_falls_back_to_grey() {
    let mut m: HdStMaterial<Vec<u8>> = HdStMaterial::new("/mat".to_string());
    m.set_tag("masked".to_string());
    let mut bits = MATERIAL_ALL_DIRTY;
    m.sync_from_network(&mut bits, None, floats("unused", vec![9], "1.000000"));
    assert_eq!(bits, 0);
    assert_eq!(m.get_fragment_source(), FALLBACK);
    assert!(m.is_using_fallback());
    assert_eq!(m.get_tag(), "masked");
    assert_eq!(m.get_displacement_source(), "");
    assert!(!m.has_displacement());
    assert!(m.get_texture_descriptors().is_empty());
    assert!(!m.has_ptex());
    assert_eq!(m.get_material_params(), &Vec::<u8>::new());
    assert!(m.is_compiled());
}

#[test]
fn opaque_surface_keeps_tag() {
    let net = MaterialNetwork2 {
        nodes: vec![node(
            "UsdPreviewSurface",
            "/m/s",
            vec![("opacity", FallbackValue::Float(1.0f32.to_bits()))],
            vec![],
        )],
        terminals: vec![("surface".to_string(), "/m/s".to_string())],
    };
    let mut m: HdStMaterial<Vec<u8>> = HdStMaterial::new("/m".to_string());
    let mut bits = MATERIAL_DIRTY_PARAMS;
    m.sync_from_network(&mut bits, Some(&net), floats("x", vec![], "0.000000"));
    assert_eq!(m.get_tag(), "defaultMaterialTag");
    assert_eq!(m.get_fragment_source(), "x");
    assert!(!m.has_displacement());
}

#[test]
fn clean_sync_leaves_material_and_other_bits_are_cleared() {
    let net = preview_network();
    let mut m: HdStMaterial<Vec<u8>> = HdStMaterial::new("/mat".to_string());
    let mut bits = MATERIAL_ALL_DIRTY;
    m.sync_from_network(&mut bits, Some(&net), floats("first", vec![1], "0.500000"));
    assert_eq!(m.get_fragment_source(), "first");

    let mut bits = 0;
    m.sync_from_network(&mut bits, None, floats("second", vec![2], "0.500000"));
    assert_eq!(bits, 0);
    assert_eq!(m.get_fragment_source(), "first");

    let mut bits = 1;
    m.sync_from_network(&mut bits, None, floats("third", vec![3], "0.500000"));
    assert_eq!(bits, 0);
    assert_eq!(m.get_fragment_source(), "first");
    assert_eq!(m.get_material_params(), &vec![1u8]);
}

#[test]
fn sync_without_param_or_resource_bit_leaves_new_material() {
    let net = preview_network();
    let mut m: HdStMaterial<Vec<u8>> = HdStMaterial::new("/mat".to_string());
    let mut bits = 0;
    m.sync_from_network(&mut bits, Some(&net), floats("frag", vec![1], "0.500000"));
    assert_eq!(bits, 0);
    assert_eq!(m.get_fragment_source(), "");
    assert_eq!(m.get_tag(), "defaultMaterialTag");
    assert!(m.get_params().is_empty());
    assert!(!m.is_compiled());
    assert!(m.is_network_dirty());
    assert!(!m.is_using_fallback());
    assert!(m.get_texture_descriptors().is_empty());
    assert_eq!(m.get_texture_hash(), 0);
}
