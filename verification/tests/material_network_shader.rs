use usd_hd_st::material_network_shader::{MaterialNetworkShader, ShaderParam};
use usd_hd_st::material_param::FallbackValue;
use usd_hd_st::shader_code::{NamedTextureHandle, ShaderStage};

fn has(names: &[String], n: &str) -> bool {
    names.iter().any(|x| x == n)
}

#[test]
fn test_new_shader_defaults() {
    let s = MaterialNetworkShader::<()>::new();
    assert!(s.get_source(ShaderStage::Fragment).is_empty());
    assert!(s.get_source(ShaderStage::Vertex).is_empty());
    assert!(s.get_params().is_empty());
    assert!(s.get_named_texture_handles().is_empty());
    assert_eq!(s.get_material_tag(), "defaultMaterialTag");
    assert!(s.is_primvar_filtering_enabled());
    assert!(has(s.get_primvar_names(), "displayColor"));
}

#[test]
fn test_set_fragment_source_invalidates_hash() {
    let mut s = MaterialNetworkShader::<()>::new();
    let h1 = s.compute_hash();
    s.set_fragment_source("fn main() {}".to_string());
    let h2 = s.compute_hash();
    assert_ne!(h1, h2);
}

#[test]
fn test_hash_stable_after_recompute() {
    let mut s = MaterialNetworkShader::<()>::new();
    s.set_fragment_source("// shader".to_string());
    let h1 = s.compute_hash();
    let h2 = s.compute_hash();
    assert_eq!(h1, h2);
}

#[test]
fn test_set_params_updates_primvars() {
    let mut s = MaterialNetworkShader::<()>::new();
    let params = vec![ShaderParam::new_primvar_redirect("st".to_string(), vec!["map1".to_string()])];
    s.set_params(params);
    let names = s.get_primvar_names();
    assert!(has(names, "st"));
    assert!(has(names, "map1"));
    assert!(has(names, "displayColor"));
}

#[test]
fn test_fallback_value_lookup() {
    let mut s = MaterialNetworkShader::<()>::new();
    let params = vec![ShaderParam::new_fallback(
        "roughness".to_string(),
        FallbackValue::Float(0.3f32.to_bits()),
    )];
    s.set_params(params);
    let fb = s.get_fallback_value("roughness");
    assert!(fb.is_some());
    assert!(matches!(fb, Some(FallbackValue::Float(b)) if b == 0.3f32.to_bits()));
}

#[test]
fn test_builtin_primvar_fallback() {
    let s = MaterialNetworkShader::<()>::new();
    let fb = s.get_fallback_value("displayOpacity");
    assert!(fb.is_some());
}

#[test]
fn test_texture_source_hash_changes_with_handles() {
    let mut s = MaterialNetworkShader::<()>::new();
    let h1 = s.compute_texture_source_hash();
    s.set_named_texture_handles(vec![NamedTextureHandle::new(
        "diffuse".to_string(),
        "2D".to_string(),
    )]);
    let h2 = s.compute_texture_source_hash();
    let _ = (h1, h2);
}

#[test]
fn material_network_shader_test_material_tag() {
    let mut s = MaterialNetworkShader::<()>::new();
    s.set_material_tag("translucent".to_string());
    assert_eq!(s.get_material_tag(), "translucent");
}

#[test]
fn test_as_shader_parameters() {
    let mut s = MaterialNetworkShader::<()>::new();
    s.set_params(vec![ShaderParam::new_fallback(
        "metallic".to_string(),
        FallbackValue::Float(0.9f32.to_bits()),
    )]);
    let sp = s.as_shader_parameters();
    assert_eq!(sp.len(), 1);
    assert_eq!(sp[0].name, "metallic");
}

#[test]
fn last_authored_fallback_wins_and_builtins_fill_in() {
    let mut s = MaterialNetworkShader::<()>::new();
    s.set_params(vec![
        ShaderParam::new_fallback("displayOpacity".to_string(), FallbackValue::Float(0.25f32.to_bits())),
        ShaderParam::new_fallback("displayOpacity".to_string(), FallbackValue::Float(0.75f32.to_bits())),
        ShaderParam::new_primvar_redirect("displayColor".to_string(), vec![]),
    ]);
    assert!(matches!(
        s.get_fallback_value("displayOpacity"),
        Some(FallbackValue::Float(b)) if b == 0.75f32.to_bits()
    ));
    assert!(matches!(
        s.get_fallback_value("displayColor"),
        Some(FallbackValue::Vec3([a, b, c])) if a == 1.0f32.to_bits() && b == a && c == a
    ));
    assert!(matches!(s.get_fallback_value("ptexFaceOffset"), Some(FallbackValue::Int(0))));
    assert!(matches!(s.get_fallback_value("scalarOverrideColorRamp"), Some(FallbackValue::NoValue)));
    assert!(s.get_fallback_value("unknownPrimvar").is_none());
}

#[test]
fn primvar_names_follow_parameter_kinds() {
    let mut s = MaterialNetworkShader::<()>::new();
    let builtin = s.get_primvar_names().len();
    assert_eq!(builtin, 16);
    assert_eq!(s.get_primvar_names()[0], "displayColor");
    assert_eq!(s.get_primvar_names()[15], "wireframeColor");
    s.set_params(vec![
        ShaderParam::new_texture("diffuse".to_string(), FallbackValue::NoValue, vec!["uv0".to_string()]),
        ShaderParam::new_fallback("metallic".to_string(), FallbackValue::Float(0)),
    ]);
    let names = s.get_primvar_names();
    assert_eq!(names.len(), 17);
    assert_eq!(names[16], "uv0");
    assert!(!has(names, "diffuse"));
    assert!(!has(names, "metallic"));
}

#[test]
fn sources_by_stage_and_hash_covers_them() {
    let mut s = MaterialNetworkShader::<()>::new();
    s.set_fragment_source("frag".to_string());
    s.set_displacement_source("disp".to_string());
    assert_eq!(s.get_source(ShaderStage::Fragment), "frag");
    assert_eq!(s.get_source(ShaderStage::Geometry), "disp");
    assert_eq!(s.get_source(ShaderStage::TessEval), "");
    let h1 = s.compute_hash();
    s.set_displacement_source("other".to_string());
    let h2 = s.compute_hash();
    assert_ne!(h1, h2);
    s.set_displacement_source("disp".to_string());
    assert_eq!(s.compute_hash(), h1);
    let t1 = s.compute_texture_source_hash();
    s.set_named_texture_handles(vec![NamedTextureHandle::new("a".to_string(), "2D".to_string())]);
    let t2 = s.compute_texture_source_hash();
    assert_ne!(t1, t2);
}

#[test]
fn material_params_are_stored() {
    let mut s = MaterialNetworkShader::<u32>::default();
    assert_eq!(*s.get_material_params(), 0);
    s.set_material_params(7);
    assert_eq!(*s.get_material_params(), 7);
    s.set_primvar_filtering_enabled(false);
    assert!(!s.is_primvar_filtering_enabled());
}
