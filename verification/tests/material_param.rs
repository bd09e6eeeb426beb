use usd_hd_st::material_param::{
    compute_params_hash, FallbackValue, HdStMaterialParam, HdStTextureType, ParamType,
};

fn bits3(x: f32) -> [u32; 3] {
    [x.to_bits(), x.to_bits(), x.to_bits()]
}

#[test]
fn test_fallback_param() {
    let p = HdStMaterialParam::fallback(
        "diffuseColor".to_string(),
        FallbackValue::Vec3(bits3(0.18)),
    );
    assert!(p.is_fallback());
    assert!(!p.is_texture());
    assert_eq!(p.get_wgsl_type(), "vec3<f32>");
}

#[test]
fn test_texture_param() {
    let p = HdStMaterialParam::texture("diffuseTexture".to_string(), "st".to_string());
    assert!(p.is_texture());
    assert_eq!(p.sampler_coords.len(), 1);
    assert_eq!(p.sampler_coords[0].as_str(), "st");
}

#[test]
fn test_params_hash_stability() {
    let params = vec![
        HdStMaterialParam::fallback("a".to_string(), FallbackValue::Float(1.0f32.to_bits())),
        HdStMaterialParam::texture("b".to_string(), "st".to_string()),
    ];
    let h1 = compute_params_hash(&params);
    let h2 = compute_params_hash(&params);
    assert_eq!(h1, h2);
}

#[test]
fn test_array_of_textures() {
    let mut p = HdStMaterialParam::texture("tex".to_string(), "st".to_string());
    assert!(!p.is_array_of_textures());
    p.array_of_textures_size = 4;
    assert!(p.is_array_of_textures());
}

#[test]
fn params_hash_ignores_fallback_values() {
    let a = vec![HdStMaterialParam::fallback(
        "roughness".to_string(),
        FallbackValue::Float(0.5f32.to_bits()),
    )];
    let b = vec![HdStMaterialParam::fallback(
        "roughness".to_string(),
        FallbackValue::Float(0.9f32.to_bits()),
    )];
    assert_eq!(compute_params_hash(&a), compute_params_hash(&b));
}

#[test]
fn params_hash_depends_on_names_and_coords() {
    let a = vec![HdStMaterialParam::texture("diffuse".to_string(), "st".to_string())];
    let b = vec![HdStMaterialParam::texture("diffuse".to_string(), "st1".to_string())];
    let c = vec![HdStMaterialParam::texture("normal".to_string(), "st".to_string())];
    assert_ne!(compute_params_hash(&a), compute_params_hash(&b));
    assert_ne!(compute_params_hash(&a), compute_params_hash(&c));
    assert_ne!(compute_params_hash(&a), compute_params_hash(&[]));
}

#[test]
fn param_constructors_set_kind_coords_and_fallback() {
    let t = HdStMaterialParam::texture("d".to_string(), "uv".to_string());
    assert_eq!(t.param_type, ParamType::Texture);
    assert!(matches!(t.fallback_value, FallbackValue::Vec4([0, 0, 0, 0x3f800000])));
    assert_eq!(t.texture_type, HdStTextureType::Uv);

    let r = HdStMaterialParam::primvar_redirect(
        "c".to_string(),
        "displayColor".to_string(),
        FallbackValue::Int(3),
    );
    assert!(r.is_primvar_redirect());
    assert_eq!(r.sampler_coords, vec!["displayColor".to_string()]);
    assert!(matches!(r.fallback_value, FallbackValue::Int(3)));

    let f = HdStMaterialParam::field_redirect(
        "density".to_string(),
        "densityField".to_string(),
        FallbackValue::NoValue,
    );
    assert!(f.is_field_redirect());
    assert_eq!(f.texture_type, HdStTextureType::Field);

    let a = HdStMaterialParam::additional_primvar("extra".to_string());
    assert!(a.is_additional_primvar());
    assert!(a.sampler_coords.is_empty());
    assert!(matches!(a.fallback_value, FallbackValue::NoValue));

    let x = HdStMaterialParam::transform2d("xf".to_string(), "st".to_string());
    assert!(x.is_transform2d());
    assert_eq!(x.sampler_coords, vec!["st".to_string()]);
    assert!(x.swizzle.is_empty());
    assert!(!x.is_premultiplied);
}

#[test]
fn fallback_value_wgsl_types() {
    assert_eq!(FallbackValue::Float(0).wgsl_type(), "f32");
    assert_eq!(FallbackValue::Vec2([0; 2]).wgsl_type(), "vec2<f32>");
    assert_eq!(FallbackValue::Vec4([0; 4]).wgsl_type(), "vec4<f32>");
    assert_eq!(FallbackValue::Int(0).wgsl_type(), "i32");
    assert_eq!(FallbackValue::Bool(true).wgsl_type(), "bool");
    assert_eq!(FallbackValue::String("a".to_string()).wgsl_type(), "u32");
    assert_eq!(FallbackValue::Matrix(Box::new([[0; 4]; 4])).wgsl_type(), "mat4x4<f32>");
    assert_eq!(FallbackValue::NoValue.wgsl_type(), "f32");
    assert_eq!(FallbackValue::default().wgsl_type(), "f32");
}
