use usd_hd_st::material::{
    compute_texture_hash, detect_texture_type, extract_file_path, extract_sampler_params,
    is_ptex_path, is_texture_node_type, is_udim_path, value_is_truthy, HdStMaterial,
    SamplerParams, TextureDescriptor, TextureType, VolumeMaterialData,
};
use usd_hd_st::material_param::FallbackValue;
use usd_hd_st::materialx_filter::{clear_mtlx_shader_cache, is_materialx_node, MtlxShaderCache};

#[test]
fn test_detect_ptex_paths() {
    assert!(is_ptex_path("C:/assets/skin.ptex"));
    assert!(is_ptex_path("textures/ptex/albedo.tx"));
    assert!(!is_ptex_path("textures/albedo.png"));
}

#[test]
fn test_texture_type_default() {
    assert_eq!(TextureType::default(), TextureType::Uv);
}

#[test]
fn test_detect_texture_type() {
    assert_eq!(detect_texture_type("UsdPtexTexture", "skin.ptex"), TextureType::Ptex);
    assert_eq!(detect_texture_type("UsdUVTexture", "albedo.<UDIM>.exr"), TextureType::Udim);
    assert_eq!(detect_texture_type("UsdUVTexture", "albedo.png"), TextureType::Uv);
}

#[test]
fn test_is_texture_node_type() {
    assert!(is_texture_node_type("UsdUVTexture"));
    assert!(is_texture_node_type("UsdPtexTexture"));
    assert!(is_texture_node_type("ND_image_color3"));
    assert!(is_texture_node_type("ND_image_float"));
    assert!(!is_texture_node_type("UsdPreviewSurface"));
    assert!(!is_texture_node_type("UsdPrimvarReader_float2"));
}

#[test]
fn test_udim_detection() {
    assert!(is_udim_path("albedo.<UDIM>.exr"));
    assert!(is_udim_path("textures/skin.<udim>.tx"));
    assert!(!is_udim_path("textures/skin.1001.tx"));
}

#[test]
fn test_is_materialx_node() {
    assert!(!is_materialx_node("UsdPreviewSurface"));
    assert!(!is_materialx_node("UsdUVTexture"));
    assert!(!is_materialx_node("UsdPrimvarReader_float2"));
    assert!(is_materialx_node("ND_standard_surface_surfaceshader"));
    assert!(is_materialx_node("ND_open_pbr_surface_surfaceshader"));
    assert!(is_materialx_node("ND_gltf_pbr_surfaceshader"));
    assert!(is_materialx_node("standard_surface"));
    assert!(is_materialx_node("open_pbr_surface"));
    assert!(is_materialx_node("gltf_pbr"));
    assert!(!is_materialx_node("my_custom_shader"));
}

#[test]
fn test_cache_clear() {
    let mut cache: MtlxShaderCache<String> = MtlxShaderCache::new();
    clear_mtlx_shader_cache(&mut cache);
    assert_eq!(cache.len(), 0);
}

#[test]
fn ptex_detection_ignores_case() {
    assert!(is_ptex_path("C:/ASSETS/SKIN.PTEX"));
    assert!(is_ptex_path("textures/PTEX/albedo.tx"));
    assert!(is_ptex_path("Face_Ptex.exr"));
    assert!(!is_ptex_path("textures/ptexture.png"));
    assert!(!is_udim_path("albedo.<Udim>.exr"));
}

#[test]
fn cache_read_after_write() {
    let mut cache: MtlxShaderCache<String> = MtlxShaderCache::new();
    assert!(cache.get(7).is_none());
    cache.insert(7, "shader a".to_string());
    cache.insert(9, "shader b".to_string());
    assert_eq!(cache.get(7).map(String::as_str), Some("shader a"));
    cache.insert(7, "shader c".to_string());
    assert_eq!(cache.get(7).map(String::as_str), Some("shader c"));
    assert_eq!(cache.get(9).map(String::as_str), Some("shader b"));
    assert_eq!(cache.len(), 2);
    clear_mtlx_shader_cache(&mut cache);
    assert!(cache.get(9).is_none());
}

#[test]
fn test_material_creation() {
    let material = HdStMaterial::<()>::new("/materials/mat1".to_string());
    assert_eq!(material.get_path(), "/materials/mat1");
    assert_eq!(material.get_tag(), "defaultMaterialTag");
    assert!(!material.is_compiled());
    assert!(material.is_network_dirty());
    assert!(!material.has_ptex());
    assert!(!material.has_limit_surface_evaluation());
    assert!(!material.has_displacement());
    assert_eq!(material.get_volume_source(), "");
    assert!(material.get_texture_descriptors().is_empty());
    assert_eq!(material.get_texture_hash(), 0);
}

#[test]
fn material_test_material_tag() {
    let mut material = HdStMaterial::<()>::new("/materials/mat1".to_string());
    material.set_tag("masked".to_string());
    assert_eq!(material.get_tag(), "masked");
}

#[test]
fn test_parameters() {
    let mut material = HdStMaterial::<()>::new("/materials/mat1".to_string());
    let roughness = FallbackValue::Float(0.5f32.to_bits());
    material.set_param("roughness".to_string(), roughness);
    assert!(matches!(
        material.get_param("roughness"),
        Some(FallbackValue::Float(b)) if *b == 0.5f32.to_bits()
    ));
    assert_eq!(material.get_params().len(), 1);
}

#[test]
fn set_param_replaces_earlier_value() {
    let mut material = HdStMaterial::<()>::new("/m".to_string());
    material.set_param("roughness".to_string(), FallbackValue::Float(0.5f32.to_bits()));
    material.set_param("metallic".to_string(), FallbackValue::Float(0));
    material.set_param("roughness".to_string(), FallbackValue::Float(0.9f32.to_bits()));
    assert_eq!(material.get_params().len(), 2);
    assert!(matches!(
        material.get_param("roughness"),
        Some(FallbackValue::Float(b)) if *b == 0.9f32.to_bits()
    ));
    assert!(material.get_param("opacity").is_none());
}

#[test]
fn material_test_sync() {
    let mut material = HdStMaterial::<()>::new("/materials/mat1".to_string());
    assert!(material.is_network_dirty());
    assert!(!material.is_compiled());
    material.sync();
    assert!(!material.is_network_dirty());
    assert!(material.is_compiled());
    assert!(material.get_shader_handle() != 0);
}

#[test]
fn test_mark_dirty() {
    let mut material = HdStMaterial::<()>::new("/materials/mat1".to_string());
    material.sync();
    assert!(!material.is_network_dirty());
    material.mark_network_dirty();
    assert!(material.is_network_dirty());
    assert!(!material.is_compiled());
}

#[test]
fn test_truthy_parse() {
    assert!(value_is_truthy(&FallbackValue::Bool(true)));
    assert!(value_is_truthy(&FallbackValue::Int(1)));
    assert!(value_is_truthy(&FallbackValue::Float(1.0f32.to_bits())));
    assert!(!value_is_truthy(&FallbackValue::Int(0)));
    assert!(!value_is_truthy(&FallbackValue::Float(0.0f32.to_bits())));
}

#[test]
fn truthy_texts_and_signed_zero() {
    assert!(value_is_truthy(&FallbackValue::String("YES".to_string())));
    assert!(value_is_truthy(&FallbackValue::String("On".to_string())));
    assert!(value_is_truthy(&FallbackValue::String("1".to_string())));
    assert!(!value_is_truthy(&FallbackValue::String("0".to_string())));
    assert!(!value_is_truthy(&FallbackValue::String("enabled".to_string())));
    assert!(!value_is_truthy(&FallbackValue::Float((-0.0f32).to_bits())));
    assert!(value_is_truthy(&FallbackValue::Float(f32::NAN.to_bits())));
    assert!(!value_is_truthy(&FallbackValue::NoValue));
    assert!(!value_is_truthy(&FallbackValue::Vec3([1, 1, 1])));
}

#[test]
fn test_extract_sampler_params() {
    let params = vec![
        ("wrapS".to_string(), FallbackValue::String("repeat".to_string())),
        ("wrapT".to_string(), FallbackValue::String("clamp".to_string())),
        ("minFilter".to_string(), FallbackValue::String("nearest".to_string())),
    ];
    let sp = extract_sampler_params(&params);
    assert_eq!(sp.wrap_s, "repeat");
    assert_eq!(sp.wrap_t, "clamp");
    assert_eq!(sp.min_filter, "nearest");
    assert_eq!(sp.mag_filter, "linear");
    assert_eq!(sp.wrap_r, "useMetadata");
}

#[test]
fn file_path_is_read_from_text_parameter() {
    let params = vec![("file".to_string(), FallbackValue::String("albedo.png".to_string()))];
    assert_eq!(extract_file_path(&params), "albedo.png");
    let not_text = vec![("file".to_string(), FallbackValue::Int(3))];
    assert_eq!(extract_file_path(&not_text), "");
    assert_eq!(extract_file_path(&vec![]), "");
}

#[test]
fn test_texture_descriptor_hash() {
    let descs = vec![
        TextureDescriptor {
            name: "diffuseColor".to_string(),
            file_path: "albedo.png".to_string(),
            texture_type: TextureType::Uv,
            sampler_params: SamplerParams::default(),
        },
        TextureDescriptor {
            name: "normal".to_string(),
            file_path: "normal.png".to_string(),
            texture_type: TextureType::Uv,
            sampler_params: SamplerParams::default(),
        },
    ];
    let h1 = compute_texture_hash(&descs);
    assert_ne!(h1, 0);
    let h2 = compute_texture_hash(&descs);
    assert_eq!(h1, h2);
    let descs2 = vec![TextureDescriptor {
        name: "roughness".to_string(),
        file_path: "rough.exr".to_string(),
        texture_type: TextureType::Uv,
        sampler_params: SamplerParams::default(),
    }];
    let h3 = compute_texture_hash(&descs2);
    assert_ne!(h1, h3);
}

#[test]
fn test_volume_material_data_default() {
    let vmd = VolumeMaterialData::default();
    assert!(vmd.source.is_empty());
    assert!(vmd.params.is_empty());
}

#[test]
fn test_finalize_clears_all() {
    let mut material = HdStMaterial::<()>::new("/materials/mat1".to_string());
    material.sync();
    assert!(material.is_compiled());
    material.set_param("roughness".to_string(), FallbackValue::Float(0));
    material.finalize();
    assert!(!material.is_compiled());
    assert!(material.is_network_dirty());
    assert!(!material.has_ptex());
    assert!(!material.has_displacement());
    assert!(!material.has_limit_surface_evaluation());
    assert_eq!(material.get_texture_hash(), 0);
    assert!(material.get_texture_descriptors().is_empty());
    assert!(material.get_volume_source().is_empty());
    assert!(material.get_params().is_empty());
    assert!(material.get_network_shader().get_params().is_empty());
}
