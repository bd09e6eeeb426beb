use usd_hd_st::lighting_shader::{HdStLightingShader, LightType, LightingModel, ShadowParams};
use usd_hd_st::shader_code::ShaderStage;

#[test]
fn test_shadow_params() {
    let params = ShadowParams::default();
    assert!(!params.enabled);
    assert_eq!(params.resolution, 1024);
    assert_eq!(f32::from_bits(params.bias_bits), 0.001);
    assert_eq!(params.filter_size, 2);
}

#[test]
fn test_lighting_shader_creation() {
    let shader = HdStLightingShader::new(42, LightingModel::Lambert);
    assert_eq!(shader.get_id(), 42);
    assert_eq!(shader.get_model(), LightingModel::Lambert);
    assert!(shader.is_valid());
}

#[test]
fn test_add_lights() {
    let mut shader = HdStLightingShader::new(1, LightingModel::BlinnPhong);
    assert_eq!(shader.get_lights().len(), 0);
    shader.add_light(LightType::Directional);
    shader.add_light(LightType::Point);
    assert_eq!(shader.get_lights().len(), 2);
}

#[test]
fn test_fragment_source() {
    let shader = HdStLightingShader::new(1, LightingModel::Lambert);
    let source = shader.get_source(ShaderStage::Fragment);
    assert!(!source.is_empty());
    assert!(source.contains("#version 450"));
    assert!(source.contains("computeLambert"));
}

#[test]
fn test_pbr_shader() {
    let shader = HdStLightingShader::new(1, LightingModel::Pbr);
    let source = shader.get_source(ShaderStage::Fragment);
    assert!(source.contains("computePBR"));
    assert!(source.contains("roughness"));
    assert!(source.contains("metallic"));
}

#[test]
fn test_constant_lighting() {
    let shader = HdStLightingShader::new(1, LightingModel::Constant);
    let source = shader.get_source(ShaderStage::Fragment);
    assert!(source.contains("diffuseColor.rgb"));
}

#[test]
fn test_ambient_occlusion() {
    let mut shader = HdStLightingShader::new(1, LightingModel::Lambert);
    assert!(!shader.uses_ao());
    shader.set_use_ao(true);
    assert!(shader.uses_ao());
    let source = shader.get_source(ShaderStage::Fragment);
    assert!(source.contains("computeAO"));
}

#[test]
fn test_image_based_lighting() {
    let mut shader = HdStLightingShader::new(1, LightingModel::Pbr);
    assert!(!shader.uses_ibl());
    shader.set_use_ibl(true);
    assert!(shader.uses_ibl());
    let source = shader.get_source(ShaderStage::Fragment);
    assert!(source.contains("computeIBL"));
}

#[test]
fn test_shadow_params_config() {
    let mut shader = HdStLightingShader::new(1, LightingModel::Lambert);
    let mut params = ShadowParams::default();
    params.enabled = true;
    params.resolution = 2048;
    shader.set_shadow_params(params.clone());
    assert_eq!(shader.get_shadow_params().resolution, 2048);
    assert!(shader.get_shadow_params().enabled);
}

#[test]
fn light_count_is_recorded_in_uniform_block() {
    let mut shader = HdStLightingShader::new(7, LightingModel::Lambert);
    let none = shader.get_source(ShaderStage::Fragment);
    assert!(!none.contains("uniform Lights"));
    for _ in 0..12 {
        shader.add_light(LightType::Spot);
    }
    let src = shader.get_source(ShaderStage::Fragment);
    assert!(src.contains("layout(binding = 2) uniform Lights {\n    int numLights; // 12\n"));
}

#[test]
fn only_fragment_stage_has_source() {
    let shader = HdStLightingShader::new(3, LightingModel::Custom);
    assert!(shader.get_source(ShaderStage::Vertex).is_empty());
    assert!(shader.get_source(ShaderStage::Geometry).is_empty());
    let frag = shader.get_source(ShaderStage::Fragment);
    assert!(frag.contains("    color = diffuseColor.rgb; // Custom implementation\n"));
    assert!(frag.ends_with("\n    outColor = vec4(color, diffuseColor.a);\n}\n"));
}

#[test]
fn toggling_terms_restores_source() {
    let mut shader = HdStLightingShader::new(5, LightingModel::BlinnPhong);
    let before = shader.get_source(ShaderStage::Fragment);
    shader.set_use_ao(true);
    shader.set_use_ibl(true);
    assert!(shader.get_source(ShaderStage::Fragment).contains("    color += computeIBL(N, V);\n"));
    shader.set_use_ao(false);
    shader.set_use_ibl(false);
    assert_eq!(shader.get_source(ShaderStage::Fragment), before);
    assert!(before.contains("    color = computeBlinnPhong(N, V);\n"));
}

#[test]
fn model_names() {
    assert_eq!(LightingModel::Constant.as_str(), "constant");
    assert_eq!(LightingModel::BlinnPhong.as_str(), "blinn_phong");
    assert_eq!(LightingModel::Custom.as_str(), "custom");
}

#[test]
fn lighting_shader_declares_no_params_or_textures() {
    let shader = HdStLightingShader::new(7, LightingModel::Pbr);
    assert!(shader.get_params().is_empty());
    assert!(shader.get_textures().is_empty());
}
