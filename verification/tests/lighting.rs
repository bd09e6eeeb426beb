use usd_hd_st::lighting::{
    emit_light_eval_functions, emit_light_loop, emit_light_uniforms_wgsl, light_type_from_hd,
    GpuLightType, LIGHT_ENTRY_SIZE, LIGHT_UNIFORMS_SIZE, MAX_LIGHTS,
};
use usd_hd_st::lighting_shader::LightingModel;

#[test]
fn test_emit_light_uniforms_wgsl() {
    let mut src = String::new();
    emit_light_uniforms_wgsl(&mut src, 0, 1);
    assert!(src.contains("LightEntry"));
    assert!(src.contains("LightUniforms"));
    assert!(src.contains("@group(0) @binding(1)"));
    assert!(src.contains("light_count"));
}

#[test]
fn test_emit_light_eval_functions() {
    let mut src = String::new();
    emit_light_eval_functions(&mut src);
    assert!(src.contains("fn eval_directional"));
    assert!(src.contains("fn eval_point_light"));
    assert!(src.contains("fn eval_spot_light"));
    assert!(src.contains("fn eval_dome_light"));
}

#[test]
fn test_emit_light_loop() {
    let mut src = String::new();
    emit_light_loop(&mut src);
    assert!(src.contains("light_data.light_count.x"));
    assert!(src.contains("light_data.lights[li]"));
    assert!(src.contains("type_pad.x == 0.0"), "directional type check must be f32");
    assert!(src.contains("type_pad.x == 1.0"), "point type check must be f32");
    assert!(src.contains("type_pad.x == 2.0"), "spot type check must be f32");
    assert!(src.contains("type_pad.x == 3.0"), "dome type check must be f32");
    assert!(!src.contains("bitcast"), "must not use bitcast for f32 type comparison");
}

#[test]
fn test_light_uniforms_total_size_formula() {
    assert_eq!(LIGHT_UNIFORMS_SIZE, 16 + MAX_LIGHTS * LIGHT_ENTRY_SIZE);
    assert_eq!(LIGHT_UNIFORMS_SIZE, 16 + 16 * 144);
    assert_eq!(LIGHT_UNIFORMS_SIZE, 2320);
}

#[test]
fn test_lighting_model() {
    assert_eq!(LightingModel::Lambert.as_str(), "lambert");
    assert_eq!(LightingModel::Pbr.as_str(), "pbr");
}

#[test]
fn light_type_from_hd_maps_hydra_names() {
    assert_eq!(light_type_from_hd("distantLight"), GpuLightType::Directional);
    assert_eq!(light_type_from_hd("sphereLight"), GpuLightType::Point);
    assert_eq!(light_type_from_hd("rectLight"), GpuLightType::Point);
    assert_eq!(light_type_from_hd("diskLight"), GpuLightType::Point);
    assert_eq!(light_type_from_hd("cylinderLight"), GpuLightType::Point);
    assert_eq!(light_type_from_hd("domeLight"), GpuLightType::Dome);
    assert_eq!(light_type_from_hd("portalLight"), GpuLightType::Point);
}
