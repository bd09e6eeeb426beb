use usd_hd_st::fallback_lighting_shader::HdStFallbackLightingShader;
use usd_hd_st::lighting_shader::LightingModel;

fn identity_bits() -> [u32; 16] {
    let mut m = [0u32; 16];
    for i in 0..4 {
        m[i * 5] = 1.0f32.to_bits();
    }
    m
}

#[test]
fn test_fallback_shader() {
    let shader = HdStFallbackLightingShader::new();
    assert_eq!(shader.get_lighting_shader().get_model(), LightingModel::Constant);
}

#[test]
fn test_fallback_source() {
    let src = HdStFallbackLightingShader::get_fragment_source();
    assert!(src.contains("fallback_lighting"));
    assert!(src.contains("light_dir"));
}

#[test]
fn fallback_camera_starts_at_identity_and_follows_set_camera() {
    let mut shader = HdStFallbackLightingShader::default();
    assert_eq!(*shader.get_world_to_view(), identity_bits());
    assert_eq!(*shader.get_projection(), identity_bits());
    let mut view = identity_bits();
    view[12] = 2.0f32.to_bits();
    let proj = [3.0f32.to_bits(); 16];
    shader.set_camera(view, proj);
    assert_eq!(*shader.get_world_to_view(), view);
    assert_eq!(*shader.get_projection(), proj);
    assert_eq!(shader.get_lighting_shader().get_model(), LightingModel::Constant);
}
