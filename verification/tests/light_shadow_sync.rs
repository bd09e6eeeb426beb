use usd_hd_st::light::{HdStLight, LightShadowValues, DIRTY_PARAMS, DIRTY_SHADOW_PARAMS};

fn authored() -> LightShadowValues {
    LightShadowValues {
        enable: Some(true),
        has_shadow: Some(false),
        resolution: Some(2048),
        blur_bits: Some(0.25f32.to_bits()),
        bias_bits: Some(0.01f32.to_bits()),
    }
}

#[test]
fn shadow_sync_takes_authored_values() {
    let mut light = HdStLight::new_distant("/l".to_string());
    light.sync_shadow_params(DIRTY_SHADOW_PARAMS, authored());
    let p = light.get_shadow_params();
    assert!(p.enabled);
    assert_eq!(p.blur_bits, 0.25f32.to_bits());
    assert_eq!(p.bias_bits, 0.01f32.to_bits());
    let identity: Vec<u32> = (0..16)
        .map(|i| if i % 5 == 0 { 1.0f32.to_bits() } else { 0 })
        .collect();
    assert_eq!(p.matrix.to_vec(), identity);
    assert!(light.get_shadow_map().is_none());
}

#[test]
fn shadow_sync_defaults_and_has_shadow_fallback() {
    let mut light = HdStLight::new_distant("/l".to_string());
    let values = LightShadowValues {
        enable: None,
        has_shadow: Some(true),
        resolution: None,
        blur_bits: None,
        bias_bits: None,
    };
    light.sync_shadow_params(DIRTY_SHADOW_PARAMS | DIRTY_PARAMS, values);
    let p = light.get_shadow_params();
    assert!(p.enabled);
    assert_eq!(p.blur_bits, 0);
    assert_eq!(p.bias_bits, 0.001f32.to_bits());

    let none = LightShadowValues {
        enable: None,
        has_shadow: None,
        resolution: None,
        blur_bits: None,
        bias_bits: None,
    };
    light.sync_shadow_params(DIRTY_SHADOW_PARAMS, none);
    assert!(!light.get_shadow_params().enabled);
}

#[test]
fn shadow_sync_ignores_other_bits() {
    let mut light = HdStLight::new_distant("/l".to_string());
    light.sync_shadow_params(DIRTY_PARAMS, authored());
    let p = light.get_shadow_params();
    assert!(!p.enabled);
    assert_eq!(p.bias_bits, 0.001f32.to_bits());
}
