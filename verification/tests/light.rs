use usd_hd_st::light::{
    HdStLight, HdStShadowMap, ALL_DIRTY, DIRTY_COLLECTION, DIRTY_PARAMS, DIRTY_SHADOW_PARAMS,
    DIRTY_TRANSFORM,
};
use usd_hd_st::lighting::ShadowParams;

#[test]
fn test_light_creation() {
    let light = HdStLight::new_distant("/lights/key".to_string());
    assert_eq!(light.get_path(), "/lights/key");
    assert_eq!(light.get_light_type(), "distantLight");
    assert!(light.get_shadow_map().is_none());
}

#[test]
fn test_light_types() {
    assert_eq!(HdStLight::new_dome("/light".to_string()).get_light_type(), "domeLight");
    assert_eq!(HdStLight::new_sphere("/light".to_string()).get_light_type(), "sphereLight");
    assert_eq!(HdStLight::new_rect("/light".to_string()).get_light_type(), "rectLight");
}

#[test]
fn test_initial_dirty_bits_distant() {
    let light = HdStLight::new_distant("/light".to_string());
    assert_eq!(light.get_initial_dirty_bits_mask(), ALL_DIRTY);
}

#[test]
fn test_initial_dirty_bits_sphere() {
    let light = HdStLight::new_sphere("/light".to_string());
    let bits = light.get_initial_dirty_bits_mask();
    assert_ne!(bits & DIRTY_PARAMS, 0);
    assert_ne!(bits & DIRTY_TRANSFORM, 0);
    assert_eq!(bits & DIRTY_SHADOW_PARAMS, 0);
}

#[test]
fn simple_light_starts_all_dirty_and_flags_are_distinct_bits() {
    let light = HdStLight::new("/l".to_string(), "simpleLight".to_string());
    assert_eq!(light.get_initial_dirty_bits_mask(), ALL_DIRTY);
    assert_eq!(ALL_DIRTY, DIRTY_TRANSFORM | DIRTY_PARAMS | DIRTY_SHADOW_PARAMS | DIRTY_COLLECTION);
    assert_eq!(DIRTY_TRANSFORM, 1);
    assert_eq!(DIRTY_COLLECTION, 8);
}

#[test]
fn shadow_map_allocation_cycle() {
    let mut map = HdStShadowMap::new(1024, 512);
    assert_eq!(map.resolution, (1024, 512));
    assert!(!map.allocated);
    assert_eq!(map.texture_handle, 0);
    assert_eq!(f32::from_bits(map.bias_bits), 0.005);
    map.allocate();
    assert!(map.allocated);
    assert_ne!(map.texture_handle, 0);
    map.free();
    assert!(!map.allocated);
    assert_eq!(map.texture_handle, 0);
}

#[test]
fn light_shadow_params_round_trip() {
    let mut light = HdStLight::new_sphere("/l".to_string());
    let defaults = *light.get_shadow_params();
    assert!(!defaults.enabled);
    assert_eq!(f32::from_bits(defaults.bias_bits), 0.001);
    assert_eq!(f32::from_bits(defaults.matrix[0]), 1.0);
    assert_eq!(defaults, ShadowParams::default());
    let p = ShadowParams { enabled: true, blur_bits: 2.0f32.to_bits(), ..ShadowParams::default() };
    light.set_shadow_params(p);
    assert_eq!(*light.get_shadow_params(), p);
}
