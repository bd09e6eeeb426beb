use usd_hd_st::flattening_scene_index::flattened_names;
use usd_hd_st::frustum_cull::DRAW_CMD_NUM_UINTS;
use usd_hd_st::implicit_surface_scene_index_plugin;
use usd_hd_st::implicit_surface_scene_index_plugin::is_implicit_type;
use usd_hd_st::material_primvar_transfer_scene_index_plugin;
use usd_hd_st::node_identifier_resolving_scene_index_plugin;

#[test]
fn test_flattened_names() {
    let names = flattened_names();
    assert_eq!(names.len(), 6);
    assert!(names.contains(&"xform"));
    assert!(names.contains(&"visibility"));
    assert!(names.contains(&"primvars"));
}

#[test]
fn flattened_names_in_order() {
    assert_eq!(
        flattened_names(),
        vec!["xform", "visibility", "purpose", "materialBindings", "primvars", "coordSys"]
    );
}

#[test]
fn test_draw_cmd_num_uints() {
    assert_eq!(DRAW_CMD_NUM_UINTS, 15);
}

#[test]
fn implicit_surface_scene_index_plugin_test_constants() {
    assert_eq!(implicit_surface_scene_index_plugin::INSERTION_PHASE, 0);
    assert_eq!(implicit_surface_scene_index_plugin::PLUGIN_DISPLAY_NAME, "GL");
}

#[test]
fn material_primvar_transfer_scene_index_plugin_test_constants() {
    assert_eq!(material_primvar_transfer_scene_index_plugin::INSERTION_PHASE, 3);
    assert_eq!(material_primvar_transfer_scene_index_plugin::PLUGIN_DISPLAY_NAME, "GL");
}

#[test]
fn node_identifier_resolving_scene_index_plugin_test_constants() {
    assert_eq!(node_identifier_resolving_scene_index_plugin::INSERTION_PHASE, 0);
    assert_eq!(node_identifier_resolving_scene_index_plugin::SOURCE_TYPE, "glslfx");
}

#[test]
fn test_implicit_types() {
    assert!(is_implicit_type("sphere"));
    assert!(is_implicit_type("cube"));
    assert!(is_implicit_type("cone"));
    assert!(is_implicit_type("cylinder"));
    assert!(is_implicit_type("capsule"));
    assert!(is_implicit_type("plane"));
    assert!(!is_implicit_type("mesh"));
}

#[test]
fn implicit_types_are_recognised() {
    for t in ["sphere", "cube", "cone", "cylinder", "capsule", "plane"] {
        assert!(is_implicit_type(t), "{t} should be implicit");
    }
    assert!(!is_implicit_type("mesh"));
    assert!(!is_implicit_type("Sphere"));
    assert!(!is_implicit_type(""));
    assert!(!is_implicit_type("spheres"));
}
