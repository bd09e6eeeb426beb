use usd_hd_st::field::{
    get_supported_bprim_types, is_supported_bprim_type, FieldParamValues, HdStField, FIELD_ALL_DIRTY,
    FIELD_DIRTY_PARAMS,
};

#[test]
fn field_bprim_types() {
    assert_eq!(get_supported_bprim_types(), vec!["openvdbAsset".to_string(), "field3dAsset".to_string()]);
    assert!(is_supported_bprim_type("openvdbAsset"));
    assert!(is_supported_bprim_type("field3dAsset"));
    assert!(!is_supported_bprim_type("volume"));
    assert!(!is_supported_bprim_type(""));
}

#[test]
fn field_starts_fully_dirty_without_texture() {
    let f = HdStField::new("/vol/density".to_string(), "openvdbAsset".to_string());
    assert_eq!(f.get_id(), "/vol/density");
    assert_eq!(f.get_field_type(), "openvdbAsset");
    assert_eq!(f.get_dirty_bits(), FIELD_ALL_DIRTY);
    assert_eq!(f.get_texture_identifier().file_path, "");
    assert!(f.get_texture_identifier().field_name.is_none());
    assert_eq!(f.get_texture_memory(), 0);
}

#[test]
fn field_sync_reads_params() {
    let mut f = HdStField::new("/vol/density".to_string(), "openvdbAsset".to_string());
    let mut bits = FIELD_DIRTY_PARAMS;
    f.sync(
        &mut bits,
        FieldParamValues {
            file_asset: Some(("smoke.vdb".to_string(), "/abs/smoke.vdb".to_string())),
            field_name: Some("density".to_string()),
            texture_memory: 1 << 20,
        },
    );
    assert_eq!(bits, 0);
    assert_eq!(f.get_dirty_bits(), 0);
    assert_eq!(f.get_texture_identifier().file_path, "/abs/smoke.vdb");
    assert_eq!(f.get_texture_identifier().field_name.as_deref(), Some("density"));
    assert_eq!(f.get_texture_memory(), 1 << 20);

    let mut bits = FIELD_DIRTY_PARAMS;
    f.sync(
        &mut bits,
        FieldParamValues {
            file_asset: Some(("smoke.vdb".to_string(), String::new())),
            field_name: None,
            texture_memory: 0,
        },
    );
    assert_eq!(f.get_texture_identifier().file_path, "smoke.vdb");
    assert_eq!(f.get_texture_identifier().field_name.as_deref(), Some(""));
}

#[test]
fn field_sync_without_param_bit_only_clears() {
    let mut f = HdStField::new("/vol/density".to_string(), "field3dAsset".to_string());
    let mut bits = 1;
    f.sync(
        &mut bits,
        FieldParamValues { file_asset: None, field_name: None, texture_memory: 7 },
    );
    assert_eq!(bits, 0);
    assert_eq!(f.get_dirty_bits(), 0);
    assert_eq!(f.get_texture_memory(), 0);
    assert!(f.get_texture_identifier().field_name.is_none());
}
