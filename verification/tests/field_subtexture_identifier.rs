use std::collections::HashSet;
use usd_hd_st::field_subtexture_identifier::{Field3DAssetSubtextureId, OpenVDBAssetSubtextureId};

#[test]
fn test_openvdb_id() {
    let id = OpenVDBAssetSubtextureId::new("density".to_string(), 0);
    assert_eq!(id.field_name(), "density");
    assert_eq!(id.field_index(), 0);
}

#[test]
fn test_field3d_id() {
    let id = Field3DAssetSubtextureId::new("density".to_string(), 1, "BigCloud".to_string());
    assert_eq!(id.field_name(), "density");
    assert_eq!(id.field_index(), 1);
    assert_eq!(id.field_purpose(), "BigCloud");
}

#[test]
fn test_hash_dedup() {
    let mut set = HashSet::new();
    set.insert(OpenVDBAssetSubtextureId::new("density".to_string(), 0));
    set.insert(OpenVDBAssetSubtextureId::new("density".to_string(), 0));
    set.insert(OpenVDBAssetSubtextureId::new("temperature".to_string(), 0));
    assert_eq!(set.len(), 2);
}
