use usd_hd_st::mesh_shader_key::{MeshShaderKey, ShadingModel};

#[test]
fn test_default_key() {
    let key = MeshShaderKey::default();
    assert!(key.has_normals);
    assert!(!key.has_color);
    assert_eq!(key.shading, ShadingModel::BlinnPhong);
}

#[test]
fn test_cache_hash_differs() {
    let k1 = MeshShaderKey::fallback();
    let k2 = MeshShaderKey::lit();
    assert_ne!(k1.cache_hash(), k2.cache_hash());
}

#[test]
fn test_vertex_attr_count() {
    assert_eq!(MeshShaderKey::fallback().vertex_attr_count(), 1);
    assert_eq!(MeshShaderKey::lit().vertex_attr_count(), 2);
    let full = MeshShaderKey { has_normals: true, has_color: true, has_uv: true, ..Default::default() };
    assert_eq!(full.vertex_attr_count(), 4);

    let fvar = MeshShaderKey {
        has_normals: true,
        has_color: true,
        has_uv: true,
        has_fvar_normals: true,
        has_fvar_color: true,
        has_fvar_uv: true,
        ..Default::default()
    };
    assert_eq!(fvar.vertex_attr_count(), 1);
}
