use usd_hd_st::image_shader_shader_key::ImageShaderShaderKey;
use usd_hd_st::shader_key::PrimitiveType;

#[test]
fn image_shader_shader_key_test_creation() {
    let key = ImageShaderShaderKey::new();
    assert_eq!(key.get_glslfx_filename(), "imageShader.glslfx");
}

#[test]
fn test_vs_entry() {
    let key = ImageShaderShaderKey::new();
    let vs = key.get_vs();
    assert_eq!(vs[0], "ImageShader.Vertex");
    assert_eq!(vs[1], String::default());
}

#[test]
fn test_fs_entry() {
    let key = ImageShaderShaderKey::new();
    let fs = key.get_fs();
    assert_eq!(fs[0], "ImageShader.Fragment");
    assert_eq!(fs[1], String::default());
}

#[test]
fn test_primitive_type() {
    let key = ImageShaderShaderKey::new();
    assert_eq!(key.get_primitive_type(), PrimitiveType::Triangles);
}

#[test]
fn test_default() {
    let key = ImageShaderShaderKey::default();
    assert_eq!(key.glslfx, "imageShader.glslfx");
}
