use usd_hd_st::hd_types::HdType;
use usd_hd_st::hgi_conversions::{
    hd_format_to_hgi, hd_type_to_hgi, hgi_format_byte_size, hgi_format_components,
    hgi_format_to_wgsl, HdFormat,
};
use usd_hd_st::hgi_types::HgiFormat;

#[test]
fn test_hd_type_to_hgi() {
    assert_eq!(hd_type_to_hgi(HdType::FloatVec3), HgiFormat::Float32Vec3);
    assert_eq!(hd_type_to_hgi(HdType::Int32Vec4), HgiFormat::Int32Vec4);
    assert_eq!(hd_type_to_hgi(HdType::Double), HgiFormat::Invalid);
}

#[test]
fn test_uint32_maps_to_int32() {
    assert_eq!(hd_type_to_hgi(HdType::UInt32), HgiFormat::Int32);
    assert_eq!(hd_type_to_hgi(HdType::UInt32Vec3), HgiFormat::Int32Vec3);
    assert_eq!(hd_format_to_hgi(HdFormat::UInt32Vec4), HgiFormat::Int32Vec4);
}

#[test]
fn test_hd_format_vec3_promotion() {
    assert_eq!(hd_format_to_hgi(HdFormat::UNorm8Vec3), HgiFormat::UNorm8Vec4);
    assert_eq!(hd_format_to_hgi(HdFormat::SNorm8Vec3), HgiFormat::SNorm8Vec4);
}

#[test]
fn test_byte_sizes() {
    assert_eq!(hgi_format_byte_size(HgiFormat::Float32Vec3), 12);
    assert_eq!(hgi_format_byte_size(HgiFormat::Float32Vec4), 16);
    assert_eq!(hgi_format_byte_size(HgiFormat::UNorm8Vec4), 4);
}

#[test]
fn test_wgsl_names() {
    assert_eq!(hgi_format_to_wgsl(HgiFormat::Float32Vec3), "vec3<f32>");
    assert_eq!(hgi_format_to_wgsl(HgiFormat::Float32Vec4), "vec4<f32>");
}

#[test]
fn components_times_component_size_is_byte_size() {
    for f in [HgiFormat::Float32, HgiFormat::Float32Vec2, HgiFormat::Float32Vec3, HgiFormat::Float32Vec4] {
        assert_eq!(hgi_format_byte_size(f), 4 * hgi_format_components(f) as usize);
    }
    assert_eq!(hgi_format_components(HgiFormat::Int32Vec3), 3);
}
