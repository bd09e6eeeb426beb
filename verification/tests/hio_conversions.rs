use usd_hd_st::hio_conversions::{hd_to_hio, hio_to_hd, HioConversions, HioFormat};
use usd_hd_st::render_buffer::HdFormat;

#[test]
fn test_roundtrip() {
    let formats = [
        HdFormat::UNorm8Vec4,
        HdFormat::UNorm8Vec3,
        HdFormat::Float16Vec4,
        HdFormat::Float32Vec4,
        HdFormat::Float32,
        HdFormat::Int32,
    ];
    for fmt in formats {
        let hio = hd_to_hio(fmt);
        let back = hio_to_hd(hio);
        assert_eq!(back, Some(fmt), "roundtrip failed for {:?}", fmt);
    }
}

#[test]
fn test_no_mapping() {
    assert_eq!(hio_to_hd(HioFormat::UNorm8), None);
    assert_eq!(hio_to_hd(HioFormat::Float32Vec2), None);
    assert_eq!(hio_to_hd(HioFormat::Invalid), None);
}

#[test]
fn test_class_style_api() {
    let hio = HioConversions::get_hio_format(HdFormat::Float32);
    assert_eq!(hio, HioFormat::Float32);
    assert_eq!(HioConversions::get_hd_format(hio), Some(HdFormat::Float32));
}
