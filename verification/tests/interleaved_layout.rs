use usd_hd_st::hd_types::{HdTupleType, HdType};
use usd_hd_st::interleaved_memory_manager::{align_up, InterleavedLayout};

#[test]
fn test_layout_offsets() {
    let mut layout = InterleavedLayout::new();
    let pos = layout.add_attribute("points".to_string(), HdTupleType::new(HdType::Float, 3), 12);
    assert_eq!(pos, 0);
    assert_eq!(layout.stride(), 16);
    let norm = layout.add_attribute("normals".to_string(), HdTupleType::new(HdType::Float, 3), 12);
    assert_eq!(norm, 12);
    assert_eq!(layout.stride(), 32);
    let uv = layout.add_attribute("uvs".to_string(), HdTupleType::new(HdType::Float, 2), 8);
    assert_eq!(uv, 24);
    assert_eq!(layout.stride(), 32);
}

#[test]
fn test_layout_total_size() {
    let mut layout = InterleavedLayout::new();
    layout.add_attribute("points".to_string(), HdTupleType::new(HdType::Float, 3), 12);
    layout.set_vertex_count(100);
    assert_eq!(layout.total_size(), 1600);
}

#[test]
fn test_find_attribute() {
    let mut layout = InterleavedLayout::new();
    layout.add_attribute("points".to_string(), HdTupleType::new(HdType::Float, 3), 12);
    layout.add_attribute("normals".to_string(), HdTupleType::new(HdType::Float, 3), 12);
    assert!(layout.find_attribute(&"points".to_string()).is_some());
    assert!(layout.find_attribute(&"normals".to_string()).is_some());
    assert!(layout.find_attribute(&"missing".to_string()).is_none());
}

#[test]
fn test_layout_no_struct_alignment() {
    let mut layout = InterleavedLayout::with_alignment(4, 4);
    layout.add_attribute("a".to_string(), HdTupleType::new(HdType::Float, 3), 12);
    layout.add_attribute("b".to_string(), HdTupleType::new(HdType::Float, 3), 12);
    assert_eq!(layout.stride(), 24);
}

#[test]
fn align_up_values() {
    assert_eq!(align_up(0, 16), 0);
    assert_eq!(align_up(1, 16), 16);
    assert_eq!(align_up(16, 16), 16);
    assert_eq!(align_up(17, 4), 20);
    assert_eq!(align_up(24, 16), 32);
}
