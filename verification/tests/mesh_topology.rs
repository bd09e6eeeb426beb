use usd_hd_st::mesh_topology::HdQuadInfo;

#[test]
fn test_quad_info() {
    let info = HdQuadInfo::compute(&[4, 3, 5]);
    assert_eq!(info.verts_per_face, vec![4, 3, 5]);
    assert_eq!(info.point_indices[0], -1);
    assert!(info.point_indices[1] >= 0);
    assert!(info.point_indices[2] >= 0);
    assert_eq!(info.num_points, 2);
    assert_eq!(info.max_num_verts_per_face, 5);
}

#[test]
fn quad_info_validity() {
    assert!(!HdQuadInfo::new().is_valid());
    let empty = HdQuadInfo::compute(&[]);
    assert!(!empty.is_valid());
    assert_eq!(empty.verts_per_face, HdQuadInfo::new().verts_per_face);
    assert_eq!(empty.point_indices, HdQuadInfo::new().point_indices);
    assert_eq!(empty.num_points, 0);
    assert_eq!(empty.max_num_verts_per_face, 0);
    assert!(HdQuadInfo::compute(&[4, 4]).is_valid());
}
