use usd_hd_st::flat_normals::{flat_normal_face_offsets, FlatNormalsComputationGpu};
use usd_hd_st::hd_types::HdType;

#[test]
fn test_gpu_flat_normals_creation() {
    let comp = FlatNormalsComputationGpu::new(
        100,
        "points".to_string(),
        "normals".to_string(),
        HdType::FloatVec3,
        false,
    );
    assert_eq!(comp.get_num_output_elements(), 100);
    let specs = comp.get_buffer_specs();
    assert_eq!(specs.len(), 1);
    assert_eq!(specs[0].data_type, HdType::FloatVec3);
}

#[test]
fn test_gpu_flat_normals_packed() {
    let comp = FlatNormalsComputationGpu::new(
        50,
        "points".to_string(),
        "normals".to_string(),
        HdType::FloatVec3,
        true,
    );
    let specs = comp.get_buffer_specs();
    assert_eq!(specs[0].data_type, HdType::Int32_2_10_10_10_Rev);
}

#[test]
fn dispatch_uniform_strides() {
    let packed = FlatNormalsComputationGpu::new(7, "points".into(), "normals".into(), HdType::DoubleVec3, true);
    let u = packed.execute().unwrap();
    assert_eq!(u.normals_stride, 1);
    assert_eq!(u.points_stride, 3);
    assert_eq!(u.index_stride, 3);
    assert_eq!(u.p_param_stride, 1);
    assert_eq!(u.prim_index_end, 7);
    assert!(packed.has_supported_points_type());

    let plain = FlatNormalsComputationGpu::new(9, "points".into(), "normals".into(), HdType::FloatVec3, false);
    assert_eq!(plain.execute().unwrap().normals_stride, 3);
    assert_eq!(plain.get_buffer_specs()[0].name, "normals");

    let invalid = FlatNormalsComputationGpu::new(9, "points".into(), "normals".into(), HdType::Invalid, false);
    assert!(invalid.execute().is_none());
    assert!(!invalid.has_supported_points_type());
}

#[test]
fn flat_normal_face_walk() {
    // A triangle, a degenerate edge, a quad naming a missing point, a quad,
    // and a triangle running past the index list.
    let counts = [3, 2, 4, 4, 3];
    let indices = [0, 1, 2, 2, 3, 0, 1, 9, 3, 0, 1, 2, 3, 4];
    let r = flat_normal_face_offsets(&counts, &indices, 5);
    assert_eq!(r, vec![Some(0), None, None, Some(9), None]);
}

#[test]
fn flat_normal_face_walk_negative_index() {
    let r = flat_normal_face_offsets(&[3, 3], &[0, -1, 2, 0, 1, 2], 3);
    assert_eq!(r, vec![None, Some(3)]);
}

#[test]
fn cpu_normals_buffer_spec_follows_packing() {
    let packed = usd_hd_st::flat_normals::cpu_normals_buffer_specs("normals".to_string(), true);
    assert_eq!(packed.len(), 1);
    assert_eq!(packed[0].name, "normals");
    assert_eq!(packed[0].data_type, HdType::Int32_2_10_10_10_Rev);
    let plain = usd_hd_st::flat_normals::cpu_normals_buffer_specs("normals".to_string(), false);
    assert_eq!(plain[0].data_type, HdType::FloatVec3);
}
