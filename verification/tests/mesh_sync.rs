use usd_hd_st::mesh::{HdStMeshTopology, HdStMeshVertexData};
use usd_hd_st::mesh_sync::{
    expand_indexed_tuples, pack_face_varying_words, vertex_buffer_sources, sync_mesh_step, vertex_buffer_specs,
    FaceVaryingPrimvars, HdStMeshState, MeshDelegateValues, MeshTopologyValues, PrimvarRead,
    RPRIM_DIRTY_DISPLAY_STYLE, RPRIM_DIRTY_POINTS, RPRIM_DIRTY_PRIMVAR, RPRIM_DIRTY_TOPOLOGY,
    RPRIM_DIRTY_TRANSFORM, RPRIM_DIRTY_VISIBILITY,
};

fn bits(v: &[f32]) -> Vec<u32> {
    v.iter().map(|f| f.to_bits()).collect()
}

fn empty_fvar() -> FaceVaryingPrimvars {
    FaceVaryingPrimvars { normals: vec![], uvs: vec![], colors: vec![], opacity: vec![] }
}

fn new_state() -> HdStMeshState {
    HdStMeshState {
        topology: HdStMeshTopology::new(),
        vertex_data: HdStMeshVertexData::default(),
        authored_vertex_data: HdStMeshVertexData::default(),
        display_opacity: vec![],
        authored_display_opacity: vec![],
        face_varying_primvars: empty_fvar(),
        fvar_topology_to_primvar_vector: vec![],
        visible: true,
        has_varying_topology: false,
        topology_dirty: false,
        vertex_dirty: false,
        constant_primvars_dirty: false,
        refine_level: 0,
        world_transform: [0; 16],
    }
}

fn values() -> MeshDelegateValues {
    MeshDelegateValues {
        visible: false,
        topology: MeshTopologyValues {
            face_vertex_counts: vec![4],
            face_vertex_indices: vec![0, 1, 2, 3],
            hole_indices: vec![],
            orientation: "leftHanded".to_string(),
            scheme: "catmullClark".to_string(),
        },
        refine_level: 12,
        transform: [7; 16],
        points: Some(bits(&[0.0; 15])),
        normals: PrimvarRead::Values { values: bits(&[1.0; 15]), indices: None },
        display_opacity: PrimvarRead::Unreadable,
        display_color: PrimvarRead::NotAuthored,
        uvs: PrimvarRead::Values {
            values: bits(&[0.0, 0.0, 1.0, 0.0, 1.0, 1.0]),
            indices: Some(vec![0, 1, 2, 5]),
        },
    }
}

#[test]
fn vertex_buffer_specs_follow_present_channels() {
    let vd = HdStMeshVertexData {
        positions: vec![0; 6],
        normals: vec![0; 6],
        uvs: vec![],
        colors: vec![0; 6],
        prev_positions: vec![],
    };
    let specs = vertex_buffer_specs(&vd);
    let got: Vec<(String, usize, usize)> =
        specs.into_iter().map(|s| (s.name, s.num_elements, s.element_size)).collect();
    assert_eq!(
        got,
        vec![
            ("points".to_string(), 2, 12),
            ("normals".to_string(), 2, 12),
            ("displayColor".to_string(), 2, 12),
        ]
    );
    let with_uvs = HdStMeshVertexData { uvs: vec![0; 4], ..vd };
    let specs = vertex_buffer_specs(&with_uvs);
    assert_eq!(specs[2].name, "st");
    assert_eq!(specs[2].num_elements, 2);
    assert_eq!(specs[2].element_size, 8);
    assert!(vertex_buffer_specs(&HdStMeshVertexData::default()).is_empty());
}

#[test]
fn face_varying_words_pack_header_then_channels() {
    let fvar = FaceVaryingPrimvars {
        normals: vec![1, 2, 3],
        uvs: vec![],
        colors: vec![],
        opacity: vec![9],
    };
    let w = pack_face_varying_words(&fvar, &[0, 0, 1]).unwrap();
    let mut expected = vec![4, u32::MAX, u32::MAX, 13];
    expected.extend([1, 2, 3, 1, 2, 3, 0, 0, 0]);
    expected.extend([9, 9, 0]);
    assert_eq!(w, expected);
    assert!(pack_face_varying_words(&empty_fvar(), &[0, 1]).is_none());
    assert!(pack_face_varying_words(&fvar, &[]).is_none());
}

#[test]
fn indexed_tuples_expand_with_zeros_out_of_range() {
    let v = [1, 2, 3, 4];
    assert_eq!(expand_indexed_tuples(&v, 2, Some(&[1, -1, 0, 2])), vec![3, 4, 0, 0, 1, 2, 0, 0]);
    assert_eq!(expand_indexed_tuples(&v, 2, None), vec![1, 2, 3, 4]);
}

#[test]
fn mesh_sync_step_reads_dirty_parts() {
    let mut s = new_state();
    let mut b = RPRIM_DIRTY_TOPOLOGY
        | RPRIM_DIRTY_POINTS
        | RPRIM_DIRTY_PRIMVAR
        | RPRIM_DIRTY_VISIBILITY
        | RPRIM_DIRTY_TRANSFORM
        | (1 << 24);
    sync_mesh_step(&mut s, &mut b, values());
    assert_eq!(b, 1 << 24);
    assert!(!s.visible);
    assert_eq!(s.topology.face_vertex_indices, vec![0, 1, 2, 3]);
    assert!(!s.topology.right_handed);
    assert_eq!(s.topology.subdivision_scheme, "catmullClark");
    assert_eq!(s.topology.num_points, 5);
    assert_eq!(s.refine_level, 8);
    assert!(s.topology_dirty);
    assert_eq!(s.world_transform, [7; 16]);
    assert!(s.constant_primvars_dirty);
    assert_eq!(s.vertex_data.positions.len(), 15);
    assert_eq!(s.authored_vertex_data.positions.len(), 15);
    assert!(s.vertex_dirty);
    // Five normals for five points: vertex data.
    assert_eq!(s.vertex_data.normals, bits(&[1.0; 15]));
    assert!(s.face_varying_primvars.normals.is_empty());
    // Four texture coordinates for four face-vertices: face-varying.
    assert_eq!(s.face_varying_primvars.uvs, bits(&[0.0, 0.0, 1.0, 0.0, 1.0, 1.0, 0.0, 0.0]));
    assert!(s.vertex_data.uvs.is_empty());
    assert_eq!(s.fvar_topology_to_primvar_vector.len(), 1);
    assert_eq!(s.fvar_topology_to_primvar_vector[0].topology, vec![0, 1, 2, 3]);
    assert_eq!(s.fvar_topology_to_primvar_vector[0].primvars, vec!["st".to_string()]);
}

#[test]
fn mesh_sync_step_topology_only_clears_face_varying() {
    let mut s = new_state();
    let mut b = RPRIM_DIRTY_TOPOLOGY | RPRIM_DIRTY_POINTS | RPRIM_DIRTY_PRIMVAR;
    sync_mesh_step(&mut s, &mut b, values());
    assert!(!s.face_varying_primvars.uvs.is_empty());
    let mut b = RPRIM_DIRTY_TOPOLOGY;
    let mut v = values();
    v.topology.face_vertex_counts = vec![3, 3];
    v.topology.face_vertex_indices = vec![0, 1, 2, 0, 2, 3];
    sync_mesh_step(&mut s, &mut b, v);
    assert_eq!(b, 0);
    assert!(s.face_varying_primvars.uvs.is_empty());
    assert!(s.fvar_topology_to_primvar_vector.is_empty());
    assert!(s.has_varying_topology);
    assert_eq!(s.topology.num_points, 5);
    assert_eq!(s.vertex_data.normals.len(), 15);
}

#[test]
fn mesh_sync_step_display_style_clamps_level() {
    let mut s = new_state();
    let mut b = RPRIM_DIRTY_DISPLAY_STYLE;
    let mut v = values();
    v.refine_level = -3;
    sync_mesh_step(&mut s, &mut b, v);
    assert_eq!(s.refine_level, 0);
    assert!(!s.topology_dirty);
    let mut b = RPRIM_DIRTY_DISPLAY_STYLE;
    let mut v = values();
    v.refine_level = 2;
    sync_mesh_step(&mut s, &mut b, v);
    assert_eq!(s.refine_level, 2);
    assert!(s.topology_dirty);
    assert!(s.visible);
}

#[test]
fn vertex_buffer_sources_hold_channel_bytes() {
    let vd = HdStMeshVertexData {
        positions: vec![1, 2, 3],
        normals: vec![],
        uvs: vec![],
        colors: vec![0x0403_0201, 5, 6],
        prev_positions: vec![],
    };
    let sources = vertex_buffer_sources(&vd);
    assert_eq!(sources.len(), 2);
    assert_eq!(sources[0].name, "points");
    assert_eq!(sources[0].num_elements, 1);
    assert_eq!(sources[0].element_size, 12);
    assert_eq!(sources[0].bytes, vec![1, 0, 0, 0, 2, 0, 0, 0, 3, 0, 0, 0]);
    assert_eq!(sources[1].name, "displayColor");
    assert_eq!(&sources[1].bytes[0..4], &[1, 2, 3, 4]);
    assert_eq!(sources[1].bytes.len(), 12);
}
