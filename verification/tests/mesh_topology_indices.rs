use usd_hd_st::mesh::build_fvar_triangle_index_map;
use usd_hd_st::mesh::HdStMeshTopology as MeshTopology;
use usd_hd_st::mesh_topology::{HdGeomSubset, HdStMeshTopology};

#[test]
fn test_topology_triangulation() {
    let topo = MeshTopology::from_faces(vec![4], vec![0, 1, 2, 3]);
    let (triangles, count) = topo.triangulate();
    assert_eq!(count, 2);
    assert_eq!(triangles.len(), 6);
    assert_eq!(triangles[0], 0);
    assert_eq!(triangles[1], 1);
    assert_eq!(triangles[2], 2);
    assert_eq!(triangles[3], 0);
    assert_eq!(triangles[4], 2);
    assert_eq!(triangles[5], 3);
}

#[test]
fn test_topology_with_triangle() {
    let topo = MeshTopology::from_faces(vec![3], vec![0, 1, 2]);
    let (triangles, count) = topo.triangulate();
    assert_eq!(count, 1);
    assert_eq!(triangles, vec![0, 1, 2]);
}

#[test]
fn test_topology_mixed_faces() {
    let topo = MeshTopology::from_faces(vec![4, 3], vec![0, 1, 2, 3, 4, 5, 6]);
    let (triangles, count) = topo.triangulate();
    assert_eq!(count, 3);
    assert_eq!(triangles.len(), 9);
}

#[test]
fn test_basic_topology() {
    let topo = HdStMeshTopology::from_faces(vec![4, 3], vec![0, 1, 2, 3, 4, 5, 6]);
    assert_eq!(topo.get_face_count(), 2);
    assert_eq!(topo.get_num_face_vertices(), 7);
    assert_eq!(topo.get_num_points(), 7);
}

#[test]
fn test_triangulate() {
    let topo = HdStMeshTopology::from_faces(vec![4], vec![0, 1, 2, 3]);
    let (tri, params) = topo.compute_triangle_indices();
    assert_eq!(tri.len(), 6);
    assert_eq!(params.len(), 2);
    assert_eq!(params[0], 0);
    assert_eq!(params[1], 0);
}

#[test]
fn test_triangulate_with_holes() {
    let mut topo = HdStMeshTopology::from_faces(vec![4, 3], vec![0, 1, 2, 3, 4, 5, 6]);
    topo.hole_indices = vec![0];
    let (tri, params) = topo.compute_triangle_indices();
    assert_eq!(tri.len(), 3);
    assert_eq!(params[0], 1);
}

#[test]
fn test_edge_indices() {
    let topo = HdStMeshTopology::from_faces(vec![5], vec![0, 1, 2, 3, 4]);
    let edges = topo.compute_triangle_edge_indices();
    assert_eq!(edges.len(), 3);
    assert_eq!(edges[0], 0b011);
    assert_eq!(edges[1], 0b010);
    assert_eq!(edges[2], 0b110);
}

#[test]
fn test_points_index() {
    let topo = HdStMeshTopology::from_faces(vec![3], vec![0, 1, 2]);
    let pts = topo.compute_points_index();
    assert_eq!(pts, vec![0, 1, 2]);
}

#[test]
fn test_geom_subsets() {
    let mut topo = HdStMeshTopology::from_faces(
        vec![4, 4, 4, 4],
        vec![0, 1, 2, 3, 4, 5, 6, 7, 8, 9, 10, 11, 12, 13, 14, 15],
    );
    topo.geom_subsets.push(HdGeomSubset::new("/subset0".to_string(), "/mat".to_string(), vec![0, 2]));
    topo.sanitize_geom_subsets();
    let non_subset = topo.get_non_subset_faces().unwrap();
    assert_eq!(non_subset, &[1, 3]);
}

#[test]
fn test_subdivision_queries() {
    let mut topo = HdStMeshTopology::from_faces(vec![4], vec![0, 1, 2, 3]);
    topo.subdivision_scheme = "catmullClark".to_string();
    assert!(topo.refines_to_bspline_patches());
    assert!(!topo.refines_to_triangles());
    topo.subdivision_scheme = "loop".to_string();
    assert!(topo.refines_to_triangles());
    assert!(topo.refines_to_box_spline_triangle_patches());
}

#[test]
fn triangle_fan_indices_and_face_params() {
    let topo = HdStMeshTopology::from_faces(vec![5, 3], vec![0, 1, 2, 3, 4, 5, 6, 7]);
    let (tri, params) = topo.compute_triangle_indices();
    assert_eq!(tri, vec![0, 1, 2, 0, 2, 3, 0, 3, 4, 5, 6, 7]);
    assert_eq!(params, vec![0, 0, 0, 1]);
}

#[test]
fn quad_indices_of_mixed_mesh() {
    let mut topo = HdStMeshTopology::from_faces(vec![4, 3], vec![0, 1, 2, 3, 4, 5, 6]);
    topo.compute_quad_info();
    let info = topo.get_quad_info().unwrap();
    assert_eq!(info.num_points, 1);
    let (quads, params) = topo.compute_quad_indices();
    assert_eq!(quads.len() % 4, 0);
    assert_eq!(quads.len() / 4, params.len());
    assert_eq!(&quads[0..4], &[0, 1, 2, 3]);
}

fn f32_bits(v: &[f32]) -> Vec<u32> {
    v.iter().map(|x| x.to_bits()).collect()
}

fn floats(v: &[u32]) -> Vec<f32> {
    v.iter().map(|b| f32::from_bits(*b)).collect()
}

#[test]
fn face_varying_values_follow_the_fan() {
    let topo = MeshTopology::from_faces(vec![4], vec![7, 8, 9, 10]);
    let uv = f32_bits(&[0.0, 0.0, 1.0, 0.0, 1.0, 1.0, 0.0, 1.0]);
    let out = floats(&topo.triangulate_fv(&uv, 2));
    assert_eq!(out, vec![0.0, 0.0, 1.0, 0.0, 1.0, 1.0, 0.0, 0.0, 1.0, 1.0, 0.0, 1.0]);
}

#[test]
fn face_varying_stops_at_short_data() {
    let topo = MeshTopology::from_faces(vec![3, 3], vec![0, 1, 2, 3, 4, 5]);
    let data = f32_bits(&[1.0, 2.0, 3.0, 4.0]);
    assert_eq!(floats(&topo.triangulate_fv(&data, 1)), vec![1.0, 2.0, 3.0]);
}

#[test]
fn vertex_values_are_expanded_through_indices() {
    let mut topo = MeshTopology::from_faces(vec![3, 3], vec![2, 1, 0, 0, 1, 5]);
    let pos = f32_bits(&[10.0, 11.0, 20.0, 21.0, 30.0, 31.0]);
    let out = floats(&topo.expand_and_triangulate(&pos, 2));
    assert_eq!(
        out,
        vec![30.0, 31.0, 20.0, 21.0, 10.0, 11.0, 10.0, 11.0, 20.0, 21.0, 0.0, 0.0]
    );
    topo.right_handed = false;
    topo.hole_indices = vec![1];
    let out = floats(&topo.expand_and_triangulate(&pos, 2));
    assert_eq!(out, vec![30.0, 31.0, 10.0, 11.0, 20.0, 21.0]);
}

#[test]
fn fvar_map_has_one_entry_per_triangle_index() {
    let mut topo = MeshTopology::from_faces(vec![4, 3, 5, 2], (0..14).collect());
    topo.hole_indices = vec![1, -3, 40];
    let (tris, count) = topo.triangulate();
    let map = build_fvar_triangle_index_map(&topo);
    assert_eq!(map.len(), tris.len());
    assert_eq!(count, 5);
    assert_eq!(&map[0..6], &[0, 1, 2, 0, 2, 3]);
    assert_eq!(&map[6..9], &[7, 8, 9]);
}
