use usd_hd_st::mesh::{
    encode_f32_slice_le, encode_u32_slice_le, expand_f32_components_by_indices,
    expand_indexed_f32, HdStMeshVertexData,
};

fn bits(v: &[f32]) -> Vec<u32> {
    v.iter().map(|x| x.to_bits()).collect()
}

#[test]
fn expand_indexed_values_with_and_without_indices() {
    let values = bits(&[1.0, 2.0, 3.0]);
    assert_eq!(expand_indexed_f32(&values, None), values);
    let out = expand_indexed_f32(&values, Some(&[2, 0, 5, -1, 1]));
    assert_eq!(out, bits(&[3.0, 1.0, 0.0, 0.0, 2.0]));
    assert!(expand_indexed_f32(&values, Some(&[])).is_empty());
}

#[test]
fn expand_tuples_by_index_map() {
    let src = bits(&[0.0, 0.5, 1.0, 1.5, 2.0, 2.5]);
    let out = expand_f32_components_by_indices(&src, 2, &[2, 0, 3, 1]);
    assert_eq!(out, bits(&[2.0, 2.5, 0.0, 0.5, 0.0, 0.0, 1.0, 1.5]));
    assert!(expand_f32_components_by_indices(&src, 2, &[]).is_empty());
    assert_eq!(expand_f32_components_by_indices(&src, 3, &[1]), bits(&[1.5, 2.0, 2.5]));
}

#[test]
fn encodes_words_little_endian() {
    assert_eq!(encode_u32_slice_le(&[1, 0x0403_0201]), vec![1, 0, 0, 0, 1, 2, 3, 4]);
    assert_eq!(encode_f32_slice_le(&bits(&[1.0])), 1.0f32.to_le_bytes().to_vec());
    assert!(encode_u32_slice_le(&[]).is_empty());
}

#[test]
fn vertex_data_counts_and_sizes() {
    let mut d = HdStMeshVertexData::default();
    assert_eq!(d.get_vertex_count(), 0);
    d.positions = bits(&[0.0, 1.0, 2.0, 3.0, 4.0, 5.0, 6.0]);
    d.normals = bits(&[0.0, 0.0, 1.0]);
    assert_eq!(d.get_vertex_count(), 2);
    assert_eq!(d.get_positions_byte_size(), 28);
    assert_eq!(d.get_normals_byte_size(), 12);
}
