use usd_hd_st::instancer::{HdStInstancePrimvar, HdStInstancer};

fn bits(v: &[f64]) -> Vec<u64> {
    v.iter().map(|x| x.to_bits()).collect()
}

#[test]
fn instancer_test_creation() {
    let inst = HdStInstancer::new("/inst".to_string());
    assert_eq!(inst.get_instance_count(), 0);
    assert!(!inst.is_nested());
    assert!(inst.is_dirty());
}

#[test]
fn test_nested_instancer() {
    let inst = HdStInstancer::new_nested("/child".to_string(), "/parent".to_string());
    assert!(inst.is_nested());
    assert_eq!(inst.get_parent_path(), Some(&"/parent".to_string()));
}

#[test]
fn test_set_transforms() {
    let mut inst = HdStInstancer::new("/inst".to_string());
    let xforms = vec![
        1.0f64, 0.0, 0.0, 0.0,
        0.0, 1.0, 0.0, 0.0,
        0.0, 0.0, 1.0, 0.0,
        0.0, 0.0, 0.0, 1.0,

        1.0, 0.0, 0.0, 0.0,
        0.0, 1.0, 0.0, 0.0,
        0.0, 0.0, 1.0, 0.0,
        1.0, 0.0, 0.0, 1.0,
    ];
    inst.set_transforms(bits(&xforms));
    assert_eq!(inst.get_instance_count(), 2);
    assert_eq!(f64::from_bits(inst.get_instance_transform(1).unwrap()[12]), 1.0);
}

#[test]
fn test_get_instance_indices_sequential() {
    let mut inst = HdStInstancer::new("/inst".to_string());
    inst.set_instance_count(3);
    let indices = inst.get_instance_indices("/proto");
    assert_eq!(indices.len(), 6);
    assert_eq!(&indices[..], &[0, 0, 1, 1, 2, 2]);
}

#[test]
fn test_get_instance_indices_sparse() {
    let mut inst = HdStInstancer::new("/inst".to_string());
    inst.set_instance_count(5);
    inst.set_instance_primvar_num_elements(5);
    inst.set_indices(vec![1, 3]);
    let indices = inst.get_instance_indices("/proto");
    assert_eq!(indices.len(), 4);
    assert_eq!(&indices[..], &[0, 1, 1, 3]);
}

#[test]
fn test_instance_indices_invisible() {
    let mut inst = HdStInstancer::new("/inst".to_string());
    inst.set_instance_count(3);
    inst.set_visible(false);
    let indices = inst.get_instance_indices("/proto");
    assert!(indices.is_empty());
}

#[test]
fn instancer_test_sync() {
    let mut inst = HdStInstancer::new("/inst".to_string());
    inst.set_instance_count(5);
    assert!(inst.is_dirty());
    assert!(!inst.has_buffer());
    inst.sync();
    assert!(!inst.is_dirty());
    assert!(inst.has_buffer());
}

#[test]
fn out_of_range_indices_are_dropped() {
    let mut inst = HdStInstancer::new("/inst".to_string());
    inst.set_instance_count(4);
    inst.set_indices(vec![-1, 0, 4, 3, 7, 2]);
    assert_eq!(inst.get_instance_indices("/proto"), vec![0, 0, 1, 3, 2, 2]);
    inst.set_instance_primvar_num_elements(3);
    assert_eq!(inst.get_instance_indices("/proto"), vec![0, 0, 1, 2]);
}

#[test]
fn transform_past_the_end_is_none() {
    let mut inst = HdStInstancer::new("/inst".to_string());
    inst.set_transforms(vec![0u64; 32]);
    assert!(inst.get_instance_transform(1).is_some());
    assert!(inst.get_instance_transform(2).is_none());
    assert_eq!(inst.get_total_instance_count(), 2);
}

#[test]
fn primvar_names_set_flags() {
    let mut inst = HdStInstancer::new("/inst".to_string());
    inst.sync();
    inst.set_primvar(HdStInstancePrimvar::varying("color".to_string(), vec![0, 1, 2]));
    assert!(!inst.has_display_opacity());
    assert!(!inst.has_normals());
    assert!(inst.is_dirty());
    inst.set_primvar(HdStInstancePrimvar::constant("displayOpacity".to_string(), vec![0]));
    assert!(inst.has_display_opacity());
    inst.set_primvar(HdStInstancePrimvar::varying("normals".to_string(), vec![]));
    assert!(inst.has_normals());
    assert!(inst.has_display_opacity());
}

#[test]
fn sync_when_clean_keeps_buffer() {
    let mut inst = HdStInstancer::new("/inst".to_string());
    inst.sync();
    let handle = inst.get_buffer_handle();
    inst.sync();
    assert_eq!(inst.get_buffer_handle(), handle);
    assert!(!inst.is_dirty());
}

#[test]
fn test_primvars() {
    let mut inst = HdStInstancer::new("/inst".to_string());
    let colors = vec![1.0f32.to_bits(), 0.0f32.to_bits(), 0.0f32.to_bits()];
    inst.set_primvar(HdStInstancePrimvar::varying("color".to_string(), colors));
    assert_eq!(inst.get_primvars().len(), 1);
    assert!(inst.get_primvar("color").unwrap().varying);
    inst.set_primvar(HdStInstancePrimvar::constant(
        "displayOpacity".to_string(),
        vec![1.0f32.to_bits()],
    ));
    assert!(inst.has_display_opacity());
}

#[test]
fn set_primvar_replaces_same_name() {
    let mut inst = HdStInstancer::new("/inst".to_string());
    inst.set_primvar(HdStInstancePrimvar::varying("color".to_string(), vec![1, 2]));
    inst.set_primvar(HdStInstancePrimvar::constant("color".to_string(), vec![9]));
    assert_eq!(inst.get_primvars().len(), 1);
    let p = inst.get_primvar("color").unwrap();
    assert!(!p.varying);
    assert_eq!(p.values, vec![9]);
    assert!(inst.get_primvar("missing").is_none());
}

#[test]
fn sync_primvars_takes_whole_matrices_and_nonempty_indices() {
    let mut inst = HdStInstancer::new("/inst".to_string());
    inst.sync();
    let two = vec![0u64; 32];
    inst.sync_primvars(Some(two.clone()), Some(vec![1]));
    assert!(inst.is_dirty());
    assert_eq!(inst.get_instance_count(), 2);
    assert_eq!(inst.get_transforms(), two.as_slice());
    assert_eq!(inst.get_indices(), &[1]);
    inst.sync_primvars(Some(vec![0u64; 17]), Some(vec![]));
    assert_eq!(inst.get_instance_count(), 2);
    assert_eq!(inst.get_indices(), &[1]);
    inst.sync_primvars(Some(vec![]), None);
    assert_eq!(inst.get_instance_count(), 2);
}
