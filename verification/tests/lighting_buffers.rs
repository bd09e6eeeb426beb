use usd_hd_st::lighting::{
    build_light_uniforms, default_light, default_lights, write_light_entry, GpuLightType,
    LightGpuData, LIGHT_ENTRY_SIZE, LIGHT_UNIFORMS_SIZE, MAX_LIGHTS,
};

fn bits4(v: [f32; 4]) -> [u32; 4] {
    v.map(f32::to_bits)
}

fn identity() -> [u32; 16] {
    let mut m = [0u32; 16];
    for i in 0..4 {
        m[i * 5] = 1.0f32.to_bits();
    }
    m
}

fn count_of(data: &[u8]) -> u32 {
    u32::from_le_bytes([data[0], data[1], data[2], data[3]])
}

#[test]
fn test_default_light() {
    let light = default_light();
    assert_eq!(light.type_pad[0], GpuLightType::Directional.value());
    assert_eq!(f32::from_bits(light.params[0]), 1.0);
}

#[test]
fn test_build_light_uniforms_size() {
    let lights = vec![default_light()];
    let data = build_light_uniforms(&lights);
    assert_eq!(data.len(), LIGHT_UNIFORMS_SIZE);
    assert_eq!(count_of(&data), 1);
}

#[test]
fn test_build_empty_lights() {
    let data = build_light_uniforms(&[]);
    assert_eq!(data.len(), LIGHT_UNIFORMS_SIZE);
    assert_eq!(count_of(&data), 0);
}

#[test]
fn test_light_entry_size() {
    assert_eq!(LIGHT_ENTRY_SIZE, 144);
    assert_eq!(std::mem::size_of::<LightGpuData>(), LIGHT_ENTRY_SIZE);
}

#[test]
fn test_build_light_uniforms_max_lights() {
    let lights: Vec<_> = (0..MAX_LIGHTS).map(|_| default_light()).collect();
    let data = build_light_uniforms(&lights);
    assert_eq!(data.len(), LIGHT_UNIFORMS_SIZE);
    assert_eq!(count_of(&data), MAX_LIGHTS as u32);
}

#[test]
fn test_build_light_uniforms_overflow_clamps() {
    let lights: Vec<_> = (0..MAX_LIGHTS + 5).map(|_| default_light()).collect();
    let data = build_light_uniforms(&lights);
    assert_eq!(data.len(), LIGHT_UNIFORMS_SIZE, "overflow must not change buffer size");
    assert_eq!(count_of(&data), MAX_LIGHTS as u32, "count must clamp to MAX_LIGHTS");
}

#[test]
fn test_write_light_entry_roundtrip() {
    let light = LightGpuData {
        type_pad: bits4([1.0, 0.0, 0.0, 0.0]),
        position: bits4([1.0, 2.0, 3.0, 1.0]),
        direction: bits4([0.0, -1.0, 0.0, 0.0]),
        color: bits4([0.5, 0.8, 1.0, 1.0]),
        params: bits4([2.5, 10.0, 0.3, 0.7]),
        world_to_light_transform: identity(),
    };
    let mut buf = Vec::new();
    write_light_entry(&mut buf, &light);
    assert_eq!(buf.len(), LIGHT_ENTRY_SIZE);
    let off = 4 * 4 + 1 * 4;
    let val = f32::from_le_bytes([buf[off], buf[off + 1], buf[off + 2], buf[off + 3]]);
    assert!((val - 2.0).abs() < 1e-6, "position.y = {}", val);
}

#[test]
fn unused_slots_are_zero_and_entries_follow_header() {
    let light = default_light();
    let data = build_light_uniforms(&[light]);
    let mut entry = Vec::new();
    write_light_entry(&mut entry, &light);
    assert_eq!(&data[4..16], &[0u8; 12]);
    assert_eq!(&data[16..16 + LIGHT_ENTRY_SIZE], &entry[..]);
    assert!(data[16 + LIGHT_ENTRY_SIZE..].iter().all(|&b| b == 0));
}

#[test]
fn default_lights_are_three_directionals() {
    let lights = default_lights();
    assert_eq!(lights.len(), 3);
    let intensities: Vec<f32> = lights.iter().map(|l| f32::from_bits(l.params[0])).collect();
    assert_eq!(intensities, vec![1.2, 0.4, 0.6]);
    assert_eq!(f32::from_bits(lights[1].direction[0]), -0.7);
    assert_eq!(f32::from_bits(lights[0].params[3]), std::f32::consts::FRAC_PI_4);
    assert_eq!(lights[2].world_to_light_transform, identity());
    assert_eq!(f32::from_bits(default_light().direction[1]), 0.577);
}

#[test]
fn light_gpu_data_default_is_the_default_light() {
    assert_eq!(LightGpuData::default(), default_light());
}
