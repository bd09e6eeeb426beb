//! Light data layout constants and the WGSL snippets that declare the
//! light uniforms and evaluate every light (optionally with shadow maps) in
//! the fragment shader.

use vstd::prelude::*;
use vstd::seq_lib::lemma_concat_associative;
use vstd::string::StringExecFns;
use crate::shadow::MAX_SHADOWS;
use crate::text::{decimal, push_decimal, str_eq, text_if};

verus! {

/// Maximum number of lights in the uniform array.
pub const MAX_LIGHTS: usize = 16;

/// Size in bytes of one light entry: five vec4 plus one mat4x4.
pub const LIGHT_ENTRY_SIZE: usize = 144;

/// Size of the light uniform buffer: a 16-byte header and the entries.
pub const LIGHT_UNIFORMS_SIZE: usize = 16 + MAX_LIGHTS * LIGHT_ENTRY_SIZE;

/// Light type discriminant as the shader reads it.
#[derive(Debug, Clone, Copy, PartialEq, Eq, Structural)]
pub enum GpuLightType {
    Directional,
    Point,
    Spot,
    Dome,
}

/// Discriminant value of a light type.
pub open spec fn spec_gpu_light_type_value(t: GpuLightType) -> u32 {
    match t {
        GpuLightType::Directional => 0,
        GpuLightType::Point => 1,
        GpuLightType::Spot => 2,
        GpuLightType::Dome => 3,
    }
}

impl GpuLightType {
    /// The discriminant the shader compares `type_pad.x` against.
    pub fn value(self) -> (v: u32)
        ensures
            v == spec_gpu_light_type_value(self),
    {
        match self {
            GpuLightType::Directional => 0,
            GpuLightType::Point => 1,
            GpuLightType::Spot => 2,
            GpuLightType::Dome => 3,
        }
    }
}

/// The shader light type for a Hydra light type name: distant lights are
/// directional, dome lights are domes, and every other light (sphere, rect,
/// disk, cylinder, or a name not known here) is shaded as a point light.
pub open spec fn spec_light_type_from_hd(hd_type: Seq<char>) -> GpuLightType {
    if hd_type == "distantLight"@ {
        GpuLightType::Directional
    } else if hd_type == "domeLight"@ {
        GpuLightType::Dome
    } else {
        GpuLightType::Point
    }
}

/// The shader light type for a Hydra light type name.
pub fn light_type_from_hd(hd_type: &str) -> (t: GpuLightType)
    ensures
        t == spec_light_type_from_hd(hd_type@),
{
    proof {
        reveal_strlit("domeLight");
        reveal_strlit("sphereLight");
        reveal_strlit("rectLight");
        reveal_strlit("diskLight");
        reveal_strlit("cylinderLight");
        reveal_strlit("distantLight");
        assert("sphereLight"@.len() != "domeLight"@.len());
        assert("cylinderLight"@.len() != "domeLight"@.len());
        assert("rectLight"@[0] != "domeLight"@[0]);
        assert("diskLight"@[1] != "domeLight"@[1]);
    }
    if str_eq(hd_type, "distantLight") {
        GpuLightType::Directional
    } else if str_eq(hd_type, "sphereLight") {
        GpuLightType::Point
    } else if str_eq(hd_type, "rectLight") || str_eq(hd_type, "diskLight") || str_eq(
        hd_type,
        "cylinderLight",
    ) {
        GpuLightType::Point
    } else if str_eq(hd_type, "domeLight") {
        GpuLightType::Dome
    } else {
        GpuLightType::Point
    }
}

/// The uniform buffer holds exactly the header and every entry.
pub proof fn lemma_light_uniforms_size()
    ensures
        LIGHT_UNIFORMS_SIZE == 16 + 16 * 144,
        LIGHT_UNIFORMS_SIZE == 2320,
        LIGHT_ENTRY_SIZE == 5 * 16 + 64,
{
}

/// Bits of `1.0_f32`.
pub const F32_ONE_BITS: u32 = 0x3f800000;

/// Bits of `FRAC_PI_4` as `f32`, the default spot cone angle.
pub const F32_FRAC_PI_4_BITS: u32 = 0x3f490fdb;

/// Column-major identity matrix, as `f32` bit patterns.
pub open spec fn identity_mat4_bits() -> Seq<u32> {
    seq![
        F32_ONE_BITS, 0, 0, 0,
        0, F32_ONE_BITS, 0, 0,
        0, 0, F32_ONE_BITS, 0,
        0, 0, 0, F32_ONE_BITS,
    ]
}

pub(crate) fn identity_mat4() -> (m: [u32; 16])
    ensures
        m@ == identity_mat4_bits(),
{
    let m = [
        F32_ONE_BITS, 0, 0, 0,
        0, F32_ONE_BITS, 0, 0,
        0, 0, F32_ONE_BITS, 0,
        0, 0, 0, F32_ONE_BITS,
    ];
    assert(m@ =~= identity_mat4_bits());
    m
}

/// Shadow settings of one light: whether it casts shadows, the PCF blur
/// radius, the depth bias and the world-to-shadow-clip matrix, each float
/// kept as its bit pattern.
#[derive(Debug, Clone, Copy, PartialEq, Eq)]
pub struct ShadowParams {
    pub enabled: bool,
    pub blur_bits: u32,
    pub bias_bits: u32,
    pub matrix: [u32; 16],
}

/// Bits of `0.001_f32`, the default shadow depth bias.
pub const F32_DEFAULT_SHADOW_BIAS_BITS: u32 = 0x3a83126f;

impl Default for ShadowParams {
    /// No shadows, no blur, a small depth bias and the identity matrix.
    fn default() -> (p: Self)
        ensures
            !p.enabled,
            p.blur_bits == 0,
            p.bias_bits == F32_DEFAULT_SHADOW_BIAS_BITS,
            p.matrix@ == identity_mat4_bits(),
    {
        ShadowParams {
            enabled: false,
            blur_bits: 0,
            bias_bits: F32_DEFAULT_SHADOW_BIAS_BITS,
            matrix: identity_mat4(),
        }
    }
}

/// One light as the shader reads it: five `vec4` and a `mat4x4`, every
/// component kept as the bit pattern of its `f32` value.
#[derive(Debug, Clone, Copy, PartialEq, Eq)]
pub struct LightGpuData {
    /// Light type, has-shadow flag, first and last shadow index.
    pub type_pad: [u32; 4],
    /// World-space position (point and spot lights).
    pub position: [u32; 4],
    /// World-space direction (directional and spot lights).
    pub direction: [u32; 4],
    /// Linear RGB color.
    pub color: [u32; 4],
    /// Intensity, radius, inner and outer cone angle.
    pub params: [u32; 4],
    /// World-to-light transform, column-major.
    pub world_to_light_transform: [u32; 16],
}

/// Whether `l` is a directional light shining from `direction` with
/// `color` and `intensity`, an outer cone angle of pi/4 and the
/// identity transform (all `f32` bit patterns).
pub open spec fn is_directional_light(l: LightGpuData, direction: Seq<u32>, color: Seq<u32>, intensity: u32) -> bool {
    &&& l.type_pad@ == seq![0u32, 0, 0, 0]
    &&& l.position@ == seq![0u32, 0, 0, F32_ONE_BITS]
    &&& l.direction@ == direction
    &&& l.color@ == color
    &&& l.params@ == seq![intensity, 0, 0, F32_FRAC_PI_4_BITS]
    &&& l.world_to_light_transform@ == identity_mat4_bits()
}

fn directional_light(direction: [u32; 4], color: [u32; 4], intensity: u32) -> (l: LightGpuData)
    ensures
        is_directional_light(l, direction@, color@, intensity),
{
    let l = LightGpuData {
        type_pad: [0, 0, 0, 0],
        position: [0, 0, 0, F32_ONE_BITS],
        direction,
        color,
        params: [intensity, 0, 0, F32_FRAC_PI_4_BITS],
        world_to_light_transform: identity_mat4(),
    };
    assert(l.type_pad@ =~= seq![0u32, 0, 0, 0]);
    assert(l.position@ =~= seq![0u32, 0, 0, F32_ONE_BITS]);
    assert(l.params@ =~= seq![intensity, 0, 0, F32_FRAC_PI_4_BITS]);
    l
}

/// The fallback light: white, intensity one, shining from
/// (0.577, 0.577, 0.577).
pub fn default_light() -> (l: LightGpuData)
    ensures
        is_directional_light(
            l,
            seq![0x3f13b646u32, 0x3f13b646, 0x3f13b646, 0],
            seq![F32_ONE_BITS, F32_ONE_BITS, F32_ONE_BITS, F32_ONE_BITS],
            F32_ONE_BITS,
        ),
{
    let l = directional_light(
        [0x3f13b646, 0x3f13b646, 0x3f13b646, 0],
        [F32_ONE_BITS, F32_ONE_BITS, F32_ONE_BITS, F32_ONE_BITS],
        F32_ONE_BITS,
    );
    assert(l.direction@ =~= seq![0x3f13b646u32, 0x3f13b646, 0x3f13b646, 0]);
    assert(l.color@ =~= seq![F32_ONE_BITS, F32_ONE_BITS, F32_ONE_BITS, F32_ONE_BITS]);
    l
}

impl Default for LightGpuData {
    /// The default light: white, directional, from the upper right front.
    fn default() -> (l: Self)
        ensures
            is_directional_light(
                l,
                seq![0x3f13b646u32, 0x3f13b646, 0x3f13b646, 0],
                seq![F32_ONE_BITS, F32_ONE_BITS, F32_ONE_BITS, F32_ONE_BITS],
                F32_ONE_BITS,
            ),
    {
        default_light()
    }
}

/// Three-point lighting for scenes without lights: a warm key light
/// (intensity 1.2) from the upper right, a cool fill light (0.4) from the
/// left and a white rim light (0.6) from behind.
pub fn default_lights() -> (v: Vec<LightGpuData>)
    ensures
        v@.len() == 3,
        is_directional_light(
            v@[0],
            seq![0x3f000000u32, 0x3f333333, 0x3f000000, 0],
            seq![F32_ONE_BITS, 0x3f733333, 0x3f666666, F32_ONE_BITS],
            0x3f99999a,
        ),
        is_directional_light(
            v@[1],
            seq![0xbf333333u32, 0x3e99999a, 0x3f19999a, 0],
            seq![0x3f59999au32, 0x3f666666, F32_ONE_BITS, F32_ONE_BITS],
            0x3ecccccd,
        ),
        is_directional_light(
            v@[2],
            seq![0u32, 0x3ecccccd, 0xbf666666, 0],
            seq![F32_ONE_BITS, F32_ONE_BITS, F32_ONE_BITS, F32_ONE_BITS],
            0x3f19999a,
        ),
{
    let key = directional_light(
        [0x3f000000, 0x3f333333, 0x3f000000, 0],
        [F32_ONE_BITS, 0x3f733333, 0x3f666666, F32_ONE_BITS],
        0x3f99999a,
    );
    let fill = directional_light(
        [0xbf333333, 0x3e99999a, 0x3f19999a, 0],
        [0x3f59999a, 0x3f666666, F32_ONE_BITS, F32_ONE_BITS],
        0x3ecccccd,
    );
    let rim = directional_light(
        [0, 0x3ecccccd, 0xbf666666, 0],
        [F32_ONE_BITS, F32_ONE_BITS, F32_ONE_BITS, F32_ONE_BITS],
        0x3f19999a,
    );
    assert(key.direction@ =~= seq![0x3f000000u32, 0x3f333333, 0x3f000000, 0]);
    assert(key.color@ =~= seq![F32_ONE_BITS, 0x3f733333, 0x3f666666, F32_ONE_BITS]);
    assert(fill.direction@ =~= seq![0xbf333333u32, 0x3e99999a, 0x3f19999a, 0]);
    assert(fill.color@ =~= seq![0x3f59999au32, 0x3f666666, F32_ONE_BITS, F32_ONE_BITS]);
    assert(rim.direction@ =~= seq![0u32, 0x3ecccccd, 0xbf666666, 0]);
    assert(rim.color@ =~= seq![F32_ONE_BITS, F32_ONE_BITS, F32_ONE_BITS, F32_ONE_BITS]);
    let mut v: Vec<LightGpuData> = Vec::new();
    v.push(key);
    v.push(fill);
    v.push(rim);
    v
}

/// Little-endian bytes of a 32-bit word.
pub open spec fn le_bytes(x: u32) -> Seq<u8> {
    seq![
        (x % 256) as u8,
        ((x / 256) % 256) as u8,
        ((x / 65536) % 256) as u8,
        ((x / 16777216) % 256) as u8,
    ]
}

/// Little-endian bytes of a run of words.
pub open spec fn words_bytes(w: Seq<u32>) -> Seq<u8>
    decreases w.len(),
{
    if w.len() == 0 {
        seq![]
    } else {
        words_bytes(w.drop_last()) + le_bytes(w.last())
    }
}

/// The 144 bytes of a light entry.
pub open spec fn light_entry_bytes(l: LightGpuData) -> Seq<u8> {
    words_bytes(l.type_pad@) + words_bytes(l.position@) + words_bytes(l.direction@) + words_bytes(
        l.color@,
    ) + words_bytes(l.params@) + words_bytes(l.world_to_light_transform@)
}

/// An unused light slot.
pub open spec fn zero_bytes(n: nat) -> Seq<u8> {
    Seq::new(n, |i: int| 0u8)
}

/// The first `n` light slots: the lights in order, zeros past the last one.
pub open spec fn light_slots(lights: Seq<LightGpuData>, n: nat) -> Seq<u8>
    decreases n,
{
    if n == 0 {
        seq![]
    } else {
        light_slots(lights, (n - 1) as nat) + (if n - 1 < lights.len() {
            light_entry_bytes(lights[n - 1])
        } else {
            zero_bytes(LIGHT_ENTRY_SIZE as nat)
        })
    }
}

/// Number of lights the buffer holds: all of them, at most `MAX_LIGHTS`.
pub open spec fn light_count(lights: Seq<LightGpuData>) -> u32 {
    if lights.len() < MAX_LIGHTS {
        lights.len() as u32
    } else {
        MAX_LIGHTS as u32
    }
}

/// The light uniform buffer: the light count padded to 16 bytes, then
/// `MAX_LIGHTS` slots.
pub open spec fn light_uniforms_bytes(lights: Seq<LightGpuData>) -> Seq<u8> {
    le_bytes(light_count(lights)) + le_bytes(0) + le_bytes(0) + le_bytes(0) + light_slots(
        lights,
        MAX_LIGHTS as nat,
    )
}

fn push_le_bytes(data: &mut Vec<u8>, x: u32)
    ensures
        final(data)@ == old(data)@ + le_bytes(x),
{
    data.push((x % 256) as u8);
    data.push(((x / 256) % 256) as u8);
    data.push(((x / 65536) % 256) as u8);
    data.push(((x / 16777216) % 256) as u8);
    assert(data@ =~= old(data)@ + le_bytes(x));
}

pub(crate) fn push_words(data: &mut Vec<u8>, words: &[u32])
    ensures
        final(data)@ == old(data)@ + words_bytes(words@),
{
    let ghost base = data@;
    let mut i: usize = 0;
    while i < words.len()
        invariant
            i <= words@.len(),
            data@ == base + words_bytes(words@.subrange(0, i as int)),
        decreases words.len() - i,
    {
        let ghost before = data@;
        push_le_bytes(data, words[i]);
        proof {
            let prefix = words@.subrange(0, i + 1);
            assert(prefix.drop_last() =~= words@.subrange(0, i as int));
            assert(prefix.last() == words@[i as int]);
            lemma_concat_associative(base, words_bytes(words@.subrange(0, i as int)), le_bytes(words@[i as int]));
        }
        i = i + 1;
    }
    assert(words@.subrange(0, words@.len() as int) =~= words@);
}

/// Appends the 144 bytes of one light: the five vectors, then the matrix.
pub fn write_light_entry(data: &mut Vec<u8>, light: &LightGpuData)
    ensures
        final(data)@ == old(data)@ + light_entry_bytes(*light),
{
    let ghost base = data@;
    push_words(data, &light.type_pad);
    push_words(data, &light.position);
    proof {
        lemma_concat_associative(base, words_bytes(light.type_pad@), words_bytes(light.position@));
    }
    push_words(data, &light.direction);
    proof {
        lemma_concat_associative(
            base,
            words_bytes(light.type_pad@) + words_bytes(light.position@),
            words_bytes(light.direction@),
        );
    }
    push_words(data, &light.color);
    proof {
        lemma_concat_associative(
            base,
            words_bytes(light.type_pad@) + words_bytes(light.position@) + words_bytes(light.direction@),
            words_bytes(light.color@),
        );
    }
    push_words(data, &light.params);
    proof {
        lemma_concat_associative(
            base,
            words_bytes(light.type_pad@) + words_bytes(light.position@) + words_bytes(light.direction@)
                + words_bytes(light.color@),
            words_bytes(light.params@),
        );
    }
    push_words(data, &light.world_to_light_transform);
    proof {
        lemma_concat_associative(
            base,
            words_bytes(light.type_pad@) + words_bytes(light.position@) + words_bytes(light.direction@)
                + words_bytes(light.color@) + words_bytes(light.params@),
            words_bytes(light.world_to_light_transform@),
        );
    }
}

/// The light uniform buffer for `lights`: the count (clamped to
/// `MAX_LIGHTS`) padded to 16 bytes, then one slot per possible light,
/// zero-filled past the last light.
pub fn build_light_uniforms(lights: &[LightGpuData]) -> (data: Vec<u8>)
    ensures
        data@ == light_uniforms_bytes(lights@),
{
    let count: u32 = if lights.len() < MAX_LIGHTS {
        lights.len() as u32
    } else {
        MAX_LIGHTS as u32
    };
    let mut data: Vec<u8> = Vec::new();
    push_le_bytes(&mut data, count);
    push_le_bytes(&mut data, 0);
    push_le_bytes(&mut data, 0);
    push_le_bytes(&mut data, 0);
    let ghost header = data@;
    assert(header =~= le_bytes(count) + le_bytes(0) + le_bytes(0) + le_bytes(0));
    let mut i: usize = 0;
    while i < MAX_LIGHTS
        invariant
            i <= MAX_LIGHTS,
            data@ == header + light_slots(lights@, i as nat),
        decreases MAX_LIGHTS - i,
    {
        let ghost before = data@;
        if i < lights.len() {
            write_light_entry(&mut data, &lights[i]);
        } else {
            let mut k: usize = 0;
            while k < LIGHT_ENTRY_SIZE
                invariant
                    k <= LIGHT_ENTRY_SIZE,
                    data@ == before + zero_bytes(k as nat),
                decreases LIGHT_ENTRY_SIZE - k,
            {
                data.push(0);
                k = k + 1;
                assert(data@ =~= before + zero_bytes(k as nat));
            }
        }
        proof {
            let slot = if i < lights@.len() {
                light_entry_bytes(lights@[i as int])
            } else {
                zero_bytes(LIGHT_ENTRY_SIZE as nat)
            };
            assert(data@ == before + slot);
            lemma_concat_associative(header, light_slots(lights@, i as nat), slot);
        }
        i = i + 1;
    }
    data
}

proof fn lemma_words_bytes_len(w: Seq<u32>)
    ensures
        words_bytes(w).len() == 4 * w.len(),
    decreases w.len(),
{
    if w.len() > 0 {
        lemma_words_bytes_len(w.drop_last());
    }
}

proof fn lemma_light_slots_len(lights: Seq<LightGpuData>, n: nat)
    ensures
        light_slots(lights, n).len() == n * LIGHT_ENTRY_SIZE,
    decreases n,
{
    if n > 0 {
        lemma_light_slots_len(lights, (n - 1) as nat);
        if n - 1 < lights.len() {
            let l = lights[n - 1];
            lemma_words_bytes_len(l.type_pad@);
            lemma_words_bytes_len(l.position@);
            lemma_words_bytes_len(l.direction@);
            lemma_words_bytes_len(l.color@);
            lemma_words_bytes_len(l.params@);
            lemma_words_bytes_len(l.world_to_light_transform@);
        }
    }
}

/// The uniform buffer always has `LIGHT_UNIFORMS_SIZE` bytes, whatever the
/// number of lights, and its first word decodes to the light count clamped
/// to `MAX_LIGHTS`.
pub proof fn lemma_light_uniforms_layout(lights: Seq<LightGpuData>)
    ensures
        light_uniforms_bytes(lights).len() == LIGHT_UNIFORMS_SIZE,
        le_decode(light_uniforms_bytes(lights).subrange(0, 4)) == light_count(lights),
        light_count(lights) <= MAX_LIGHTS,
        lights.len() <= MAX_LIGHTS ==> light_count(lights) == lights.len(),
{
    lemma_light_slots_len(lights, MAX_LIGHTS as nat);
    let c = light_count(lights);
    assert(light_uniforms_bytes(lights).subrange(0, 4) =~= le_bytes(c));
    lemma_le_bytes_roundtrip(c);
}

/// Value of four little-endian bytes.
pub open spec fn le_decode(b: Seq<u8>) -> int {
    b[0] + 256 * b[1] + 65536 * b[2] + 16777216 * b[3]
}

/// Decoding the bytes of a word gives the word back.
pub proof fn lemma_le_bytes_roundtrip(x: u32)
    ensures
        le_decode(le_bytes(x)) == x,
{
    assert(x as int == (x % 256) as int + 256 * ((x / 256) % 256) as int + 65536 * ((x / 65536) % 256) as int
        + 16777216 * ((x / 16777216) % 256) as int) by (bit_vector);
}

/// Appends a line to a text being built, tracking in `acc` what was
/// appended since the text was `base`.
fn append_tracked(src: &mut String, line: &str, base: Ghost<Seq<char>>, acc: &mut Ghost<Seq<char>>)
    requires
        old(src)@ == base@ + old(acc)@,
    ensures
        final(acc)@ == old(acc)@ + line@,
        final(src)@ == base@ + final(acc)@,
{
    proof {
        lemma_concat_associative(base@, acc@, line@);
    }
    src.append(line);
    *acc = Ghost(acc@ + line@);
}

/// Emits the light uniform declarations without shadow data.
pub fn emit_light_uniforms_wgsl(src: &mut String, group: u32, binding: u32)
    ensures
        final(src)@ == old(src)@ + light_uniforms_wgsl(group, binding, false),
{
    emit_light_uniforms_wgsl_with_shadows(src, group, binding, false);
}

/// Text appended by `emit_light_uniforms_wgsl_with_shadows`.
pub open spec fn light_uniforms_wgsl(group: u32, binding: u32, use_shadows: bool) -> Seq<char> {
    "// Light uniform data (all vec4 to avoid WGSL vec3 alignment issues)\n"@
        + "struct LightEntry {\n"@
        + "    type_pad: vec4<f32>,\n"@
        + "    position: vec4<f32>,\n"@
        + "    direction: vec4<f32>,\n"@
        + "    color: vec4<f32>,\n"@
        + "    params: vec4<f32>,\n"@
        + "    world_to_light: mat4x4<f32>,\n"@
        + "};\n"@
        + "\n"@
        + text_if(use_shadows, "struct ShadowEntry {\n"@)
        + text_if(use_shadows, "    world_to_shadow: mat4x4<f32>,\n"@)
        + text_if(use_shadows, "    shadow_to_world: mat4x4<f32>,\n"@)
        + text_if(use_shadows, "    params: vec4<f32>,  // blur, bias, pad, pad\n"@)
        + text_if(use_shadows, "};\n"@)
        + text_if(use_shadows, "\n"@)
        + "struct LightUniforms {\n"@
        + "    light_count: vec4<u32>,\n"@
        + "    lights: array<LightEntry, "@
        + decimal(MAX_LIGHTS as nat)
        + ">,\n"@
        + text_if(use_shadows, "    shadows: array<ShadowEntry, "@)
        + text_if(use_shadows, decimal(MAX_SHADOWS as nat))
        + text_if(use_shadows, ">,\n"@)
        + "};\n"@
        + "@group("@
        + decimal(group as nat)
        + ") @binding("@
        + decimal(binding as nat)
        + ")\n"@
        + "var<uniform> light_data: LightUniforms;\n"@
        + "\n"@
}

/// Emits the `LightEntry` and `LightUniforms` declarations bound at
/// `group` / `binding`; with `use_shadows` the `ShadowEntry` struct and the
/// shadow array are included.
pub fn emit_light_uniforms_wgsl_with_shadows(src: &mut String, group: u32, binding: u32, use_shadows: bool)
    ensures
        final(src)@ == old(src)@ + light_uniforms_wgsl(group, binding, use_shadows),
{
    let ghost base = src@;
    let mut acc: Ghost<Seq<char>> = Ghost(Seq::empty());
    src.append("// Light uniform data (all vec4 to avoid WGSL vec3 alignment issues)\n");
    proof {
        acc@ = "// Light uniform data (all vec4 to avoid WGSL vec3 alignment issues)\n"@;
    }
    append_tracked(src, "struct LightEntry {\n", Ghost(base), &mut acc);
    append_tracked(src, "    type_pad: vec4<f32>,\n", Ghost(base), &mut acc);
    append_tracked(src, "    position: vec4<f32>,\n", Ghost(base), &mut acc);
    append_tracked(src, "    direction: vec4<f32>,\n", Ghost(base), &mut acc);
    append_tracked(src, "    color: vec4<f32>,\n", Ghost(base), &mut acc);
    append_tracked(src, "    params: vec4<f32>,\n", Ghost(base), &mut acc);
    append_tracked(src, "    world_to_light: mat4x4<f32>,\n", Ghost(base), &mut acc);
    append_tracked(src, "};\n", Ghost(base), &mut acc);
    append_tracked(src, "\n", Ghost(base), &mut acc);
    if use_shadows {
        src.append("struct ShadowEntry {\n");
        proof {
            lemma_concat_associative(base, acc@, "struct ShadowEntry {\n"@);
            acc@ = acc@ + text_if(use_shadows, "struct ShadowEntry {\n"@);
        }
        src.append("    world_to_shadow: mat4x4<f32>,\n");
        proof {
            lemma_concat_associative(base, acc@, "    world_to_shadow: mat4x4<f32>,\n"@);
            acc@ = acc@ + text_if(use_shadows, "    world_to_shadow: mat4x4<f32>,\n"@);
        }
        src.append("    shadow_to_world: mat4x4<f32>,\n");
        proof {
            lemma_concat_associative(base, acc@, "    shadow_to_world: mat4x4<f32>,\n"@);
            acc@ = acc@ + text_if(use_shadows, "    shadow_to_world: mat4x4<f32>,\n"@);
        }
        src.append("    params: vec4<f32>,  // blur, bias, pad, pad\n");
        proof {
            lemma_concat_associative(base, acc@, "    params: vec4<f32>,  // blur, bias, pad, pad\n"@);
            acc@ = acc@ + text_if(use_shadows, "    params: vec4<f32>,  // blur, bias, pad, pad\n"@);
        }
        src.append("};\n");
        proof {
            lemma_concat_associative(base, acc@, "};\n"@);
            acc@ = acc@ + text_if(use_shadows, "};\n"@);
        }
        src.append("\n");
        proof {
            lemma_concat_associative(base, acc@, "\n"@);
            acc@ = acc@ + text_if(use_shadows, "\n"@);
        }
    } else {
        proof {
            assert(acc@ + text_if(use_shadows, "struct ShadowEntry {\n"@) =~= acc@);
            acc@ = acc@ + text_if(use_shadows, "struct ShadowEntry {\n"@);
            assert(acc@ + text_if(use_shadows, "    world_to_shadow: mat4x4<f32>,\n"@) =~= acc@);
            acc@ = acc@ + text_if(use_shadows, "    world_to_shadow: mat4x4<f32>,\n"@);
            assert(acc@ + text_if(use_shadows, "    shadow_to_world: mat4x4<f32>,\n"@) =~= acc@);
            acc@ = acc@ + text_if(use_shadows, "    shadow_to_world: mat4x4<f32>,\n"@);
            assert(acc@ + text_if(use_shadows, "    params: vec4<f32>,  // blur, bias, pad, pad\n"@) =~= acc@);
            acc@ = acc@ + text_if(use_shadows, "    params: vec4<f32>,  // blur, bias, pad, pad\n"@);
            assert(acc@ + text_if(use_shadows, "};\n"@) =~= acc@);
            acc@ = acc@ + text_if(use_shadows, "};\n"@);
            assert(acc@ + text_if(use_shadows, "\n"@) =~= acc@);
            acc@ = acc@ + text_if(use_shadows, "\n"@);
        }
    }
    append_tracked(src, "struct LightUniforms {\n", Ghost(base), &mut acc);
    append_tracked(src, "    light_count: vec4<u32>,\n", Ghost(base), &mut acc);
    append_tracked(src, "    lights: array<LightEntry, ", Ghost(base), &mut acc);
    push_decimal(src, MAX_LIGHTS as u64);
    proof {
        lemma_concat_associative(base, acc@, decimal(MAX_LIGHTS as nat));
        acc@ = acc@ + decimal(MAX_LIGHTS as nat);
    }
    append_tracked(src, ">,\n", Ghost(base), &mut acc);
    if use_shadows {
        src.append("    shadows: array<ShadowEntry, ");
        proof {
            lemma_concat_associative(base, acc@, "    shadows: array<ShadowEntry, "@);
            acc@ = acc@ + text_if(use_shadows, "    shadows: array<ShadowEntry, "@);
        }
        push_decimal(src, MAX_SHADOWS as u64);
        proof {
            lemma_concat_associative(base, acc@, decimal(MAX_SHADOWS as nat));
            acc@ = acc@ + text_if(use_shadows, decimal(MAX_SHADOWS as nat));
        }
        src.append(">,\n");
        proof {
            lemma_concat_associative(base, acc@, ">,\n"@);
            acc@ = acc@ + text_if(use_shadows, ">,\n"@);
        }
    } else {
        proof {
            assert(acc@ + text_if(use_shadows, "    shadows: array<ShadowEntry, "@) =~= acc@);
            acc@ = acc@ + text_if(use_shadows, "    shadows: array<ShadowEntry, "@);
            assert(acc@ + text_if(use_shadows, decimal(MAX_SHADOWS as nat)) =~= acc@);
            acc@ = acc@ + text_if(use_shadows, decimal(MAX_SHADOWS as nat));
            assert(acc@ + text_if(use_shadows, ">,\n"@) =~= acc@);
            acc@ = acc@ + text_if(use_shadows, ">,\n"@);
        }
    }
    append_tracked(src, "};\n", Ghost(base), &mut acc);
    append_tracked(src, "@group(", Ghost(base), &mut acc);
    push_decimal(src, group as u64);
    proof {
        lemma_concat_associative(base, acc@, decimal(group as nat));
        acc@ = acc@ + decimal(group as nat);
    }
    append_tracked(src, ") @binding(", Ghost(base), &mut acc);
    push_decimal(src, binding as u64);
    proof {
        lemma_concat_associative(base, acc@, decimal(binding as nat));
        acc@ = acc@ + decimal(binding as nat);
    }
    append_tracked(src, ")\n", Ghost(base), &mut acc);
    append_tracked(src, "var<uniform> light_data: LightUniforms;\n", Ghost(base), &mut acc);
    append_tracked(src, "\n", Ghost(base), &mut acc);
    proof {
        assert(acc@ == light_uniforms_wgsl(group, binding, use_shadows));
    }
}

/// Text appended by `emit_light_eval_functions`.
pub open spec fn light_eval_functions_wgsl() -> Seq<char> {
    "// Evaluate a directional light contribution\n"@
        + "fn eval_directional(light: LightEntry, N: vec3<f32>, V: vec3<f32>, base_color: vec3<f32>, roughness: f32, metallic: f32, f0: vec3<f32>, f90: vec3<f32>) -> vec3<f32> {\n"@
        + "    let L = normalize(-light.direction.xyz);\n"@
        + "    let H = normalize(L + V);\n"@
        + "    let n_dot_l = max(dot(N, L), 0.0);\n"@
        + "    let n_dot_h = max(dot(N, H), 0.0);\n"@
        + "    let v_dot_h = max(dot(V, H), 0.0);\n"@
        + "    let radiance = light.color.xyz * light.params.x;\n"@
        + "    let sr = max(roughness, 0.001);\n"@
        + "    var d = base_color / 3.14159265;\n"@
        + "    if (material.use_specular_workflow < 0.5) {\n"@
        + "        d = d * (1.0 - metallic);\n"@
        + "    }\n"@
        + "    let alpha = sr * sr;\n"@
        + "    let n_dot_v = max(dot(N, V), 0.001);\n"@
        + "    let fresnel_w = pow(max(1.0 - v_dot_h, 0.0), 5.0);\n"@
        + "    let F = mix(f0, f90, fresnel_w);\n"@
        + "    let D = ggx_distribution(n_dot_h, alpha);\n"@
        + "    let G = smith_ggx(n_dot_v, n_dot_l, sr);\n"@
        + "    let spec = (D * G * F) / (4.0 * n_dot_v * n_dot_l + 0.001);\n"@
        + "    d = d * (vec3<f32>(1.0) - mix(f0, f90, fresnel_w));\n"@
        + "    return (d + spec) * radiance * n_dot_l;\n"@
        + "}\n"@
        + "\n"@
        + "// Evaluate a point light contribution\n"@
        + "fn eval_point_light(light: LightEntry, world_pos: vec3<f32>, N: vec3<f32>, V: vec3<f32>, base_color: vec3<f32>, roughness: f32, metallic: f32, f0: vec3<f32>, f90: vec3<f32>) -> vec3<f32> {\n"@
        + "    let to_light = light.position.xyz - world_pos;\n"@
        + "    let dist = length(to_light);\n"@
        + "    let L = to_light / max(dist, 0.001);\n"@
        + "    let H = normalize(L + V);\n"@
        + "    let n_dot_l = max(dot(N, L), 0.0);\n"@
        + "    let n_dot_h = max(dot(N, H), 0.0);\n"@
        + "    let v_dot_h = max(dot(V, H), 0.0);\n"@
        + "    // Inverse-square attenuation with optional radius cutoff\n"@
        + "    var atten = 1.0 / max(dist * dist, 0.0001);\n"@
        + "    if (light.params.y > 0.0) {\n"@
        + "        atten *= max(1.0 - dist / light.params.y, 0.0);\n"@
        + "    }\n"@
        + "    let radiance = light.color.xyz * light.params.x * atten;\n"@
        + "    let sr = max(roughness, 0.001);\n"@
        + "    var d = base_color / 3.14159265;\n"@
        + "    if (material.use_specular_workflow < 0.5) {\n"@
        + "        d = d * (1.0 - metallic);\n"@
        + "    }\n"@
        + "    let alpha = sr * sr;\n"@
        + "    let n_dot_v = max(dot(N, V), 0.001);\n"@
        + "    let fresnel_w = pow(max(1.0 - v_dot_h, 0.0), 5.0);\n"@
        + "    let F = mix(f0, f90, fresnel_w);\n"@
        + "    let D = ggx_distribution(n_dot_h, alpha);\n"@
        + "    let G = smith_ggx(n_dot_v, n_dot_l, sr);\n"@
        + "    let spec = (D * G * F) / (4.0 * n_dot_v * n_dot_l + 0.001);\n"@
        + "    d = d * (vec3<f32>(1.0) - mix(f0, f90, fresnel_w));\n"@
        + "    return (d + spec) * radiance * n_dot_l;\n"@
        + "}\n"@
        + "\n"@
        + "// Evaluate a spot light contribution\n"@
        + "fn eval_spot_light(light: LightEntry, world_pos: vec3<f32>, N: vec3<f32>, V: vec3<f32>, base_color: vec3<f32>, roughness: f32, metallic: f32, f0: vec3<f32>, f90: vec3<f32>) -> vec3<f32> {\n"@
        + "    let to_light = light.position.xyz - world_pos;\n"@
        + "    let dist = length(to_light);\n"@
        + "    let L = to_light / max(dist, 0.001);\n"@
        + "    // Spot cone: hard cutoff at outer_angle, pow(cosDir, falloff) decay.\n"@
        + "    // params.z = falloff exponent, params.w = outer cone angle (radians).\n"@
        + "    let cos_dir = dot(-L, normalize(light.direction.xyz));\n"@
        + "    let cos_cutoff = cos(light.params.w);\n"@
        + "    var spot_factor = 0.0;\n"@
        + "    if (cos_dir >= cos_cutoff) {\n"@
        + "        spot_factor = pow(max(cos_dir, 0.0), max(light.params.z, 0.001));\n"@
        + "    }\n"@
        + "    let H = normalize(L + V);\n"@
        + "    let n_dot_l = max(dot(N, L), 0.0);\n"@
        + "    let n_dot_h = max(dot(N, H), 0.0);\n"@
        + "    let v_dot_h = max(dot(V, H), 0.0);\n"@
        + "    var atten = spot_factor / max(dist * dist, 0.0001);\n"@
        + "    if (light.params.y > 0.0) {\n"@
        + "        atten *= max(1.0 - dist / light.params.y, 0.0);\n"@
        + "    }\n"@
        + "    let radiance = light.color.xyz * light.params.x * atten;\n"@
        + "    let sr = max(roughness, 0.001);\n"@
        + "    var d = base_color / 3.14159265;\n"@
        + "    if (material.use_specular_workflow < 0.5) {\n"@
        + "        d = d * (1.0 - metallic);\n"@
        + "    }\n"@
        + "    let alpha = sr * sr;\n"@
        + "    let n_dot_v = max(dot(N, V), 0.001);\n"@
        + "    let fresnel_w = pow(max(1.0 - v_dot_h, 0.0), 5.0);\n"@
        + "    let F = mix(f0, f90, fresnel_w);\n"@
        + "    let D = ggx_distribution(n_dot_h, alpha);\n"@
        + "    let G = smith_ggx(n_dot_v, n_dot_l, sr);\n"@
        + "    let spec = (D * G * F) / (4.0 * n_dot_v * n_dot_l + 0.001);\n"@
        + "    d = d * (vec3<f32>(1.0) - mix(f0, f90, fresnel_w));\n"@
        + "    return (d + spec) * radiance * n_dot_l;\n"@
        + "}\n"@
        + "\n"@
        + "// Dome light IBL approximation (hemisphere ambient)\n"@
        + "fn eval_dome_light(light: LightEntry, N: vec3<f32>, base_color: vec3<f32>, roughness: f32, metallic: f32) -> vec3<f32> {\n"@
        + "    // Simple hemisphere ambient with normal-dependent blend\n"@
        + "    let up_factor = dot(N, vec3<f32>(0.0, 1.0, 0.0)) * 0.5 + 0.5;\n"@
        + "    let sky_color = light.color.xyz * light.params.x;\n"@
        + "    let ground_color = sky_color * 0.3;\n"@
        + "    let ambient = mix(ground_color, sky_color, up_factor);\n"@
        + "    let k_d = (1.0 - metallic);\n"@
        + "    return ambient * base_color * k_d * 0.3;\n"@
        + "}\n"@
        + "\n"@
}

/// Emits the directional, point, spot and dome light evaluation functions.
pub fn emit_light_eval_functions(src: &mut String)
    ensures
        final(src)@ == old(src)@ + light_eval_functions_wgsl(),
{
    let ghost base = src@;
    let mut acc: Ghost<Seq<char>> = Ghost(Seq::empty());
    src.append("// Evaluate a directional light contribution\n");
    proof {
        acc@ = "// Evaluate a directional light contribution\n"@;
    }
    append_tracked(src, "fn eval_directional(light: LightEntry, N: vec3<f32>, V: vec3<f32>, base_color: vec3<f32>, roughness: f32, metallic: f32, f0: vec3<f32>, f90: vec3<f32>) -> vec3<f32> {\n", Ghost(base), &mut acc);
    append_tracked(src, "    let L = normalize(-light.direction.xyz);\n", Ghost(base), &mut acc);
    append_tracked(src, "    let H = normalize(L + V);\n", Ghost(base), &mut acc);
    append_tracked(src, "    let n_dot_l = max(dot(N, L), 0.0);\n", Ghost(base), &mut acc);
    append_tracked(src, "    let n_dot_h = max(dot(N, H), 0.0);\n", Ghost(base), &mut acc);
    append_tracked(src, "    let v_dot_h = max(dot(V, H), 0.0);\n", Ghost(base), &mut acc);
    append_tracked(src, "    let radiance = light.color.xyz * light.params.x;\n", Ghost(base), &mut acc);
    append_tracked(src, "    let sr = max(roughness, 0.001);\n", Ghost(base), &mut acc);
    append_tracked(src, "    var d = base_color / 3.14159265;\n", Ghost(base), &mut acc);
    append_tracked(src, "    if (material.use_specular_workflow < 0.5) {\n", Ghost(base), &mut acc);
    append_tracked(src, "        d = d * (1.0 - metallic);\n", Ghost(base), &mut acc);
    append_tracked(src, "    }\n", Ghost(base), &mut acc);
    append_tracked(src, "    let alpha = sr * sr;\n", Ghost(base), &mut acc);
    append_tracked(src, "    let n_dot_v = max(dot(N, V), 0.001);\n", Ghost(base), &mut acc);
    append_tracked(src, "    let fresnel_w = pow(max(1.0 - v_dot_h, 0.0), 5.0);\n", Ghost(base), &mut acc);
    append_tracked(src, "    let F = mix(f0, f90, fresnel_w);\n", Ghost(base), &mut acc);
    append_tracked(src, "    let D = ggx_distribution(n_dot_h, alpha);\n", Ghost(base), &mut acc);
    append_tracked(src, "    let G = smith_ggx(n_dot_v, n_dot_l, sr);\n", Ghost(base), &mut acc);
    append_tracked(src, "    let spec = (D * G * F) / (4.0 * n_dot_v * n_dot_l + 0.001);\n", Ghost(base), &mut acc);
    append_tracked(src, "    d = d * (vec3<f32>(1.0) - mix(f0, f90, fresnel_w));\n", Ghost(base), &mut acc);
    append_tracked(src, "    return (d + spec) * radiance * n_dot_l;\n", Ghost(base), &mut acc);
    append_tracked(src, "}\n", Ghost(base), &mut acc);
    append_tracked(src, "\n", Ghost(base), &mut acc);
    append_tracked(src, "// Evaluate a point light contribution\n", Ghost(base), &mut acc);
    append_tracked(src, "fn eval_point_light(light: LightEntry, world_pos: vec3<f32>, N: vec3<f32>, V: vec3<f32>, base_color: vec3<f32>, roughness: f32, metallic: f32, f0: vec3<f32>, f90: vec3<f32>) -> vec3<f32> {\n", Ghost(base), &mut acc);
    append_tracked(src, "    let to_light = light.position.xyz - world_pos;\n", Ghost(base), &mut acc);
    append_tracked(src, "    let dist = length(to_light);\n", Ghost(base), &mut acc);
    append_tracked(src, "    let L = to_light / max(dist, 0.001);\n", Ghost(base), &mut acc);
    append_tracked(src, "    let H = normalize(L + V);\n", Ghost(base), &mut acc);
    append_tracked(src, "    let n_dot_l = max(dot(N, L), 0.0);\n", Ghost(base), &mut acc);
    append_tracked(src, "    let n_dot_h = max(dot(N, H), 0.0);\n", Ghost(base), &mut acc);
    append_tracked(src, "    let v_dot_h = max(dot(V, H), 0.0);\n", Ghost(base), &mut acc);
    append_tracked(src, "    // Inverse-square attenuation with optional radius cutoff\n", Ghost(base), &mut acc);
    append_tracked(src, "    var atten = 1.0 / max(dist * dist, 0.0001);\n", Ghost(base), &mut acc);
    append_tracked(src, "    if (light.params.y > 0.0) {\n", Ghost(base), &mut acc);
    append_tracked(src, "        atten *= max(1.0 - dist / light.params.y, 0.0);\n", Ghost(base), &mut acc);
    append_tracked(src, "    }\n", Ghost(base), &mut acc);
    append_tracked(src, "    let radiance = light.color.xyz * light.params.x * atten;\n", Ghost(base), &mut acc);
    append_tracked(src, "    let sr = max(roughness, 0.001);\n", Ghost(base), &mut acc);
    append_tracked(src, "    var d = base_color / 3.14159265;\n", Ghost(base), &mut acc);
    append_tracked(src, "    if (material.use_specular_workflow < 0.5) {\n", Ghost(base), &mut acc);
    append_tracked(src, "        d = d * (1.0 - metallic);\n", Ghost(base), &mut acc);
    append_tracked(src, "    }\n", Ghost(base), &mut acc);
    append_tracked(src, "    let alpha = sr * sr;\n", Ghost(base), &mut acc);
    append_tracked(src, "    let n_dot_v = max(dot(N, V), 0.001);\n", Ghost(base), &mut acc);
    append_tracked(src, "    let fresnel_w = pow(max(1.0 - v_dot_h, 0.0), 5.0);\n", Ghost(base), &mut acc);
    append_tracked(src, "    let F = mix(f0, f90, fresnel_w);\n", Ghost(base), &mut acc);
    append_tracked(src, "    let D = ggx_distribution(n_dot_h, alpha);\n", Ghost(base), &mut acc);
    append_tracked(src, "    let G = smith_ggx(n_dot_v, n_dot_l, sr);\n", Ghost(base), &mut acc);
    append_tracked(src, "    let spec = (D * G * F) / (4.0 * n_dot_v * n_dot_l + 0.001);\n", Ghost(base), &mut acc);
    append_tracked(src, "    d = d * (vec3<f32>(1.0) - mix(f0, f90, fresnel_w));\n", Ghost(base), &mut acc);
    append_tracked(src, "    return (d + spec) * radiance * n_dot_l;\n", Ghost(base), &mut acc);
    append_tracked(src, "}\n", Ghost(base), &mut acc);
    append_tracked(src, "\n", Ghost(base), &mut acc);
    append_tracked(src, "// Evaluate a spot light contribution\n", Ghost(base), &mut acc);
    append_tracked(src, "fn eval_spot_light(light: LightEntry, world_pos: vec3<f32>, N: vec3<f32>, V: vec3<f32>, base_color: vec3<f32>, roughness: f32, metallic: f32, f0: vec3<f32>, f90: vec3<f32>) -> vec3<f32> {\n", Ghost(base), &mut acc);
    append_tracked(src, "    let to_light = light.position.xyz - world_pos;\n", Ghost(base), &mut acc);
    append_tracked(src, "    let dist = length(to_light);\n", Ghost(base), &mut acc);
    append_tracked(src, "    let L = to_light / max(dist, 0.001);\n", Ghost(base), &mut acc);
    append_tracked(src, "    // Spot cone: hard cutoff at outer_angle, pow(cosDir, falloff) decay.\n", Ghost(base), &mut acc);
    append_tracked(src, "    // params.z = falloff exponent, params.w = outer cone angle (radians).\n", Ghost(base), &mut acc);
    append_tracked(src, "    let cos_dir = dot(-L, normalize(light.direction.xyz));\n", Ghost(base), &mut acc);
    append_tracked(src, "    let cos_cutoff = cos(light.params.w);\n", Ghost(base), &mut acc);
    append_tracked(src, "    var spot_factor = 0.0;\n", Ghost(base), &mut acc);
    append_tracked(src, "    if (cos_dir >= cos_cutoff) {\n", Ghost(base), &mut acc);
    append_tracked(src, "        spot_factor = pow(max(cos_dir, 0.0), max(light.params.z, 0.001));\n", Ghost(base), &mut acc);
    append_tracked(src, "    }\n", Ghost(base), &mut acc);
    append_tracked(src, "    let H = normalize(L + V);\n", Ghost(base), &mut acc);
    append_tracked(src, "    let n_dot_l = max(dot(N, L), 0.0);\n", Ghost(base), &mut acc);
    append_tracked(src, "    let n_dot_h = max(dot(N, H), 0.0);\n", Ghost(base), &mut acc);
    append_tracked(src, "    let v_dot_h = max(dot(V, H), 0.0);\n", Ghost(base), &mut acc);
    append_tracked(src, "    var atten = spot_factor / max(dist * dist, 0.0001);\n", Ghost(base), &mut acc);
    append_tracked(src, "    if (light.params.y > 0.0) {\n", Ghost(base), &mut acc);
    append_tracked(src, "        atten *= max(1.0 - dist / light.params.y, 0.0);\n", Ghost(base), &mut acc);
    append_tracked(src, "    }\n", Ghost(base), &mut acc);
    append_tracked(src, "    let radiance = light.color.xyz * light.params.x * atten;\n", Ghost(base), &mut acc);
    append_tracked(src, "    let sr = max(roughness, 0.001);\n", Ghost(base), &mut acc);
    append_tracked(src, "    var d = base_color / 3.14159265;\n", Ghost(base), &mut acc);
    append_tracked(src, "    if (material.use_specular_workflow < 0.5) {\n", Ghost(base), &mut acc);
    append_tracked(src, "        d = d * (1.0 - metallic);\n", Ghost(base), &mut acc);
    append_tracked(src, "    }\n", Ghost(base), &mut acc);
    append_tracked(src, "    let alpha = sr * sr;\n", Ghost(base), &mut acc);
    append_tracked(src, "    let n_dot_v = max(dot(N, V), 0.001);\n", Ghost(base), &mut acc);
    append_tracked(src, "    let fresnel_w = pow(max(1.0 - v_dot_h, 0.0), 5.0);\n", Ghost(base), &mut acc);
    append_tracked(src, "    let F = mix(f0, f90, fresnel_w);\n", Ghost(base), &mut acc);
    append_tracked(src, "    let D = ggx_distribution(n_dot_h, alpha);\n", Ghost(base), &mut acc);
    append_tracked(src, "    let G = smith_ggx(n_dot_v, n_dot_l, sr);\n", Ghost(base), &mut acc);
    append_tracked(src, "    let spec = (D * G * F) / (4.0 * n_dot_v * n_dot_l + 0.001);\n", Ghost(base), &mut acc);
    append_tracked(src, "    d = d * (vec3<f32>(1.0) - mix(f0, f90, fresnel_w));\n", Ghost(base), &mut acc);
    append_tracked(src, "    return (d + spec) * radiance * n_dot_l;\n", Ghost(base), &mut acc);
    append_tracked(src, "}\n", Ghost(base), &mut acc);
    append_tracked(src, "\n", Ghost(base), &mut acc);
    append_tracked(src, "// Dome light IBL approximation (hemisphere ambient)\n", Ghost(base), &mut acc);
    append_tracked(src, "fn eval_dome_light(light: LightEntry, N: vec3<f32>, base_color: vec3<f32>, roughness: f32, metallic: f32) -> vec3<f32> {\n", Ghost(base), &mut acc);
    append_tracked(src, "    // Simple hemisphere ambient with normal-dependent blend\n", Ghost(base), &mut acc);
    append_tracked(src, "    let up_factor = dot(N, vec3<f32>(0.0, 1.0, 0.0)) * 0.5 + 0.5;\n", Ghost(base), &mut acc);
    append_tracked(src, "    let sky_color = light.color.xyz * light.params.x;\n", Ghost(base), &mut acc);
    append_tracked(src, "    let ground_color = sky_color * 0.3;\n", Ghost(base), &mut acc);
    append_tracked(src, "    let ambient = mix(ground_color, sky_color, up_factor);\n", Ghost(base), &mut acc);
    append_tracked(src, "    let k_d = (1.0 - metallic);\n", Ghost(base), &mut acc);
    append_tracked(src, "    return ambient * base_color * k_d * 0.3;\n", Ghost(base), &mut acc);
    append_tracked(src, "}\n", Ghost(base), &mut acc);
    append_tracked(src, "\n", Ghost(base), &mut acc);
    proof {
        assert(acc@ == light_eval_functions_wgsl());
    }
}

/// Text appended by `emit_light_loop`.
pub open spec fn light_loop_wgsl() -> Seq<char> {
    "    // Multi-light evaluation loop\n"@
        + "    var lo = vec3<f32>(0.0);\n"@
        + "    for (var li = 0u; li < light_data.light_count.x; li++) {\n"@
        + "        let light = light_data.lights[li];\n"@
        + "        if (light.type_pad.x == 0.0) {\n"@
        + "            lo += eval_directional(light, N, V, base_color, roughness, metallic, f0, f90);\n"@
        + "        } else if (light.type_pad.x == 1.0) {\n"@
        + "            lo += eval_point_light(light, in.world_pos, N, V, base_color, roughness, metallic, f0, f90);\n"@
        + "        } else if (light.type_pad.x == 2.0) {\n"@
        + "            lo += eval_spot_light(light, in.world_pos, N, V, base_color, roughness, metallic, f0, f90);\n"@
        + "        } else if (light.type_pad.x == 3.0) {\n"@
        + "            lo += eval_dome_light(light, N, base_color, roughness, metallic);\n"@
        + "        }\n"@
        + "    }\n"@
}

/// Emits the fragment-shader loop accumulating every light into `lo`.
pub fn emit_light_loop(src: &mut String)
    ensures
        final(src)@ == old(src)@ + light_loop_wgsl(),
{
    let ghost base = src@;
    let mut acc: Ghost<Seq<char>> = Ghost(Seq::empty());
    src.append("    // Multi-light evaluation loop\n");
    proof {
        acc@ = "    // Multi-light evaluation loop\n"@;
    }
    append_tracked(src, "    var lo = vec3<f32>(0.0);\n", Ghost(base), &mut acc);
    append_tracked(src, "    for (var li = 0u; li < light_data.light_count.x; li++) {\n", Ghost(base), &mut acc);
    append_tracked(src, "        let light = light_data.lights[li];\n", Ghost(base), &mut acc);
    append_tracked(src, "        if (light.type_pad.x == 0.0) {\n", Ghost(base), &mut acc);
    append_tracked(src, "            lo += eval_directional(light, N, V, base_color, roughness, metallic, f0, f90);\n", Ghost(base), &mut acc);
    append_tracked(src, "        } else if (light.type_pad.x == 1.0) {\n", Ghost(base), &mut acc);
    append_tracked(src, "            lo += eval_point_light(light, in.world_pos, N, V, base_color, roughness, metallic, f0, f90);\n", Ghost(base), &mut acc);
    append_tracked(src, "        } else if (light.type_pad.x == 2.0) {\n", Ghost(base), &mut acc);
    append_tracked(src, "            lo += eval_spot_light(light, in.world_pos, N, V, base_color, roughness, metallic, f0, f90);\n", Ghost(base), &mut acc);
    append_tracked(src, "        } else if (light.type_pad.x == 3.0) {\n", Ghost(base), &mut acc);
    append_tracked(src, "            lo += eval_dome_light(light, N, base_color, roughness, metallic);\n", Ghost(base), &mut acc);
    append_tracked(src, "        }\n", Ghost(base), &mut acc);
    append_tracked(src, "    }\n", Ghost(base), &mut acc);
    proof {
        assert(acc@ == light_loop_wgsl());
    }
}

/// Text appended by `emit_shadow_pcf_function`.
pub open spec fn shadow_pcf_wgsl() -> Seq<char> {
    "// shadowing: cascade iteration per light\n"@
        + "fn shadowing(light_idx: u32, world_pos: vec3<f32>) -> f32 {\n"@
        + "    let light = light_data.lights[light_idx];\n"@
        + "    let shadow_start = i32(light.type_pad.z);\n"@
        + "    let shadow_end = i32(light.type_pad.w);\n"@
        + "    for (var si = shadow_start; si <= shadow_end; si++) {\n"@
        + "        let coord = light_data.shadows[si].world_to_shadow * vec4<f32>(world_pos, 1.0);\n"@
        + "        if (coord.x < 0.0 || coord.y < 0.0 || coord.z < 0.0 ||\n"@
        + "            coord.x > coord.w || coord.y > coord.w || coord.z > coord.w) {\n"@
        + "            continue;\n"@
        + "        }\n"@
        + "        let c = coord.xyz / coord.w;\n"@
        + "        let biased_z = min(1.0, c.z + light_data.shadows[si].params.y);\n"@
        + "        return textureSampleCompare(shadow_atlas, shadow_sampler, c.xy, si, biased_z);\n"@
        + "    }\n"@
        + "    return 1.0;\n"@
        + "}\n"@
        + "\n"@
}

/// Emits `shadowing`, which walks a light's shadow cascades and returns the
/// hardware depth comparison of the first one covering the point.
pub fn emit_shadow_pcf_function(src: &mut String)
    ensures
        final(src)@ == old(src)@ + shadow_pcf_wgsl(),
{
    let ghost base = src@;
    let mut acc: Ghost<Seq<char>> = Ghost(Seq::empty());
    src.append("// shadowing: cascade iteration per light\n");
    proof {
        acc@ = "// shadowing: cascade iteration per light\n"@;
    }
    append_tracked(src, "fn shadowing(light_idx: u32, world_pos: vec3<f32>) -> f32 {\n", Ghost(base), &mut acc);
    append_tracked(src, "    let light = light_data.lights[light_idx];\n", Ghost(base), &mut acc);
    append_tracked(src, "    let shadow_start = i32(light.type_pad.z);\n", Ghost(base), &mut acc);
    append_tracked(src, "    let shadow_end = i32(light.type_pad.w);\n", Ghost(base), &mut acc);
    append_tracked(src, "    for (var si = shadow_start; si <= shadow_end; si++) {\n", Ghost(base), &mut acc);
    append_tracked(src, "        let coord = light_data.shadows[si].world_to_shadow * vec4<f32>(world_pos, 1.0);\n", Ghost(base), &mut acc);
    append_tracked(src, "        if (coord.x < 0.0 || coord.y < 0.0 || coord.z < 0.0 ||\n", Ghost(base), &mut acc);
    append_tracked(src, "            coord.x > coord.w || coord.y > coord.w || coord.z > coord.w) {\n", Ghost(base), &mut acc);
    append_tracked(src, "            continue;\n", Ghost(base), &mut acc);
    append_tracked(src, "        }\n", Ghost(base), &mut acc);
    append_tracked(src, "        let c = coord.xyz / coord.w;\n", Ghost(base), &mut acc);
    append_tracked(src, "        let biased_z = min(1.0, c.z + light_data.shadows[si].params.y);\n", Ghost(base), &mut acc);
    append_tracked(src, "        return textureSampleCompare(shadow_atlas, shadow_sampler, c.xy, si, biased_z);\n", Ghost(base), &mut acc);
    append_tracked(src, "    }\n", Ghost(base), &mut acc);
    append_tracked(src, "    return 1.0;\n", Ghost(base), &mut acc);
    append_tracked(src, "}\n", Ghost(base), &mut acc);
    append_tracked(src, "\n", Ghost(base), &mut acc);
    proof {
        assert(acc@ == shadow_pcf_wgsl());
    }
}

/// Text appended by `emit_light_loop_with_shadows`.
pub open spec fn light_loop_with_shadows_wgsl() -> Seq<char> {
    "    // Multi-light evaluation loop (shadow-aware)\n"@
        + "    var lo = vec3<f32>(0.0);\n"@
        + "    for (var li = 0u; li < light_data.light_count.x; li++) {\n"@
        + "        let light = light_data.lights[li];\n"@
        + "        var contrib = vec3<f32>(0.0);\n"@
        + "        if (light.type_pad.x == 0.0) {\n"@
        + "            contrib = eval_directional(light, N, V, base_color, roughness, metallic, f0, f90);\n"@
        + "        } else if (light.type_pad.x == 1.0) {\n"@
        + "            contrib = eval_point_light(light, in.world_pos, N, V, base_color, roughness, metallic, f0, f90);\n"@
        + "        } else if (light.type_pad.x == 2.0) {\n"@
        + "            contrib = eval_spot_light(light, in.world_pos, N, V, base_color, roughness, metallic, f0, f90);\n"@
        + "        } else if (light.type_pad.x == 3.0) {\n"@
        + "            // Dome lights are not shadow-mapped (indirect light path).\n"@
        + "            lo += eval_dome_light(light, N, base_color, roughness, metallic);\n"@
        + "            continue;\n"@
        + "        }\n"@
        + "        var shadow = 1.0;\n"@
        + "        if (light.type_pad.y > 0.5) {\n"@
        + "            shadow = shadowing(li, in.world_pos);\n"@
        + "        }\n"@
        + "        lo += contrib * shadow;\n"@
        + "    }\n"@
}

/// Emits the light loop that scales each non-dome contribution by its
/// shadowing factor.
pub fn emit_light_loop_with_shadows(src: &mut String)
    ensures
        final(src)@ == old(src)@ + light_loop_with_shadows_wgsl(),
{
    let ghost base = src@;
    let mut acc: Ghost<Seq<char>> = Ghost(Seq::empty());
    src.append("    // Multi-light evaluation loop (shadow-aware)\n");
    proof {
        acc@ = "    // Multi-light evaluation loop (shadow-aware)\n"@;
    }
    append_tracked(src, "    var lo = vec3<f32>(0.0);\n", Ghost(base), &mut acc);
    append_tracked(src, "    for (var li = 0u; li < light_data.light_count.x; li++) {\n", Ghost(base), &mut acc);
    append_tracked(src, "        let light = light_data.lights[li];\n", Ghost(base), &mut acc);
    append_tracked(src, "        var contrib = vec3<f32>(0.0);\n", Ghost(base), &mut acc);
    append_tracked(src, "        if (light.type_pad.x == 0.0) {\n", Ghost(base), &mut acc);
    append_tracked(src, "            contrib = eval_directional(light, N, V, base_color, roughness, metallic, f0, f90);\n", Ghost(base), &mut acc);
    append_tracked(src, "        } else if (light.type_pad.x == 1.0) {\n", Ghost(base), &mut acc);
    append_tracked(src, "            contrib = eval_point_light(light, in.world_pos, N, V, base_color, roughness, metallic, f0, f90);\n", Ghost(base), &mut acc);
    append_tracked(src, "        } else if (light.type_pad.x == 2.0) {\n", Ghost(base), &mut acc);
    append_tracked(src, "            contrib = eval_spot_light(light, in.world_pos, N, V, base_color, roughness, metallic, f0, f90);\n", Ghost(base), &mut acc);
    append_tracked(src, "        } else if (light.type_pad.x == 3.0) {\n", Ghost(base), &mut acc);
    append_tracked(src, "            // Dome lights are not shadow-mapped (indirect light path).\n", Ghost(base), &mut acc);
    append_tracked(src, "            lo += eval_dome_light(light, N, base_color, roughness, metallic);\n", Ghost(base), &mut acc);
    append_tracked(src, "            continue;\n", Ghost(base), &mut acc);
    append_tracked(src, "        }\n", Ghost(base), &mut acc);
    append_tracked(src, "        var shadow = 1.0;\n", Ghost(base), &mut acc);
    append_tracked(src, "        if (light.type_pad.y > 0.5) {\n", Ghost(base), &mut acc);
    append_tracked(src, "            shadow = shadowing(li, in.world_pos);\n", Ghost(base), &mut acc);
    append_tracked(src, "        }\n", Ghost(base), &mut acc);
    append_tracked(src, "        lo += contrib * shadow;\n", Ghost(base), &mut acc);
    append_tracked(src, "    }\n", Ghost(base), &mut acc);
    proof {
        assert(acc@ == light_loop_with_shadows_wgsl());
    }
}

/// Text appended by `emit_shadow_atlas_wgsl`.
pub open spec fn shadow_atlas_wgsl(group: u32) -> Seq<char> {
    "// Shadow atlas depth texture (2D array, one layer per shadow light)\n"@
        + "@group("@
        + decimal(group as nat)
        + ") @binding(0)\n"@
        + "var shadow_atlas: texture_depth_2d_array;\n"@
        + "@group("@
        + decimal(group as nat)
        + ") @binding(1)\n"@
        + "var shadow_sampler: sampler_comparison;\n"@
        + "\n"@
}

/// Emits the shadow atlas texture (binding 0) and comparison sampler
/// (binding 1) of `group`.
pub fn emit_shadow_atlas_wgsl(src: &mut String, group: u32)
    ensures
        final(src)@ == old(src)@ + shadow_atlas_wgsl(group),
{
    let ghost base = src@;
    let mut acc: Ghost<Seq<char>> = Ghost(Seq::empty());
    src.append("// Shadow atlas depth texture (2D array, one layer per shadow light)\n");
    proof {
        acc@ = "// Shadow atlas depth texture (2D array, one layer per shadow light)\n"@;
    }
    append_tracked(src, "@group(", Ghost(base), &mut acc);
    push_decimal(src, group as u64);
    proof {
        lemma_concat_associative(base, acc@, decimal(group as nat));
        acc@ = acc@ + decimal(group as nat);
    }
    append_tracked(src, ") @binding(0)\n", Ghost(base), &mut acc);
    append_tracked(src, "var shadow_atlas: texture_depth_2d_array;\n", Ghost(base), &mut acc);
    append_tracked(src, "@group(", Ghost(base), &mut acc);
    push_decimal(src, group as u64);
    proof {
        lemma_concat_associative(base, acc@, decimal(group as nat));
        acc@ = acc@ + decimal(group as nat);
    }
    append_tracked(src, ") @binding(1)\n", Ghost(base), &mut acc);
    append_tracked(src, "var shadow_sampler: sampler_comparison;\n", Ghost(base), &mut acc);
    append_tracked(src, "\n", Ghost(base), &mut acc);
    proof {
        assert(acc@ == shadow_atlas_wgsl(group));
    }
}

} // verus!
