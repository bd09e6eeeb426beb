//! Storm materials: which shader nodes are texture nodes, whether a texture
//! is a Ptex, UDIM or plain UV texture, the sampler and file of a texture
//! node, the hash of a material's textures, and the material's own state
//! (tag, parameters, sources, compile and dirty state, feature flags).

use vstd::prelude::*;
use std::collections::hash_map::DefaultHasher;
use std::hash::Hasher;
use vstd::std_specs::hash::DefaultHasherAdditionalSpecFns;
use vstd::string::StringExecFns;
use crate::hash_input::{str_chunks, write_str, write_u8};
use crate::material_network::{f32_bits_below_one, find_node, find_node_exec, MaterialNode};
use crate::material_network_shader::{plain_shader_param, MaterialNetworkShader, ShaderParam};
use crate::material_param::copy_fallback;
use vstd::string::StrSliceExecFns;
use crate::material_param::FallbackValue;
use crate::named_entries::{lookup, lookup_entry, set_entry};
use crate::text::{
    chars_contain,
    chars_end_with,
    seq_ascii_lower,
    seq_contains,
    seq_ends_with,
    str_ascii_lower_chars,
    str_chars,
    str_contains,
    str_eq,
};

verus! {

/// Texture kind.
#[derive(Debug, Clone, Copy, PartialEq, Eq, Hash, Structural)]
pub enum TextureType {
    Uv,
    Ptex,
    Field,
    Udim,
}

impl Default for TextureType {
    fn default() -> (t: Self)
        ensures
            t is Uv,
    {
        TextureType::Uv
    }
}

/// Sampler parameters of a texture (wrap modes and filters by name).
#[derive(Debug, Clone)]
pub struct SamplerParams {
    pub wrap_s: String,
    pub wrap_t: String,
    pub wrap_r: String,
    pub min_filter: String,
    pub mag_filter: String,
}

impl Default for SamplerParams {
    /// Wrap modes from the texture's metadata, linear filtering.
    fn default() -> (p: Self)
        ensures
            p.wrap_s@ == "useMetadata"@,
            p.wrap_t@ == "useMetadata"@,
            p.wrap_r@ == "useMetadata"@,
            p.min_filter@ == "linear"@,
            p.mag_filter@ == "linear"@,
    {
        SamplerParams {
            wrap_s: String::from_str("useMetadata"),
            wrap_t: String::from_str("useMetadata"),
            wrap_r: String::from_str("useMetadata"),
            min_filter: String::from_str("linear"),
            mag_filter: String::from_str("linear"),
        }
    }
}

/// A texture feeding a material input.
#[derive(Debug, Clone)]
pub struct TextureDescriptor {
    /// Input name on the surface shader.
    pub name: String,
    /// Asset path of the texture file.
    pub file_path: String,
    /// Texture kind.
    pub texture_type: TextureType,
    /// Sampler parameters.
    pub sampler_params: SamplerParams,
}

/// Node identifiers of texture nodes.
pub open spec fn spec_is_texture_node_type(id: Seq<char>) -> bool {
    id == "UsdUVTexture"@ || id == "UsdPtexTexture"@ || id == "ND_image_color3"@ || id
        == "ND_image_color4"@ || id == "ND_image_float"@ || id == "ND_image_vector3"@
}

/// Whether a node identifier names a texture node.
pub fn is_texture_node_type(id: &str) -> (b: bool)
    ensures
        b == spec_is_texture_node_type(id@),
{
    str_eq(id, "UsdUVTexture") || str_eq(id, "UsdPtexTexture") || str_eq(id, "ND_image_color3")
        || str_eq(id, "ND_image_color4") || str_eq(id, "ND_image_float") || str_eq(
        id,
        "ND_image_vector3",
    )
}

/// A path names a Ptex texture: case-insensitively it ends with `.ptx` or
/// `.ptex`, or contains `/ptex/`, `\ptex\`, `ptex:`, `ptex_` or `_ptex`.
pub open spec fn spec_is_ptex_path(path: Seq<char>) -> bool {
    let l = seq_ascii_lower(path);
    seq_ends_with(l, ".ptx"@) || seq_ends_with(l, ".ptex"@) || seq_contains(l, "/ptex/"@)
        || seq_contains(l, "\\ptex\\"@) || seq_contains(l, "ptex:"@) || seq_contains(l, "ptex_"@)
        || seq_contains(l, "_ptex"@)
}

/// Whether a path names a Ptex texture.
pub fn is_ptex_path(path: &str) -> (b: bool)
    ensures
        b == spec_is_ptex_path(path@),
{
    let l = str_ascii_lower_chars(path);
    chars_end_with(&l, &str_chars(".ptx")) || chars_end_with(&l, &str_chars(".ptex"))
        || chars_contain(&l, &str_chars("/ptex/")) || chars_contain(&l, &str_chars("\\ptex\\"))
        || chars_contain(&l, &str_chars("ptex:")) || chars_contain(&l, &str_chars("ptex_"))
        || chars_contain(&l, &str_chars("_ptex"))
}

/// A path holds a UDIM tile pattern.
pub open spec fn spec_is_udim_path(path: Seq<char>) -> bool {
    seq_contains(path, "<UDIM>"@) || seq_contains(path, "<udim>"@)
}

/// Whether a path holds a UDIM tile pattern (`<UDIM>` or `<udim>`).
pub fn is_udim_path(path: &str) -> (b: bool)
    ensures
        b == spec_is_udim_path(path@),
{
    str_contains(path, "<UDIM>") || str_contains(path, "<udim>")
}

/// Texture kind from the node and the file path: Ptex nodes and Ptex
/// paths first, then UDIM paths, otherwise a plain UV texture.
pub open spec fn spec_detect_texture_type(node_id: Seq<char>, file_path: Seq<char>) -> TextureType {
    if node_id == "UsdPtexTexture"@ || spec_is_ptex_path(file_path) {
        TextureType::Ptex
    } else if spec_is_udim_path(file_path) {
        TextureType::Udim
    } else {
        TextureType::Uv
    }
}

/// Detects the texture kind of a texture node reading `file_path`.
pub fn detect_texture_type(node_id: &str, file_path: &str) -> (t: TextureType)
    ensures
        t == spec_detect_texture_type(node_id@, file_path@),
{
    if str_eq(node_id, "UsdPtexTexture") || is_ptex_path(file_path) {
        return TextureType::Ptex;
    }
    if is_udim_path(file_path) {
        return TextureType::Udim;
    }
    TextureType::Uv
}

/// Detection never yields a field texture.
pub proof fn lemma_detected_never_field(node_id: Seq<char>, file_path: Seq<char>)
    ensures
        !(spec_detect_texture_type(node_id, file_path) is Field),
{
}

/// Ptex detection ignores ASCII case: a path and its lower-cased form are
/// classified alike.
pub proof fn lemma_ptex_detection_ignores_case(path: Seq<char>)
    ensures
        spec_is_ptex_path(seq_ascii_lower(path)) == spec_is_ptex_path(path),
{
    let l = seq_ascii_lower(path);
    assert forall|i: int| 0 <= i < l.len() implies #[trigger] seq_ascii_lower(l)[i] == l[i] by {
        let c = path[i];
        if 'A' <= c && c <= 'Z' {
            assert((((c as u32) + 32) as char) as u32 == (c as u32) + 32);
        }
    }
    assert(seq_ascii_lower(l) =~= l);
}

/// Position of a texture kind in its declaration, as `as u8` gives it.
pub open spec fn texture_type_byte(t: TextureType) -> u8 {
    match t {
        TextureType::Uv => 0,
        TextureType::Ptex => 1,
        TextureType::Field => 2,
        TextureType::Udim => 3,
    }
}

fn texture_type_byte_exec(t: TextureType) -> (b: u8)
    ensures
        b == texture_type_byte(t),
{
    match t {
        TextureType::Uv => 0,
        TextureType::Ptex => 1,
        TextureType::Field => 2,
        TextureType::Udim => 3,
    }
}

/// The writes that hash one texture descriptor: its input name, its file
/// and its kind.
pub open spec fn descriptor_hash_chunks(d: TextureDescriptor) -> Seq<Seq<u8>> {
    str_chunks(d.name@) + str_chunks(d.file_path@) + seq![seq![texture_type_byte(d.texture_type)]]
}

/// The writes that hash a list of texture descriptors, in order.
pub open spec fn descriptors_hash_chunks(ds: Seq<TextureDescriptor>) -> Seq<Seq<u8>>
    decreases ds.len(),
{
    if ds.len() == 0 {
        Seq::empty()
    } else {
        descriptors_hash_chunks(ds.drop_last()) + descriptor_hash_chunks(ds.last())
    }
}

/// Hash of a material's textures, which changes when its texture bindings
/// do: input names, files and kinds, in order.
pub fn compute_texture_hash(descs: &[TextureDescriptor]) -> (h: u64)
    ensures
        h == DefaultHasher::spec_finish(descriptors_hash_chunks(descs@)),
{
    let mut hasher = DefaultHasher::new();
    let mut i: usize = 0;
    while i < descs.len()
        invariant
            i <= descs.len(),
            hasher@ == descriptors_hash_chunks(descs@.take(i as int)),
        decreases descs.len() - i,
    {
        let ghost start = hasher@;
        write_str(&mut hasher, descs[i].name.as_str());
        write_str(&mut hasher, descs[i].file_path.as_str());
        write_u8(&mut hasher, texture_type_byte_exec(descs[i].texture_type));
        proof {
            assert(hasher@ =~= start + descriptor_hash_chunks(descs@[i as int]));
            let t = descs@.take(i as int + 1);
            assert(t.drop_last() =~= descs@.take(i as int));
            assert(t.last() == descs@[i as int]);
        }
        i = i + 1;
    }
    assert(descs@.take(descs.len() as int) =~= descs@);
    hasher.finish()
}

/// A parameter authored as a text.
pub open spec fn text_param(params: Seq<(String, FallbackValue)>, name: Seq<char>) -> Option<Seq<char>> {
    match lookup(params, name) {
        Some(FallbackValue::String(s)) => Some(s@),
        _ => None,
    }
}

/// A text parameter, or `default` where it is not authored as text.
pub open spec fn text_param_or(params: Seq<(String, FallbackValue)>, name: Seq<char>, default: Seq<char>) -> Seq<char> {
    match text_param(params, name) {
        Some(v) => v,
        None => default,
    }
}

fn text_param_or_exec(params: &Vec<(String, FallbackValue)>, name: &str, default: &str) -> (r: String)
    ensures
        r@ == text_param_or(params@, name@, default@),
{
    match lookup_entry(params, name) {
        Some(FallbackValue::String(s)) => s.clone(),
        _ => String::from_str(default),
    }
}

/// The sampler of a texture node: each wrap mode and filter authored as
/// text on the node, the default otherwise.
pub fn extract_sampler_params(params: &Vec<(String, FallbackValue)>) -> (sp: SamplerParams)
    ensures
        sp.wrap_s@ == text_param_or(params@, "wrapS"@, "useMetadata"@),
        sp.wrap_t@ == text_param_or(params@, "wrapT"@, "useMetadata"@),
        sp.wrap_r@ == text_param_or(params@, "wrapR"@, "useMetadata"@),
        sp.min_filter@ == text_param_or(params@, "minFilter"@, "linear"@),
        sp.mag_filter@ == text_param_or(params@, "magFilter"@, "linear"@),
{
    SamplerParams {
        wrap_s: text_param_or_exec(params, "wrapS", "useMetadata"),
        wrap_t: text_param_or_exec(params, "wrapT", "useMetadata"),
        wrap_r: text_param_or_exec(params, "wrapR", "useMetadata"),
        min_filter: text_param_or_exec(params, "minFilter", "linear"),
        mag_filter: text_param_or_exec(params, "magFilter", "linear"),
    }
}

/// The file a texture node reads: its `file` parameter authored as text,
/// or nothing.
pub fn extract_file_path(params: &Vec<(String, FallbackValue)>) -> (f: String)
    ensures
        f@ == text_param_or(params@, "file"@, Seq::<char>::empty()),
{
    proof {
        reveal_strlit("");
    }
    text_param_or_exec(params, "file", "")
}

/// A value reads as true: a true flag, a nonzero integer, a float other
/// than zero (NaN included), or one of the texts `1`, `true`, `yes`, `on`
/// in any ASCII case. Nothing else does.
pub open spec fn spec_value_is_truthy(v: FallbackValue) -> bool {
    match v {
        FallbackValue::Bool(b) => b,
        FallbackValue::Int(i) => i != 0,
        FallbackValue::Float(bits) => bits & 0x7fff_ffffu32 != 0,
        FallbackValue::String(s) => {
            let l = seq_ascii_lower(s@);
            l == "1"@ || l == "true"@ || l == "yes"@ || l == "on"@
        },
        _ => false,
    }
}

/// Whether a value reads as true.
pub fn value_is_truthy(v: &FallbackValue) -> (b: bool)
    ensures
        b == spec_value_is_truthy(*v),
{
    match v {
        FallbackValue::Bool(b) => *b,
        FallbackValue::Int(i) => *i != 0,
        FallbackValue::Float(bits) => *bits & 0x7fff_ffff != 0,
        FallbackValue::String(s) => {
            let l = str_ascii_lower_chars(s.as_str());
            let r = chars_equal(&l, &str_chars("1")) || chars_equal(&l, &str_chars("true"))
                || chars_equal(&l, &str_chars("yes")) || chars_equal(&l, &str_chars("on"));
            r
        },
        _ => false,
    }
}

fn chars_equal(a: &Vec<char>, b: &Vec<char>) -> (r: bool)
    ensures
        r == (a@ == b@),
{
    if a.len() != b.len() {
        return false;
    }
    let mut i: usize = 0;
    while i < a.len()
        invariant
            i <= a.len(),
            a.len() == b.len(),
            forall|j: int| 0 <= j < i ==> a@[j] == b@[j],
        decreases a.len() - i,
    {
        if a[i] != b[i] {
            return false;
        }
        i = i + 1;
    }
    assert(a@ =~= b@);
    true
}

/// Volume shader source and the parameters volume rendering reads.
#[derive(Debug, Clone)]
pub struct VolumeMaterialData {
    pub source: String,
    pub params: Vec<(String, FallbackValue)>,
}

impl Default for VolumeMaterialData {
    fn default() -> (d: Self)
        ensures
            d.source@ == Seq::<char>::empty(),
            d.params@ == Seq::<(String, FallbackValue)>::empty(),
    {
        VolumeMaterialData { source: String::new(), params: Vec::new() }
    }
}

/// A Storm material: its prim path, material tag, shader parameters,
/// compiled shader handle (0 when not compiled), whether its network is
/// dirty, its fragment, displacement and volume sources, its extracted
/// material parameters (whose layout belongs to the shader generator, hence
/// a type parameter), its texture paths and descriptors, its Ptex, limit
/// surface and displacement flags, its texture hash, volume data, metadata
/// and network shader.
pub struct HdStMaterial<P> {
    path: String,
    tag: String,
    params: Vec<(String, FallbackValue)>,
    shader_handle: u64,
    network_dirty: bool,
    fragment_source: String,
    displacement_source: String,
    volume_source: String,
    is_initialized: bool,
    using_fallback: bool,
    material_params: P,
    texture_paths: Vec<(String, String)>,
    texture_descriptors: Vec<TextureDescriptor>,
    has_ptex: bool,
    has_limit_surface_eval: bool,
    has_displacement: bool,
    texture_hash: u64,
    volume_material_data: VolumeMaterialData,
    material_metadata: Vec<(String, FallbackValue)>,
    network_shader: MaterialNetworkShader<P>,
}

impl<P> HdStMaterial<P> {
    pub closed spec fn path_view(&self) -> Seq<char> {
        self.path@
    }

    pub closed spec fn tag_view(&self) -> Seq<char> {
        self.tag@
    }

    /// The shader parameters; a name is looked up by its first entry.
    pub closed spec fn params_view(&self) -> Seq<(String, FallbackValue)> {
        self.params@
    }

    pub closed spec fn shader_handle_view(&self) -> u64 {
        self.shader_handle
    }

    pub closed spec fn network_dirty_view(&self) -> bool {
        self.network_dirty
    }

    pub closed spec fn fragment_view(&self) -> Seq<char> {
        self.fragment_source@
    }

    pub closed spec fn displacement_view(&self) -> Seq<char> {
        self.displacement_source@
    }

    pub closed spec fn volume_view(&self) -> Seq<char> {
        self.volume_source@
    }

    pub closed spec fn using_fallback_view(&self) -> bool {
        self.using_fallback
    }

    pub closed spec fn material_params_view(&self) -> P {
        self.material_params
    }

    pub closed spec fn texture_paths_view(&self) -> Seq<(String, String)> {
        self.texture_paths@
    }

    pub closed spec fn descriptors_view(&self) -> Seq<TextureDescriptor> {
        self.texture_descriptors@
    }

    pub closed spec fn has_ptex_view(&self) -> bool {
        self.has_ptex
    }

    pub closed spec fn has_limit_surface_eval_view(&self) -> bool {
        self.has_limit_surface_eval
    }

    pub closed spec fn has_displacement_view(&self) -> bool {
        self.has_displacement
    }

    pub closed spec fn texture_hash_view(&self) -> u64 {
        self.texture_hash
    }

    pub closed spec fn volume_data_view(&self) -> VolumeMaterialData {
        self.volume_material_data
    }

    pub closed spec fn metadata_view(&self) -> Seq<(String, FallbackValue)> {
        self.material_metadata@
    }

    pub closed spec fn network_shader_view(&self) -> MaterialNetworkShader<P> {
        self.network_shader
    }

    /// Whether the material has been synced from its network since it was
    /// made or finalized.
    pub closed spec fn initialized_view(&self) -> bool {
        self.is_initialized
    }

    /// Everything but the tag, parameters, shader handle and dirty flag is as
    /// in `other`.
    pub open spec fn same_resources(&self, other: &Self) -> bool {
        &&& self.path_view() == other.path_view()
        &&& self.fragment_view() == other.fragment_view()
        &&& self.displacement_view() == other.displacement_view()
        &&& self.volume_view() == other.volume_view()
        &&& self.using_fallback_view() == other.using_fallback_view()
        &&& self.material_params_view() == other.material_params_view()
        &&& self.texture_paths_view() == other.texture_paths_view()
        &&& self.descriptors_view() == other.descriptors_view()
        &&& self.has_ptex_view() == other.has_ptex_view()
        &&& self.has_limit_surface_eval_view() == other.has_limit_surface_eval_view()
        &&& self.has_displacement_view() == other.has_displacement_view()
        &&& self.texture_hash_view() == other.texture_hash_view()
        &&& self.volume_data_view() == other.volume_data_view()
        &&& self.metadata_view() == other.metadata_view()
        &&& self.network_shader_view() == other.network_shader_view()
    }

    /// Nothing compiled, nothing extracted: the state of a new material and
    /// of a finalized one, but for the path, tag and material parameters.
    pub open spec fn is_reset(&self) -> bool {
        &&& self.params_view() == Seq::<(String, FallbackValue)>::empty()
        &&& self.shader_handle_view() == 0
        &&& self.network_dirty_view()
        &&& self.fragment_view() == Seq::<char>::empty()
        &&& self.displacement_view() == Seq::<char>::empty()
        &&& self.volume_view() == Seq::<char>::empty()
        &&& !self.using_fallback_view()
        &&& self.texture_paths_view() == Seq::<(String, String)>::empty()
        &&& self.descriptors_view() == Seq::<TextureDescriptor>::empty()
        &&& !self.has_ptex_view()
        &&& !self.has_limit_surface_eval_view()
        &&& !self.has_displacement_view()
        &&& self.texture_hash_view() == 0
        &&& self.volume_data_view().source@ == Seq::<char>::empty()
        &&& self.volume_data_view().params@ == Seq::<(String, FallbackValue)>::empty()
        &&& self.metadata_view() == Seq::<(String, FallbackValue)>::empty()
        &&& self.network_shader_view().wf()
        &&& self.network_shader_view().params_view() == Seq::<crate::material_network_shader::ShaderParam>::empty()
        &&& self.network_shader_view().fragment_view() == Seq::<char>::empty()
    }

    /// A new material at `path`, with the default tag, its network dirty and
    /// nothing compiled.
    pub fn new(path: String) -> (m: Self)
        where
            P: Default,
        ensures
            m.path_view() == path@,
            m.tag_view() == "defaultMaterialTag"@,
            m.is_reset(),
    {
        HdStMaterial {
            path,
            tag: String::from_str("defaultMaterialTag"),
            params: Vec::new(),
            shader_handle: 0,
            network_dirty: true,
            fragment_source: String::new(),
            displacement_source: String::new(),
            volume_source: String::new(),
            is_initialized: false,
            using_fallback: false,
            material_params: P::default(),
            texture_paths: Vec::new(),
            texture_descriptors: Vec::new(),
            has_ptex: false,
            has_limit_surface_eval: false,
            has_displacement: false,
            texture_hash: 0,
            volume_material_data: VolumeMaterialData::default(),
            material_metadata: Vec::new(),
            network_shader: MaterialNetworkShader::new(),
        }
    }

    pub fn get_path(&self) -> (p: &str)
        ensures
            p@ == self.path_view(),
    {
        self.path.as_str()
    }

    pub fn set_tag(&mut self, tag: String)
        ensures
            final(self).same_resources(old(self)),
            final(self).tag_view() == tag@,
            final(self).params_view() == old(self).params_view(),
            final(self).shader_handle_view() == old(self).shader_handle_view(),
            final(self).network_dirty_view() == old(self).network_dirty_view(),
    {
        self.tag = tag;
    }

    pub fn get_tag(&self) -> (t: &str)
        ensures
            t@ == self.tag_view(),
    {
        self.tag.as_str()
    }

    /// Sets a shader parameter, replacing any earlier value of that name.
    pub fn set_param(&mut self, name: String, value: FallbackValue)
        ensures
            final(self).same_resources(old(self)),
            forall|k: Seq<char>| #[trigger]
                lookup(final(self).params_view(), k) == if k == name@ {
                    Some(value)
                } else {
                    lookup(old(self).params_view(), k)
                },
            final(self).params_view().len() == old(self).params_view().len() + if lookup(
                old(self).params_view(),
                name@,
            ) is None {
                1int
            } else {
                0int
            },
            final(self).tag_view() == old(self).tag_view(),
            final(self).shader_handle_view() == old(self).shader_handle_view(),
            final(self).network_dirty_view() == old(self).network_dirty_view(),
    {
        set_entry(&mut self.params, name, value);
    }

    /// The value of a shader parameter.
    pub fn get_param(&self, name: &str) -> (v: Option<&FallbackValue>)
        ensures
            match v {
                Some(x) => lookup(self.params_view(), name@) == Some(*x),
                None => lookup(self.params_view(), name@) is None,
            },
    {
        lookup_entry(&self.params, name)
    }

    /// All shader parameters.
    pub fn get_params(&self) -> (ps: &[(String, FallbackValue)])
        ensures
            ps@ == self.params_view(),
    {
        self.params.as_slice()
    }

    /// Whether a shader is compiled.
    pub fn is_compiled(&self) -> (b: bool)
        ensures
            b == (self.shader_handle_view() != 0),
    {
        self.shader_handle != 0
    }

    pub fn get_shader_handle(&self) -> (h: u64)
        ensures
            h == self.shader_handle_view(),
    {
        self.shader_handle
    }

    /// Marks the network dirty, which drops the compiled shader.
    pub fn mark_network_dirty(&mut self)
        ensures
            final(self).same_resources(old(self)),
            final(self).network_dirty_view(),
            final(self).shader_handle_view() == 0,
            final(self).tag_view() == old(self).tag_view(),
            final(self).params_view() == old(self).params_view(),
    {
        self.network_dirty = true;
        self.shader_handle = 0;
    }

    pub fn is_network_dirty(&self) -> (b: bool)
        ensures
            b == self.network_dirty_view(),
    {
        self.network_dirty
    }

    /// Compiles the shader when the network is dirty: the network is then
    /// clean and a shader handle set. A clean material is left as it is.
    pub fn sync(&mut self)
        ensures
            final(self).same_resources(old(self)),
            !final(self).network_dirty_view(),
            old(self).network_dirty_view() ==> final(self).shader_handle_view() == 1,
            !old(self).network_dirty_view() ==> final(self).shader_handle_view()
                == old(self).shader_handle_view(),
            final(self).tag_view() == old(self).tag_view(),
            final(self).params_view() == old(self).params_view(),
    {
        if !self.network_dirty {
            return;
        }
        self.shader_handle = 1;
        self.network_dirty = false;
    }

    /// Binds the parameters to the GPU; nothing is bound yet.
    pub fn bind(&self) {
    }

    /// Releases everything the material holds when its prim is removed:
    /// the compiled shader, sources, parameters, textures, flags, volume
    /// data, metadata and network shader. The network is dirty again.
    pub fn finalize(&mut self)
        where
            P: Default,
        ensures
            final(self).is_reset(),
            final(self).path_view() == old(self).path_view(),
            final(self).tag_view() == old(self).tag_view(),
            final(self).material_params_view() == old(self).material_params_view(),
    {
        self.shader_handle = 0;
        self.fragment_source = String::new();
        self.displacement_source = String::new();
        self.volume_source = String::new();
        self.params = Vec::new();
        self.texture_paths = Vec::new();
        self.texture_descriptors = Vec::new();
        self.network_dirty = true;
        self.is_initialized = false;
        self.using_fallback = false;
        self.has_ptex = false;
        self.has_limit_surface_eval = false;
        self.has_displacement = false;
        self.texture_hash = 0;
        self.volume_material_data = VolumeMaterialData::default();
        self.material_metadata = Vec::new();
        self.network_shader = MaterialNetworkShader::new();
    }

    pub fn has_ptex(&self) -> (b: bool)
        ensures
            b == self.has_ptex_view(),
    {
        self.has_ptex
    }

    pub fn has_limit_surface_evaluation(&self) -> (b: bool)
        ensures
            b == self.has_limit_surface_eval_view(),
    {
        self.has_limit_surface_eval
    }

    pub fn has_displacement(&self) -> (b: bool)
        ensures
            b == self.has_displacement_view(),
    {
        self.has_displacement
    }

    pub fn get_fragment_source(&self) -> (s: &str)
        ensures
            s@ == self.fragment_view(),
    {
        self.fragment_source.as_str()
    }

    pub fn get_displacement_source(&self) -> (s: &str)
        ensures
            s@ == self.displacement_view(),
    {
        self.displacement_source.as_str()
    }

    pub fn get_volume_source(&self) -> (s: &str)
        ensures
            s@ == self.volume_view(),
    {
        self.volume_source.as_str()
    }

    pub fn is_using_fallback(&self) -> (b: bool)
        ensures
            b == self.using_fallback_view(),
    {
        self.using_fallback
    }

    pub fn get_volume_material_data(&self) -> (d: &VolumeMaterialData)
        ensures
            *d == self.volume_data_view(),
    {
        &self.volume_material_data
    }

    pub fn get_texture_descriptors(&self) -> (ds: &[TextureDescriptor])
        ensures
            ds@ == self.descriptors_view(),
    {
        self.texture_descriptors.as_slice()
    }

    pub fn get_texture_hash(&self) -> (h: u64)
        ensures
            h == self.texture_hash_view(),
    {
        self.texture_hash
    }

    pub fn get_material_metadata(&self) -> (m: &[(String, FallbackValue)])
        ensures
            m@ == self.metadata_view(),
    {
        self.material_metadata.as_slice()
    }

    pub fn get_material_params(&self) -> (p: &P)
        ensures
            *p == self.material_params_view(),
    {
        &self.material_params
    }

    pub fn get_texture_paths(&self) -> (t: &[(String, String)])
        ensures
            t@ == self.texture_paths_view(),
    {
        self.texture_paths.as_slice()
    }

    /// The material's network shader.
    pub fn get_network_shader(&self) -> (s: &MaterialNetworkShader<P>)
        ensures
            *s == self.network_shader_view(),
    {
        &self.network_shader
    }

    /// Replaces the network shader.
    pub fn set_network_shader(&mut self, shader: MaterialNetworkShader<P>)
        ensures
            final(self).network_shader_view() == shader,
            final(self).tag_view() == old(self).tag_view(),
            final(self).params_view() == old(self).params_view(),
            final(self).shader_handle_view() == old(self).shader_handle_view(),
            final(self).network_dirty_view() == old(self).network_dirty_view(),
            final(self).fragment_view() == old(self).fragment_view(),
            final(self).descriptors_view() == old(self).descriptors_view(),
            final(self).texture_hash_view() == old(self).texture_hash_view(),
    {
        self.network_shader = shader;
    }
}


/// A material network in its second form: its nodes, each with its path,
/// and its terminals as (terminal name, upstream node path) pairs. A
/// terminal or a node is found by its first entry.
#[derive(Debug, Clone)]
pub struct MaterialNetwork2 {
    pub nodes: Vec<MaterialNode>,
    pub terminals: Vec<(String, String)>,
}

/// The node a terminal of the network is connected to.
pub open spec fn spec_terminal_node(net: MaterialNetwork2, terminal: Seq<char>) -> Option<MaterialNode> {
    match lookup(net.terminals@, terminal) {
        Some(p) => find_node(net.nodes@, p@),
        None => None,
    }
}

/// The node a terminal of the network is connected to.
pub fn terminal_node<'a>(net: &'a MaterialNetwork2, terminal: &str) -> (r: Option<&'a MaterialNode>)
    ensures
        match r {
            Some(n) => spec_terminal_node(*net, terminal@) == Some(*n),
            None => spec_terminal_node(*net, terminal@) is None,
        },
{
    match lookup_entry(&net.terminals, terminal) {
        Some(p) => find_node_exec(net.nodes.as_slice(), p.as_str()),
        None => None,
    }
}

/// Some connection comes from the node at `path`.
pub open spec fn fed_by(conns: Seq<(String, String)>, path: Seq<char>) -> bool {
    exists|j: int| 0 <= j < conns.len() && (#[trigger] conns[j]).0@ == path
}

/// The last input, in order, that the node at `path` is connected to.
pub open spec fn last_input_fed_by(inputs: Seq<(String, Vec<(String, String)>)>, path: Seq<char>) -> Option<
    Seq<char>,
>
    decreases inputs.len(),
{
    if inputs.len() == 0 {
        None
    } else if fed_by(inputs.last().1@, path) {
        Some(inputs.last().0@)
    } else {
        last_input_fed_by(inputs.drop_last(), path)
    }
}

fn is_fed_by(conns: &Vec<(String, String)>, path: &str) -> (b: bool)
    ensures
        b == fed_by(conns@, path@),
{
    let mut i: usize = 0;
    while i < conns.len()
        invariant
            i <= conns.len(),
            forall|j: int| 0 <= j < i ==> (#[trigger] conns@[j]).0@ != path@,
        decreases conns.len() - i,
    {
        if str_eq(conns[i].0.as_str(), path) {
            return true;
        }
        i = i + 1;
    }
    false
}

fn last_input_fed_by_exec(inputs: &Vec<(String, Vec<(String, String)>)>, path: &str) -> (r: Option<String>)
    ensures
        match r {
            Some(n) => last_input_fed_by(inputs@, path@) == Some(n@),
            None => last_input_fed_by(inputs@, path@) is None,
        },
{
    let mut i: usize = inputs.len();
    assert(inputs@.take(i as int) =~= inputs@);
    while i > 0
        invariant
            i <= inputs.len(),
            last_input_fed_by(inputs@, path@) == last_input_fed_by(inputs@.take(i as int), path@),
        decreases i,
    {
        proof {
            let t = inputs@.take(i as int);
            assert(t.last() == inputs@[i - 1]);
            assert(t.drop_last() =~= inputs@.take(i - 1));
        }
        if is_fed_by(&inputs[i - 1].1, path) {
            return Some(inputs[i - 1].0.clone());
        }
        i = i - 1;
    }
    None
}

/// The surface input that the texture node at `path` feeds: the last input
/// of the surface node connected to it, `unknown` when there is none.
pub open spec fn texture_input_name(net: MaterialNetwork2, path: Seq<char>) -> Seq<char> {
    let found = match spec_terminal_node(net, "surface"@) {
        Some(s) => last_input_fed_by(s.input_connections@, path),
        None => None,
    };
    match found {
        Some(n) => n,
        None => "unknown"@,
    }
}

/// The texture nodes of a list, in order.
pub open spec fn texture_nodes(nodes: Seq<MaterialNode>) -> Seq<MaterialNode>
    decreases nodes.len(),
{
    if nodes.len() == 0 {
        Seq::empty()
    } else if spec_is_texture_node_type(nodes.last().identifier@) {
        texture_nodes(nodes.drop_last()).push(nodes.last())
    } else {
        texture_nodes(nodes.drop_last())
    }
}

/// `d` describes the texture node `node` of `net`: the surface input it
/// feeds, its file, the kind detected from its identifier and file, and its
/// sampler.
pub open spec fn describes(d: TextureDescriptor, net: MaterialNetwork2, node: MaterialNode) -> bool {
    let file = text_param_or(node.parameters@, "file"@, Seq::<char>::empty());
    &&& d.name@ == texture_input_name(net, node.path@)
    &&& d.file_path@ == file
    &&& d.texture_type == spec_detect_texture_type(node.identifier@, file)
    &&& d.sampler_params.wrap_s@ == text_param_or(node.parameters@, "wrapS"@, "useMetadata"@)
    &&& d.sampler_params.wrap_t@ == text_param_or(node.parameters@, "wrapT"@, "useMetadata"@)
    &&& d.sampler_params.wrap_r@ == text_param_or(node.parameters@, "wrapR"@, "useMetadata"@)
    &&& d.sampler_params.min_filter@ == text_param_or(node.parameters@, "minFilter"@, "linear"@)
    &&& d.sampler_params.mag_filter@ == text_param_or(node.parameters@, "magFilter"@, "linear"@)
}

/// `ds` describes the texture nodes of `net`, one each, in node order.
pub open spec fn network_descriptors(ds: Seq<TextureDescriptor>, net: MaterialNetwork2) -> bool {
    let ts = texture_nodes(net.nodes@);
    &&& ds.len() == ts.len()
    &&& forall|i: int| 0 <= i < ds.len() ==> describes(#[trigger] ds[i], net, ts[i])
}

/// Some texture is a Ptex.
pub open spec fn any_ptex(ds: Seq<TextureDescriptor>) -> bool {
    exists|i: int| 0 <= i < ds.len() && (#[trigger] ds[i]).texture_type is Ptex
}

/// A network's descriptors hold a Ptex exactly when one of its texture
/// nodes is a Ptex texture by its identifier and file.
pub proof fn lemma_ptex_follows_texture_nodes(ds: Seq<TextureDescriptor>, net: MaterialNetwork2)
    requires
        network_descriptors(ds, net),
    ensures
        any_ptex(ds) <==> exists|i: int|
            0 <= i < texture_nodes(net.nodes@).len() && (spec_detect_texture_type(
                (#[trigger] texture_nodes(net.nodes@)[i]).identifier@,
                text_param_or(texture_nodes(net.nodes@)[i].parameters@, "file"@, Seq::<char>::empty()),
            ) is Ptex),
{
    let ts = texture_nodes(net.nodes@);
    if any_ptex(ds) {
        let i = choose|i: int| 0 <= i < ds.len() && (#[trigger] ds[i]).texture_type is Ptex;
        assert(describes(ds[i], net, ts[i]));
    }
    if exists|i: int|
        0 <= i < ts.len() && (spec_detect_texture_type(
            (#[trigger] ts[i]).identifier@,
            text_param_or(ts[i].parameters@, "file"@, Seq::<char>::empty()),
        ) is Ptex) {
        let i = choose|i: int|
            0 <= i < ts.len() && (spec_detect_texture_type(
                (#[trigger] ts[i]).identifier@,
                text_param_or(ts[i].parameters@, "file"@, Seq::<char>::empty()),
            ) is Ptex);
        assert(describes(ds[i], net, ts[i]));
        assert(ds[i].texture_type is Ptex);
    }
}

impl<P> HdStMaterial<P> {
    /// Appends a descriptor for each texture node of the network, in node
    /// order, and raises `found_ptex` when one of them is a Ptex.
    fn extract_texture_descriptors_from_net2(
        &self,
        net2: &MaterialNetwork2,
        descs: &mut Vec<TextureDescriptor>,
        found_ptex: &mut bool,
    )
        ensures
            final(descs)@.take(old(descs)@.len() as int) == old(descs)@,
            network_descriptors(final(descs)@.skip(old(descs)@.len() as int), *net2),
            *final(found_ptex) == (*old(found_ptex) || any_ptex(
                final(descs)@.skip(old(descs)@.len() as int),
            )),
    {
        let ghost start = descs@;
        let ghost n0 = descs@.len() as int;
        let surface = terminal_node(net2, "surface");
        let mut i: usize = 0;
        while i < net2.nodes.len()
            invariant
                i <= net2.nodes.len(),
                start == old(descs)@,
                n0 == start.len(),
                surface matches Some(s) ==> spec_terminal_node(*net2, "surface"@) == Some(*s),
                surface is None ==> spec_terminal_node(*net2, "surface"@) is None,
                descs@.len() == n0 + texture_nodes(net2.nodes@.take(i as int)).len(),
                descs@.take(n0) == start,
                forall|j: int|
                    0 <= j < texture_nodes(net2.nodes@.take(i as int)).len() ==> describes(
                        #[trigger] descs@[n0 + j],
                        *net2,
                        texture_nodes(net2.nodes@.take(i as int))[j],
                    ),
                *found_ptex == (*old(found_ptex) || any_ptex(descs@.skip(n0))),
            decreases net2.nodes.len() - i,
        {
            let node = &net2.nodes[i];
            proof {
                let t = net2.nodes@.take(i as int + 1);
                assert(t.drop_last() =~= net2.nodes@.take(i as int));
                assert(t.last() == net2.nodes@[i as int]);
            }
            if is_texture_node_type(node.identifier.as_str()) {
                let name = match surface {
                    Some(s) => match last_input_fed_by_exec(&s.input_connections, node.path.as_str()) {
                        Some(n) => n,
                        None => String::from_str("unknown"),
                    },
                    None => String::from_str("unknown"),
                };
                let file_path = extract_file_path(&node.parameters);
                let texture_type = detect_texture_type(node.identifier.as_str(), file_path.as_str());
                let sampler_params = extract_sampler_params(&node.parameters);
                let ghost before = descs@;
                let is_ptex = texture_type == TextureType::Ptex;
                descs.push(TextureDescriptor { name, file_path, texture_type, sampler_params });
                proof {
                    assert(descs@.take(n0) =~= before.take(n0));
                    let ts = texture_nodes(net2.nodes@.take(i as int + 1));
                    assert forall|j: int| 0 <= j < ts.len() implies describes(
                        #[trigger] descs@[n0 + j],
                        *net2,
                        ts[j],
                    ) by {
                        if j < ts.len() - 1 {
                            assert(descs@[n0 + j] == before[n0 + j]);
                        }
                    }
                    assert(descs@.skip(n0) =~= before.skip(n0).push(descs@.last()));
                    if any_ptex(before.skip(n0)) {
                        let k = choose|k: int| 0 <= k < before.skip(n0).len() && (#[trigger] before.skip(n0)[k]).texture_type is Ptex;
                        assert(descs@.skip(n0)[k] == before.skip(n0)[k]);
                    }
                    if is_ptex {
                        assert(descs@.skip(n0)[descs@.skip(n0).len() - 1].texture_type is Ptex);
                    }
                }
                if is_ptex {
                    *found_ptex = true;
                }
            }
            i = i + 1;
        }
        proof {
            assert(net2.nodes@.take(net2.nodes@.len() as int) =~= net2.nodes@);
            let ts = texture_nodes(net2.nodes@);
            assert forall|j: int| 0 <= j < descs@.skip(n0).len() implies describes(
                #[trigger] descs@.skip(n0)[j],
                *net2,
                ts[j],
            ) by {
                assert(descs@.skip(n0)[j] == descs@[n0 + j]);
            }
        }
    }
}


/// Material dirty bit: the parameters changed.
pub const MATERIAL_DIRTY_PARAMS: u64 = 4;

/// Material dirty bit: the network resource changed.
pub const MATERIAL_DIRTY_RESOURCE: u64 = 8;

/// Every material dirty bit.
pub const MATERIAL_ALL_DIRTY: u64 = 12;

/// A sync reads the network when the dirty bits name the parameters or the
/// network resource; otherwise it only clears the bits.
pub open spec fn sync_reads_network(bits: u64) -> bool {
    bits & MATERIAL_DIRTY_RESOURCE != 0 || bits & MATERIAL_DIRTY_PARAMS != 0
}

/// The surface a material falls back to: constant grey.
pub open spec fn fallback_surface_wgsl() -> Seq<char> {
    "\n// Fallback surface: constant grey\nfn compute_surface(in: VertexOutput) -> vec4<f32> {\n    return vec4<f32>(0.18, 0.18, 0.18, 1.0);\n}\n"@
}

/// The displacement function of a displacement node: it moves a position
/// along its normal by the node's scale, given as printed text.
pub open spec fn spec_displacement_source(identifier: Seq<char>, scale: Seq<char>) -> Seq<char> {
    "// Displacement terminal: "@ + identifier
        + "\nfn compute_displacement(in_pos: vec3<f32>, in_normal: vec3<f32>) -> vec3<f32> {\n    let disp_scale: f32 = "@
        + scale + ";\n    return in_pos + in_normal * disp_scale;\n}\n"@
}

/// The volume source of a volume node: a comment that names it.
pub open spec fn spec_volume_source(identifier: Seq<char>) -> Seq<char> {
    "// volume terminal: "@ + identifier + "\n"@
}

/// The node's authored opacity is below 1.0: a float below it, or an
/// integer below 1.
pub open spec fn opacity_below_one(node: MaterialNode) -> bool {
    match lookup(node.parameters@, "opacity"@) {
        Some(FallbackValue::Float(b)) => f32_bits_below_one(b),
        Some(FallbackValue::Int(i)) => i < 1,
        _ => false,
    }
}

/// The value of the last entry named `key`.
pub open spec fn last_entry<V>(entries: Seq<(String, V)>, key: Seq<char>) -> Option<V>
    decreases entries.len(),
{
    if entries.len() == 0 {
        None
    } else if entries.last().0@ == key {
        Some(entries.last().1)
    } else {
        last_entry(entries.drop_last(), key)
    }
}

/// `after` finds what `before` finds, with each entry of `added` set over
/// it in order: a name set more than once keeps its last value.
pub open spec fn entries_set_over<V>(
    after: Seq<(String, V)>,
    before: Seq<(String, V)>,
    added: Seq<(String, V)>,
) -> bool {
    forall|k: Seq<char>| #[trigger]
        lookup(after, k) == match last_entry(added, k) {
            Some(v) => Some(v),
            None => lookup(before, k),
        }
}

/// The text found under a name.
pub open spec fn lookup_text(entries: Seq<(String, String)>, key: Seq<char>) -> Option<Seq<char>> {
    match lookup(entries, key) {
        Some(s) => Some(s@),
        None => None,
    }
}

/// The file of the last texture feeding input `name` that has a file.
pub open spec fn last_texture_path(ds: Seq<TextureDescriptor>, name: Seq<char>) -> Option<Seq<char>>
    decreases ds.len(),
{
    if ds.len() == 0 {
        None
    } else if ds.last().name@ == name && ds.last().file_path@.len() > 0 {
        Some(ds.last().file_path@)
    } else {
        last_texture_path(ds.drop_last(), name)
    }
}

/// The parameters a synced material hands its network shader: a constant
/// for each shader parameter, in order, then a UV texture read through
/// `st` for each texture descriptor, in order.
pub open spec fn synced_shader_params(
    ps: Seq<ShaderParam>,
    params: Seq<(String, FallbackValue)>,
    ds: Seq<TextureDescriptor>,
) -> bool {
    &&& ps.len() == params.len() + ds.len()
    &&& forall|i: int|
        0 <= i < params.len() ==> {
            let p = #[trigger] ps[i];
            &&& p.param_type is Fallback
            &&& p.name == params[i].0
            &&& p.fallback_value == params[i].1
            &&& p.sampler_coords@.len() == 0
            &&& p.texture_type@ == "uv"@
            &&& plain_shader_param(p)
        }
    &&& forall|j: int|
        0 <= j < ds.len() ==> {
            let p = ps[params.len() + j];
            &&& p.param_type is Texture
            &&& p.name == (#[trigger] ds[j]).name
            &&& p.fallback_value is NoValue
            &&& p.sampler_coords@.len() == 1
            &&& p.sampler_coords@[0]@ == "st"@
            &&& p.texture_type@ == "uv"@
            &&& plain_shader_param(p)
        }
}

fn displacement_text(identifier: &str, scale: &str) -> (s: String)
    ensures
        s@ == spec_displacement_source(identifier@, scale@),
{
    let mut s = String::from_str("// Displacement terminal: ");
    s.append(identifier);
    s.append(
        "\nfn compute_displacement(in_pos: vec3<f32>, in_normal: vec3<f32>) -> vec3<f32> {\n    let disp_scale: f32 = ",
    );
    s.append(scale);
    s.append(";\n    return in_pos + in_normal * disp_scale;\n}\n");
    s
}

fn volume_text(identifier: &str) -> (s: String)
    ensures
        s@ == spec_volume_source(identifier@),
{
    let mut s = String::from_str("// volume terminal: ");
    s.append(identifier);
    s.append("\n");
    s
}

fn opacity_below_one_exec(node: &MaterialNode) -> (b: bool)
    ensures
        b == opacity_below_one(*node),
{
    match lookup_entry(&node.parameters, "opacity") {
        Some(FallbackValue::Float(bits)) => {
            if *bits >= 0x8000_0000 {
                *bits <= 0xff80_0000
            } else {
                *bits < 0x3f80_0000
            }
        },
        Some(FallbackValue::Int(i)) => *i < 1,
        _ => false,
    }
}

/// Sets each entry of `added` into `entries`, in order.
fn set_entries(entries: &mut Vec<(String, FallbackValue)>, added: &Vec<(String, FallbackValue)>)
    ensures
        entries_set_over(final(entries)@, old(entries)@, added@),
{
    let ghost start = entries@;
    let mut i: usize = 0;
    while i < added.len()
        invariant
            i <= added.len(),
            start == old(entries)@,
            entries_set_over(entries@, start, added@.take(i as int)),
        decreases added.len() - i,
    {
        let ghost before = entries@;
        set_entry(entries, added[i].0.clone(), copy_fallback(&added[i].1));
        proof {
            let t = added@.take(i as int + 1);
            assert(t.drop_last() =~= added@.take(i as int));
            assert(t.last() == added@[i as int]);
            assert forall|k: Seq<char>| #[trigger]
                lookup(entries@, k) == match last_entry(t, k) {
                    Some(v) => Some(v),
                    None => lookup(start, k),
                } by {
                assert(lookup(before, k) == match last_entry(added@.take(i as int), k) {
                    Some(v) => Some(v),
                    None => lookup(start, k),
                });
            }
        }
        i = i + 1;
    }
    assert(added@.take(added@.len() as int) =~= added@);
}

/// A copy of a parameter list.
fn copy_params(ps: &Vec<(String, FallbackValue)>) -> (r: Vec<(String, FallbackValue)>)
    ensures
        r@ == ps@,
{
    let mut r: Vec<(String, FallbackValue)> = Vec::new();
    let mut i: usize = 0;
    while i < ps.len()
        invariant
            i <= ps.len(),
            r@ == ps@.take(i as int),
        decreases ps.len() - i,
    {
        r.push((ps[i].0.clone(), copy_fallback(&ps[i].1)));
        proof {
            assert(ps@.take(i as int + 1) =~= ps@.take(i as int).push(ps@[i as int]));
        }
        i = i + 1;
    }
    assert(ps@.take(ps@.len() as int) =~= ps@);
    r
}

/// Rebuilds the texture paths from the descriptors: each input with a file
/// maps to the file of its last texture.
fn rebuild_texture_paths(paths: &mut Vec<(String, String)>, ds: &Vec<TextureDescriptor>)
    ensures
        forall|k: Seq<char>| #[trigger] lookup_text(final(paths)@, k) == last_texture_path(ds@, k),
{
    *paths = Vec::new();
    let mut i: usize = 0;
    while i < ds.len()
        invariant
            i <= ds.len(),
            forall|k: Seq<char>| #[trigger]
                lookup_text(paths@, k) == last_texture_path(ds@.take(i as int), k),
        decreases ds.len() - i,
    {
        let ghost before = paths@;
        proof {
            let t = ds@.take(i as int + 1);
            assert(t.drop_last() =~= ds@.take(i as int));
            assert(t.last() == ds@[i as int]);
        }
        if ds[i].file_path.as_str().unicode_len() > 0 {
            set_entry(paths, ds[i].name.clone(), ds[i].file_path.clone());
            proof {
                assert forall|k: Seq<char>| #[trigger]
                    lookup_text(paths@, k) == last_texture_path(ds@.take(i as int + 1), k) by {
                    assert(lookup_text(before, k) == last_texture_path(ds@.take(i as int), k));
                }
            }
        }
        i = i + 1;
    }
    assert(ds@.take(ds@.len() as int) =~= ds@);
}

/// The parameters a synced material hands its network shader.
fn build_shader_params(params: &Vec<(String, FallbackValue)>, ds: &Vec<TextureDescriptor>) -> (ps: Vec<
    ShaderParam,
>)
    ensures
        synced_shader_params(ps@, params@, ds@),
{
    let mut ps: Vec<ShaderParam> = Vec::new();
    let mut i: usize = 0;
    while i < params.len()
        invariant
            i <= params.len(),
            ps@.len() == i,
            forall|j: int|
                0 <= j < i ==> {
                    let p = #[trigger] ps@[j];
                    &&& p.param_type is Fallback
                    &&& p.name == params@[j].0
                    &&& p.fallback_value == params@[j].1
                    &&& p.sampler_coords@.len() == 0
                    &&& p.texture_type@ == "uv"@
                    &&& plain_shader_param(p)
                },
        decreases params.len() - i,
    {
        ps.push(ShaderParam::new_fallback(params[i].0.clone(), copy_fallback(&params[i].1)));
        i = i + 1;
    }
    let n = params.len();
    let mut j: usize = 0;
    while j < ds.len()
        invariant
            j <= ds.len(),
            n == params@.len(),
            ps@.len() == n + j,
            forall|k: int|
                0 <= k < n ==> {
                    let p = #[trigger] ps@[k];
                    &&& p.param_type is Fallback
                    &&& p.name == params@[k].0
                    &&& p.fallback_value == params@[k].1
                    &&& p.sampler_coords@.len() == 0
                    &&& p.texture_type@ == "uv"@
                    &&& plain_shader_param(p)
                },
            forall|k: int|
                0 <= k < j ==> {
                    let p = ps@[n + k];
                    &&& p.param_type is Texture
                    &&& p.name == (#[trigger] ds@[k]).name
                    &&& p.fallback_value is NoValue
                    &&& p.sampler_coords@.len() == 1
                    &&& p.sampler_coords@[0]@ == "st"@
                    &&& p.texture_type@ == "uv"@
                    &&& plain_shader_param(p)
                },
        decreases ds.len() - j,
    {
        let mut coords: Vec<String> = Vec::new();
        coords.push(String::from_str("st"));
        ps.push(ShaderParam::new_texture(ds[j].name.clone(), FallbackValue::NoValue, coords));
        proof {
            assert forall|k: int| 0 <= k < j + 1 implies {
                let p = ps@[n + k];
                &&& p.param_type is Texture
                &&& p.name == (#[trigger] ds@[k]).name
                &&& p.fallback_value is NoValue
                &&& p.sampler_coords@.len() == 1
                &&& p.sampler_coords@[0]@ == "st"@
                &&& p.texture_type@ == "uv"@
                &&& plain_shader_param(p)
            } by {
                if k < j {
                    assert(ds@[k] == ds@[k]);
                }
            }
        }
        j = j + 1;
    }
    ps
}


/// The floating-point parts of a material sync, made outside the library
/// for the network's surface and displacement nodes: the fragment source
/// generated for the surface node (its text prints the node's colors and
/// factors), the material parameters read from that node, and the
/// displacement node's scale printed with six decimals.
pub struct ShadingFloats<P> {
    pub surface_fragment: String,
    pub surface_params: P,
    pub displacement_scale: String,
}

/// The node a terminal of an optional network is connected to.
pub open spec fn net_terminal(network: Option<&MaterialNetwork2>, terminal: Seq<char>) -> Option<
    MaterialNode,
> {
    match network {
        Some(n) => spec_terminal_node(*n, terminal),
        None => None,
    }
}

/// The fragment source a sync generates before any fallback: the surface
/// node's, or nothing when the network has no surface node.
pub open spec fn synced_fragment<P>(network: Option<&MaterialNetwork2>, floats: ShadingFloats<P>) -> Seq<char> {
    match net_terminal(network, "surface"@) {
        Some(_) => floats.surface_fragment@,
        None => Seq::empty(),
    }
}

/// The displacement source a sync generates: the displacement node's
/// function, or nothing.
pub open spec fn synced_displacement<P>(network: Option<&MaterialNetwork2>, floats: ShadingFloats<P>) -> Seq<
    char,
> {
    match net_terminal(network, "displacement"@) {
        Some(d) => spec_displacement_source(d.identifier@, floats.displacement_scale@),
        None => Seq::empty(),
    }
}

/// The volume source a sync generates: the volume node's, or nothing.
pub open spec fn synced_volume(network: Option<&MaterialNetwork2>) -> Seq<char> {
    match net_terminal(network, "volume"@) {
        Some(v) => spec_volume_source(v.identifier@),
        None => Seq::empty(),
    }
}

/// A sync falls back to the grey surface when it generates neither a
/// fragment nor a displacement source.
pub open spec fn synced_to_fallback<P>(network: Option<&MaterialNetwork2>, floats: ShadingFloats<P>) -> bool {
    synced_fragment(network, floats).len() == 0 && synced_displacement(network, floats).len() == 0
}

impl<P> HdStMaterial<P> {
    /// `self` is `old` synced from `network` with the floating-point parts
    /// `floats`.
    pub open spec fn synced_from(
        &self,
        old: &Self,
        network: Option<&MaterialNetwork2>,
        floats: ShadingFloats<P>,
    ) -> bool where P: Clone {
        let surface = net_terminal(network, "surface"@);
        let fallback = synced_to_fallback(network, floats);
        let volume = synced_volume(network);
        &&& self.path_view() == old.path_view()
        &&& self.metadata_view() == old.metadata_view()
        &&& self.using_fallback_view() == fallback
        &&& self.fragment_view() == if fallback {
            fallback_surface_wgsl()
        } else {
            synced_fragment(network, floats)
        }
        &&& self.displacement_view() == synced_displacement(network, floats)
        &&& self.has_displacement_view() == (synced_displacement(network, floats).len() > 0)
        &&& self.volume_view() == volume
        &&& self.tag_view() == if surface matches Some(s) && opacity_below_one(s) {
            "translucent"@
        } else {
            old.tag_view()
        }
        &&& match surface {
            Some(s) => entries_set_over(self.params_view(), old.params_view(), s.parameters@),
            None => self.params_view() == old.params_view(),
        }
        &&& self.material_params_view() == match surface {
            Some(_) => floats.surface_params,
            None => old.material_params_view(),
        }
        &&& match network {
            Some(n) => network_descriptors(self.descriptors_view(), *n),
            None => self.descriptors_view().len() == 0,
        }
        &&& self.has_ptex_view() == any_ptex(self.descriptors_view())
        &&& match network {
            Some(_) => forall|k: Seq<char>| #[trigger]
                lookup_text(self.texture_paths_view(), k) == last_texture_path(self.descriptors_view(), k),
            None => self.texture_paths_view() == old.texture_paths_view(),
        }
        &&& if old.volume_data_view().source@ != volume {
            &&& self.volume_data_view().source@ == volume
            &&& self.volume_data_view().params@ == if volume.len() == 0 {
                Seq::<(String, FallbackValue)>::empty()
            } else {
                self.params_view()
            }
        } else {
            self.volume_data_view() == old.volume_data_view()
        }
        &&& self.has_limit_surface_eval_view() == match lookup(old.metadata_view(), "limitSurfaceEvaluation"@) {
            Some(v) => spec_value_is_truthy(v),
            None => false,
        }
        &&& self.texture_hash_view() == DefaultHasher::spec_finish(descriptors_hash_chunks(self.descriptors_view()))
        &&& self.shader_handle_view() == if self.fragment_view().len() == 0 {
            0u64
        } else {
            1u64
        }
        &&& !self.network_dirty_view()
        &&& self.initialized_view()
        &&& self.network_shader_view().wf()
        &&& self.network_shader_view().fragment_view() == self.fragment_view()
        &&& self.network_shader_view().displacement_view() == self.displacement_view()
        &&& self.network_shader_view().tag_view() == self.tag_view()
        &&& self.network_shader_view().filtering_view()
        &&& cloned(self.material_params_view(), self.network_shader_view().material_params_view())
        &&& self.network_shader_view().handles_view() == old.network_shader_view().handles_view()
        &&& synced_shader_params(
            self.network_shader_view().params_view(),
            self.params_view(),
            self.descriptors_view(),
        )
    }

    /// The dirty bits a new material starts with: all of them.
    pub fn get_initial_dirty_bits_mask() -> (bits: u64)
        ensures
            bits == MATERIAL_ALL_DIRTY,
    {
        MATERIAL_ALL_DIRTY
    }

    /// Installs the grey fallback surface.
    fn install_fallback_shader(&mut self)
        ensures
            final(self).fragment_view() == fallback_surface_wgsl(),
            final(self).tag_view() == "defaultMaterialTag"@,
            final(self).using_fallback_view(),
            final(self).path_view() == old(self).path_view(),
            final(self).params_view() == old(self).params_view(),
            final(self).material_params_view() == old(self).material_params_view(),
            final(self).texture_paths_view() == old(self).texture_paths_view(),
            final(self).volume_data_view() == old(self).volume_data_view(),
            final(self).metadata_view() == old(self).metadata_view(),
            final(self).network_shader_view() == old(self).network_shader_view(),
            final(self).initialized_view() == old(self).initialized_view(),
    {
        self.fragment_source = String::from_str(
            "\n// Fallback surface: constant grey\nfn compute_surface(in: VertexOutput) -> vec4<f32> {\n    return vec4<f32>(0.18, 0.18, 0.18, 1.0);\n}\n",
        );
        self.tag = String::from_str("defaultMaterialTag");
        self.using_fallback = true;
    }

    /// Syncs the material from its network when the dirty bits name its
    /// parameters or its network resource: the
    /// surface, displacement and volume terminals give the sources (the
    /// grey fallback when there is neither a fragment nor a displacement),
    /// the surface node its parameters and tag, the texture nodes the
    /// texture descriptors, paths, Ptex flag and hash, and the network
    /// shader is repopulated. With neither bit the material is left as it is
    /// and the bits are only cleared. `network` is the
    /// material's network, when its resource holds one with terminals and
    /// nodes.
    pub fn sync_from_network(
        &mut self,
        dirty_bits: &mut u64,
        network: Option<&MaterialNetwork2>,
        floats: ShadingFloats<P>,
    )
        where
            P: Clone,
        requires
            old(self).network_shader_view().wf(),
        ensures
            !sync_reads_network(*old(dirty_bits)) ==> *final(self) == *old(self),
            sync_reads_network(*old(dirty_bits)) ==> final(self).synced_from(old(self), network, floats),
            *final(dirty_bits) == 0,
    {
        let bits = *dirty_bits;
        if bits & MATERIAL_DIRTY_RESOURCE == 0 && bits & MATERIAL_DIRTY_PARAMS == 0 {
            *dirty_bits = 0;
            return;
        }
        let ghost old_self = *self;
        let ghost floats_view = floats;
        let ShadingFloats { surface_fragment, surface_params, displacement_scale } = floats;
        let mut fragment_source = String::new();
        let mut displacement_source = String::new();
        let mut volume_source = String::new();
        let mut material_tag = self.tag.clone();
        let mut texture_descs: Vec<TextureDescriptor> = Vec::new();
        let mut found_ptex = false;
        match network {
            Some(net2) => {
                match terminal_node(net2, "surface") {
                    Some(node) => {
                        fragment_source = surface_fragment;
                        self.material_params = surface_params;
                        if opacity_below_one_exec(node) {
                            material_tag = String::from_str("translucent");
                        }
                        set_entries(&mut self.params, &node.parameters);
                    },
                    None => {},
                }
                match terminal_node(net2, "displacement") {
                    Some(node) => {
                        displacement_source = displacement_text(
                            node.identifier.as_str(),
                            displacement_scale.as_str(),
                        );
                    },
                    None => {},
                }
                match terminal_node(net2, "volume") {
                    Some(node) => {
                        volume_source = volume_text(node.identifier.as_str());
                    },
                    None => {},
                }
                self.extract_texture_descriptors_from_net2(net2, &mut texture_descs, &mut found_ptex);
                proof {
                    assert(texture_descs@.skip(0) =~= texture_descs@);
                }
                rebuild_texture_paths(&mut self.texture_paths, &texture_descs);
            },
            None => {},
        }
        proof {
            assert(fragment_source@ == synced_fragment(network, floats_view));
            assert(displacement_source@ == synced_displacement(network, floats_view));
            assert(volume_source@ == synced_volume(network));
        }
        if fragment_source.as_str().unicode_len() == 0 && displacement_source.as_str().unicode_len()
            == 0 {
            self.install_fallback_shader();
        } else {
            self.fragment_source = fragment_source;
            self.using_fallback = false;
        }
        self.has_displacement = displacement_source.as_str().unicode_len() > 0;
        self.displacement_source = displacement_source;
        if !str_eq(self.volume_material_data.source.as_str(), volume_source.as_str()) {
            self.volume_material_data.source = volume_source.clone();
            if volume_source.as_str().unicode_len() == 0 {
                self.volume_material_data.params = Vec::new();
            } else {
                self.volume_material_data.params = copy_params(&self.params);
            }
        }
        self.volume_source = volume_source;
        self.tag = material_tag;
        self.has_ptex = found_ptex;
        self.has_limit_surface_eval = match lookup_entry(
            &self.material_metadata,
            "limitSurfaceEvaluation",
        ) {
            Some(v) => value_is_truthy(v),
            None => false,
        };
        let new_hash = compute_texture_hash(texture_descs.as_slice());
        if self.texture_hash != new_hash {
            self.texture_hash = new_hash;
        }
        self.texture_descriptors = texture_descs;
        self.shader_handle = if self.fragment_source.as_str().unicode_len() == 0 {
            0
        } else {
            1
        };
        self.network_dirty = false;
        self.is_initialized = true;
        self.network_shader.set_fragment_source(self.fragment_source.clone());
        self.network_shader.set_displacement_source(self.displacement_source.clone());
        self.network_shader.set_material_tag(self.tag.clone());
        self.network_shader.set_primvar_filtering_enabled(true);
        self.network_shader.set_material_params(self.material_params.clone());
        let shader_params = build_shader_params(&self.params, &self.texture_descriptors);
        self.network_shader.set_params(shader_params);
        *dirty_bits = 0;
    }
}

} // verus!
