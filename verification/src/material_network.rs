//! Material network processing: the nodes of a network, the classification
//! of texture and primvar-reader nodes, the texture-coordinate primvar a
//! texture samples, and the parameters, texture descriptors, material tag
//! and surface shader extracted from a network.

use vstd::prelude::*;
use vstd::seq_lib::lemma_concat_associative;
use vstd::string::StringExecFns;
use crate::material_param::{
    copy_fallback, FallbackValue, HdStMaterialParam, HdStTextureType, ParamType, ParamView,
    texture_fallback_bits,
};
use crate::named_entries::{lookup, lookup_entry};
use crate::text::{seq_contains, seq_starts_with, str_contains, str_eq, str_starts_with};

verus! {

/// Texture wrap mode.
#[derive(Debug, Clone, Copy, PartialEq, Eq, Structural)]
pub enum WrapMode {
    Clamp,
    Repeat,
    Mirror,
    Black,
}

/// Texture filter mode.
#[derive(Debug, Clone, Copy, PartialEq, Eq, Structural)]
pub enum FilterMode {
    Nearest,
    Linear,
    NearestMipmapNearest,
    LinearMipmapNearest,
    NearestMipmapLinear,
    LinearMipmapLinear,
}

/// Texture sampler parameters.
#[derive(Debug, Clone, Copy, PartialEq, Eq, Structural)]
pub struct SamplerParams {
    pub wrap_s: WrapMode,
    pub wrap_t: WrapMode,
    pub min_filter: FilterMode,
    pub mag_filter: FilterMode,
}

impl Default for SamplerParams {
    /// Repeat in both directions, trilinear minification, linear
    /// magnification.
    fn default() -> (p: Self)
        ensures
            p == (SamplerParams {
                wrap_s: WrapMode::Repeat,
                wrap_t: WrapMode::Repeat,
                min_filter: FilterMode::LinearMipmapLinear,
                mag_filter: FilterMode::Linear,
            }),
    {
        SamplerParams {
            wrap_s: WrapMode::Repeat,
            wrap_t: WrapMode::Repeat,
            min_filter: FilterMode::LinearMipmapLinear,
            mag_filter: FilterMode::Linear,
        }
    }
}

/// A node reads a texture: `UsdUVTexture` or any identifier containing
/// `Texture` or `Image`.
pub open spec fn spec_is_texture_node(id: Seq<char>) -> bool {
    id == "UsdUVTexture"@ || seq_contains(id, "Texture"@) || seq_contains(id, "Image"@)
}

/// Whether a node identifier names a texture reader.
pub fn is_texture_node(identifier: &str) -> (b: bool)
    ensures
        b == spec_is_texture_node(identifier@),
{
    str_eq(identifier, "UsdUVTexture") || str_contains(identifier, "Texture") || str_contains(
        identifier,
        "Image",
    )
}

/// A node reads a primvar: one of the typed primvar readers, or any
/// identifier starting with `UsdPrimvarReader`.
pub open spec fn spec_is_primvar_reader_node(id: Seq<char>) -> bool {
    id == "UsdPrimvarReader_float"@ || id == "UsdPrimvarReader_float2"@ || id
        == "UsdPrimvarReader_float3"@ || id == "UsdPrimvarReader_float4"@ || id
        == "UsdPrimvarReader_int"@ || id == "UsdPrimvarReader_string"@ || seq_starts_with(
        id,
        "UsdPrimvarReader"@,
    )
}

/// Whether a node identifier names a primvar reader.
pub fn is_primvar_reader_node(identifier: &str) -> (b: bool)
    ensures
        b == spec_is_primvar_reader_node(identifier@),
{
    str_eq(identifier, "UsdPrimvarReader_float") || str_eq(identifier, "UsdPrimvarReader_float2")
        || str_eq(identifier, "UsdPrimvarReader_float3") || str_eq(
        identifier,
        "UsdPrimvarReader_float4",
    ) || str_eq(identifier, "UsdPrimvarReader_int") || str_eq(
        identifier,
        "UsdPrimvarReader_string",
    ) || str_starts_with(identifier, "UsdPrimvarReader")
}

/// A node of a material network: its shader identifier, its path, its
/// authored parameter values and, per input, the upstream (node path,
/// output name) pairs connected to it. A name is looked up by its first
/// entry.
#[derive(Debug, Clone)]
pub struct MaterialNode {
    pub identifier: String,
    pub path: String,
    pub parameters: Vec<(String, FallbackValue)>,
    pub input_connections: Vec<(String, Vec<(String, String)>)>,
}

/// The first node at `path`.
pub open spec fn find_node(nodes: Seq<MaterialNode>, path: Seq<char>) -> Option<MaterialNode>
    decreases nodes.len(),
{
    if nodes.len() == 0 {
        None
    } else if nodes[0].path@ == path {
        Some(nodes[0])
    } else {
        find_node(nodes.drop_first(), path)
    }
}

pub(crate) fn find_node_exec<'a>(nodes: &'a [MaterialNode], path: &str) -> (r: Option<&'a MaterialNode>)
    ensures
        match r {
            Some(n) => find_node(nodes@, path@) == Some(*n),
            None => find_node(nodes@, path@) is None,
        },
{
    let mut i: usize = 0;
    assert(nodes@.skip(0) =~= nodes@);
    while i < nodes.len()
        invariant
            i <= nodes.len(),
            find_node(nodes@, path@) == find_node(nodes@.skip(i as int), path@),
        decreases nodes.len() - i,
    {
        assert(nodes@.skip(i as int)[0] == nodes@[i as int]);
        assert(nodes@.skip(i as int).drop_first() =~= nodes@.skip(i as int + 1));
        if str_eq(nodes[i].path.as_str(), path) {
            return Some(&nodes[i]);
        }
        i = i + 1;
    }
    None
}

/// The text value of a node's parameter `name`, when it is authored as text.
pub open spec fn spec_token_param(node: MaterialNode, name: Seq<char>) -> Option<Seq<char>> {
    match lookup(node.parameters@, name) {
        Some(FallbackValue::String(s)) => Some(s@),
        _ => None,
    }
}

fn token_param(node: &MaterialNode, name: &str) -> (r: Option<String>)
    ensures
        match r {
            Some(s) => spec_token_param(*node, name@) == Some(s@),
            None => spec_token_param(*node, name@) is None,
        },
{
    match lookup_entry(&node.parameters, name) {
        Some(FallbackValue::String(s)) => Some(s.clone()),
        _ => None,
    }
}

/// The `varname` of a connection's upstream node when that node is a
/// primvar reader.
pub open spec fn reader_varname(nodes: Seq<MaterialNode>, upstream_path: Seq<char>) -> Option<
    Seq<char>,
> {
    match find_node(nodes, upstream_path) {
        Some(up) => if spec_is_primvar_reader_node(up.identifier@) {
            spec_token_param(up, "varname"@)
        } else {
            None
        },
        None => None,
    }
}

/// The first connection whose upstream primvar reader names a primvar.
pub open spec fn first_reader_varname(conns: Seq<(String, String)>, nodes: Seq<MaterialNode>) -> Option<
    Seq<char>,
>
    decreases conns.len(),
{
    if conns.len() == 0 {
        None
    } else {
        match reader_varname(nodes, conns[0].0@) {
            Some(v) => Some(v),
            None => first_reader_varname(conns.drop_first(), nodes),
        }
    }
}

/// The primvar named by a primvar reader connected to the input.
pub open spec fn spec_connected_primvar_name(
    node: MaterialNode,
    input_name: Seq<char>,
    nodes: Seq<MaterialNode>,
) -> Option<Seq<char>> {
    match lookup(node.input_connections@, input_name) {
        Some(conns) => first_reader_varname(conns@, nodes),
        None => None,
    }
}

fn connected_primvar_name(node: &MaterialNode, input_name: &str, nodes: &[MaterialNode]) -> (r:
    Option<String>)
    ensures
        match r {
            Some(s) => spec_connected_primvar_name(*node, input_name@, nodes@) == Some(s@),
            None => spec_connected_primvar_name(*node, input_name@, nodes@) is None,
        },
{
    let conns = match lookup_entry(&node.input_connections, input_name) {
        Some(c) => c,
        None => {
            return None;
        },
    };
    let mut j: usize = 0;
    assert(conns@.skip(0) =~= conns@);
    while j < conns.len()
        invariant
            j <= conns.len(),
            lookup(node.input_connections@, input_name@) == Some(*conns),
            first_reader_varname(conns@, nodes@) == first_reader_varname(
                conns@.skip(j as int),
                nodes@,
            ),
        decreases conns.len() - j,
    {
        assert(conns@.skip(j as int)[0] == conns@[j as int]);
        assert(conns@.skip(j as int).drop_first() =~= conns@.skip(j as int + 1));
        match find_node_exec(nodes, conns[j].0.as_str()) {
            Some(up) => {
                if is_primvar_reader_node(up.identifier.as_str()) {
                    let v = token_param(up, "varname");
                    if v.is_some() {
                        return v;
                    }
                }
            },
            None => {},
        }
        j = j + 1;
    }
    None
}

/// The texture-coordinate primvar a texture node samples: its authored
/// `st` text, else the `varname` of a primvar reader connected to `st`,
/// else its authored `varname`, else `st`.
pub open spec fn spec_texture_coordinate_primvar(
    texture_node: MaterialNode,
    nodes: Seq<MaterialNode>,
) -> Seq<char> {
    match spec_token_param(texture_node, "st"@) {
        Some(v) => v,
        None => match spec_connected_primvar_name(texture_node, "st"@, nodes) {
            Some(v) => v,
            None => match spec_token_param(texture_node, "varname"@) {
                Some(v) => v,
                None => "st"@,
            },
        },
    }
}

/// The texture-coordinate primvar a texture node samples.
pub fn resolve_texture_coordinate_primvar(texture_node: &MaterialNode, nodes: &[MaterialNode]) -> (r:
    String)
    ensures
        r@ == spec_texture_coordinate_primvar(*texture_node, nodes@),
{
    if let Some(v) = token_param(texture_node, "st") {
        return v;
    }
    if let Some(v) = connected_primvar_name(texture_node, "st", nodes) {
        return v;
    }
    if let Some(v) = token_param(texture_node, "varname") {
        return v;
    }
    String::from_str("st")
}

/// A texture a material needs allocated: the accessor name in the shader
/// (`HdGet_<name>`), the asset path of the texture file, its kind, its
/// sampler, a memory request in bytes (0 for the default), whether it is
/// read through a texture prim, and that prim's path.
#[derive(Debug, Clone)]
pub struct TextureDescriptor {
    pub name: String,
    pub texture_id: String,
    pub texture_type: HdStTextureType,
    pub sampler_params: SamplerParams,
    pub memory_request: usize,
    pub use_texture_prim: bool,
    pub texture_prim: String,
}

/// The descriptor of a UV texture read from the file `file` for the input
/// `name`, with the default sampler and no texture prim.
pub open spec fn is_uv_texture_descriptor(d: TextureDescriptor, name: Seq<char>, file: Seq<char>) -> bool {
    &&& d.name@ == name
    &&& d.texture_id@ == file
    &&& d.texture_type is Uv
    &&& d.sampler_params == default_sampler_params()
    &&& d.memory_request == 0
    &&& !d.use_texture_prim
    &&& d.texture_prim@ == Seq::<char>::empty()
}

/// Repeat in both directions, trilinear minification, linear magnification.
pub open spec fn default_sampler_params() -> SamplerParams {
    SamplerParams {
        wrap_s: WrapMode::Repeat,
        wrap_t: WrapMode::Repeat,
        min_filter: FilterMode::LinearMipmapLinear,
        mag_filter: FilterMode::Linear,
    }
}

/// Descriptors matching, one for one, the (input name, file path) pairs.
pub open spec fn descriptors_match(ds: Seq<TextureDescriptor>, expected: Seq<(Seq<char>, Seq<char>)>) -> bool {
    &&& ds.len() == expected.len()
    &&& forall|i: int|
        0 <= i < ds.len() ==> is_uv_texture_descriptor(#[trigger] ds[i], expected[i].0, expected[i].1)
}

/// The parameter of a texture input sampled with `uv`.
pub open spec fn texture_param_view(input: Seq<char>, uv: Seq<char>) -> ParamView {
    ParamView {
        param_type: ParamType::Texture,
        name: input,
        fallback_value: FallbackValue::Vec4(texture_fallback_bits()),
        sampler_coords: seq![uv],
        texture_type: HdStTextureType::Uv,
        swizzle: Seq::empty(),
        is_premultiplied: false,
        array_of_textures_size: 0,
    }
}

/// The parameter of an input read from the primvar `primvar`.
pub open spec fn redirect_param_view(input: Seq<char>, primvar: Seq<char>, fallback: FallbackValue) -> ParamView {
    ParamView {
        param_type: ParamType::PrimvarRedirect,
        name: input,
        fallback_value: fallback,
        sampler_coords: seq![primvar],
        texture_type: HdStTextureType::Uv,
        swizzle: Seq::empty(),
        is_premultiplied: false,
        array_of_textures_size: 0,
    }
}

/// The fallback parameter of an input.
pub open spec fn fallback_param_view(input: Seq<char>, value: FallbackValue) -> ParamView {
    ParamView {
        param_type: ParamType::Fallback,
        name: input,
        fallback_value: value,
        sampler_coords: Seq::empty(),
        texture_type: HdStTextureType::Uv,
        swizzle: Seq::empty(),
        is_premultiplied: false,
        array_of_textures_size: 0,
    }
}

/// The file a texture node reads: its authored `file` text, or nothing.
pub open spec fn texture_file(node: MaterialNode) -> Seq<char> {
    match spec_token_param(node, "file"@) {
        Some(f) => f,
        None => Seq::empty(),
    }
}

/// The primvar a reader node reads: its authored `varname` text, or the
/// input's own name.
pub open spec fn redirect_primvar(reader: MaterialNode, input: Seq<char>) -> Seq<char> {
    match spec_token_param(reader, "varname"@) {
        Some(v) => v,
        None => input,
    }
}

/// What one connection of an input adds to the parameters: a texture
/// parameter for an upstream texture node, a primvar redirect for an
/// upstream primvar reader, nothing otherwise.
pub open spec fn connection_param_views(
    input: Seq<char>,
    value: FallbackValue,
    upstream_path: Seq<char>,
    nodes: Seq<MaterialNode>,
) -> Seq<ParamView> {
    match find_node(nodes, upstream_path) {
        Some(up) => if spec_is_texture_node(up.identifier@) {
            seq![texture_param_view(input, spec_texture_coordinate_primvar(up, nodes))]
        } else if spec_is_primvar_reader_node(up.identifier@) {
            seq![redirect_param_view(input, redirect_primvar(up, input), value)]
        } else {
            Seq::empty()
        },
        None => Seq::empty(),
    }
}

/// What one connection of an input adds to the texture descriptors: the
/// upstream texture node's file, when the upstream node is a texture.
pub open spec fn connection_textures(
    input: Seq<char>,
    upstream_path: Seq<char>,
    nodes: Seq<MaterialNode>,
) -> Seq<(Seq<char>, Seq<char>)> {
    match find_node(nodes, upstream_path) {
        Some(up) => if spec_is_texture_node(up.identifier@) {
            seq![(input, texture_file(up))]
        } else {
            Seq::empty()
        },
        None => Seq::empty(),
    }
}

/// The parameters contributed by connections, in order.
pub open spec fn connections_param_views(
    input: Seq<char>,
    value: FallbackValue,
    conns: Seq<(String, String)>,
    nodes: Seq<MaterialNode>,
) -> Seq<ParamView>
    decreases conns.len(),
{
    if conns.len() == 0 {
        Seq::empty()
    } else {
        connections_param_views(input, value, conns.drop_last(), nodes) + connection_param_views(
            input,
            value,
            conns.last().0@,
            nodes,
        )
    }
}

/// The texture descriptors contributed by connections, in order.
pub open spec fn connections_textures(
    input: Seq<char>,
    conns: Seq<(String, String)>,
    nodes: Seq<MaterialNode>,
) -> Seq<(Seq<char>, Seq<char>)>
    decreases conns.len(),
{
    if conns.len() == 0 {
        Seq::empty()
    } else {
        connections_textures(input, conns.drop_last(), nodes) + connection_textures(
            input,
            conns.last().0@,
            nodes,
        )
    }
}

/// The connections of a surface input, none when it has no entry.
pub open spec fn input_connections_of(surface: MaterialNode, input: Seq<char>) -> Seq<(String, String)> {
    match lookup(surface.input_connections@, input) {
        Some(conns) => conns@,
        None => Seq::empty(),
    }
}

/// What one authored surface parameter adds: the parameters of its
/// connections, then its own fallback parameter.
pub open spec fn input_param_views(
    surface: MaterialNode,
    nodes: Seq<MaterialNode>,
    entry: (String, FallbackValue),
) -> Seq<ParamView> {
    connections_param_views(entry.0@, entry.1, input_connections_of(surface, entry.0@), nodes)
        + seq![fallback_param_view(entry.0@, entry.1)]
}

/// The parameters extracted from the authored surface parameters, in order.
pub open spec fn extracted_param_views(
    surface: MaterialNode,
    nodes: Seq<MaterialNode>,
    entries: Seq<(String, FallbackValue)>,
) -> Seq<ParamView>
    decreases entries.len(),
{
    if entries.len() == 0 {
        Seq::empty()
    } else {
        extracted_param_views(surface, nodes, entries.drop_last()) + input_param_views(
            surface,
            nodes,
            entries.last(),
        )
    }
}

/// The texture descriptors extracted from the authored surface parameters.
pub open spec fn extracted_textures(
    surface: MaterialNode,
    nodes: Seq<MaterialNode>,
    entries: Seq<(String, FallbackValue)>,
) -> Seq<(Seq<char>, Seq<char>)>
    decreases entries.len(),
{
    if entries.len() == 0 {
        Seq::empty()
    } else {
        extracted_textures(surface, nodes, entries.drop_last()) + connections_textures(
            entries.last().0@,
            input_connections_of(surface, entries.last().0@),
            nodes,
        )
    }
}

/// An `f32`, given by its bits, is below 1.0: every negative value but NaN,
/// and every non-negative value under the bits of 1.0.
pub open spec fn f32_bits_below_one(b: u32) -> bool {
    if b >= 0x8000_0000 {
        b <= 0xff80_0000
    } else {
        b < 0x3f80_0000
    }
}

/// A surface is translucent when its authored opacity is a float below 1.0
/// or its opacity input is connected.
pub open spec fn spec_material_tag(surface: MaterialNode) -> Seq<char> {
    let authored_below_one = match lookup(surface.parameters@, "opacity"@) {
        Some(FallbackValue::Float(b)) => f32_bits_below_one(b),
        _ => false,
    };
    if authored_below_one || lookup(surface.input_connections@, "opacity"@) is Some {
        "translucent"@
    } else {
        "defaultMaterialTag"@
    }
}

/// The surface shader of a preview surface: it reads the preview-surface
/// inputs and leaves lighting to the lighting shader.
pub open spec fn preview_surface_wgsl() -> Seq<char> {
    "fn surfaceShader(N: vec3<f32>, V: vec3<f32>) -> vec4<f32> {\n    let diffuseColor = HdGet_diffuseColor();\n    let metallic = HdGet_metallic();\n    let roughness = HdGet_roughness();\n    let opacity = HdGet_opacity();\n    let emissiveColor = HdGet_emissiveColor();\n    // PBR evaluation delegated to lighting shader\n    return vec4<f32>(diffuseColor + emissiveColor, opacity);\n}\n"@
}

/// The surface shader of any other node: constant mid grey.
pub open spec fn generic_surface_wgsl() -> Seq<char> {
    "fn surfaceShader(N: vec3<f32>, V: vec3<f32>) -> vec4<f32> {\n    return vec4<f32>(0.18, 0.18, 0.18, 1.0);\n}\n"@
}

/// The generated surface shader for a surface node identifier.
pub open spec fn spec_surface_shader(id: Seq<char>) -> Seq<char> {
    "// Surface shader: "@ + id + "\n"@ + if id == "UsdPreviewSurface"@ {
        preview_surface_wgsl()
    } else {
        generic_surface_wgsl()
    }
}

/// The surface node of a network: the node at the terminal path when there
/// is one, else the last node.
pub open spec fn spec_surface_node(nodes: Seq<MaterialNode>, terminal: Option<Seq<char>>) -> Option<
    MaterialNode,
> {
    let found = match terminal {
        Some(t) => find_node(nodes, t),
        None => None,
    };
    match found {
        Some(n) => Some(n),
        None => if nodes.len() > 0 {
            Some(nodes.last())
        } else {
            None
        },
    }
}

/// A processed material network: its material tag, generated shader
/// sources, metadata, parameters and texture descriptors.
pub struct HdStMaterialNetwork {
    material_tag: String,
    fragment_source: String,
    volume_source: String,
    displacement_source: String,
    metadata: Vec<(String, String)>,
    material_params: Vec<HdStMaterialParam>,
    texture_descriptors: Vec<TextureDescriptor>,
}

impl HdStMaterialNetwork {
    /// The material tag.
    pub closed spec fn tag_view(&self) -> Seq<char> {
        self.material_tag@
    }

    /// The generated fragment source.
    pub closed spec fn fragment_view(&self) -> Seq<char> {
        self.fragment_source@
    }

    /// The generated volume source.
    pub closed spec fn volume_view(&self) -> Seq<char> {
        self.volume_source@
    }

    /// The generated displacement source.
    pub closed spec fn displacement_view(&self) -> Seq<char> {
        self.displacement_source@
    }

    /// The metadata entries.
    pub closed spec fn metadata_view(&self) -> Seq<(String, String)> {
        self.metadata@
    }

    /// The extracted parameters.
    pub closed spec fn params_view(&self) -> Seq<ParamView> {
        self.material_params@.map_values(|p: HdStMaterialParam| p@)
    }

    /// The texture descriptors.
    pub closed spec fn descriptors_view(&self) -> Seq<TextureDescriptor> {
        self.texture_descriptors@
    }

    /// An unprocessed network: default tag, no sources, parameters or
    /// textures.
    pub fn new() -> (n: Self)
        ensures
            n.tag_view() == "defaultMaterialTag"@,
            n.fragment_view() == Seq::<char>::empty(),
            n.volume_view() == Seq::<char>::empty(),
            n.displacement_view() == Seq::<char>::empty(),
            n.metadata_view() == Seq::<(String, String)>::empty(),
            n.params_view() == Seq::<ParamView>::empty(),
            n.descriptors_view() == Seq::<TextureDescriptor>::empty(),
    {
        let n = HdStMaterialNetwork {
            material_tag: String::from_str("defaultMaterialTag"),
            fragment_source: String::new(),
            volume_source: String::new(),
            displacement_source: String::new(),
            metadata: Vec::new(),
            material_params: Vec::new(),
            texture_descriptors: Vec::new(),
        };
        assert(n.params_view() =~= Seq::<ParamView>::empty());
        n
    }

    /// The material tag, for sorting into render passes.
    pub fn get_material_tag(&self) -> (t: &str)
        ensures
            t@ == self.tag_view(),
    {
        self.material_tag.as_str()
    }

    /// The generated fragment shader source.
    pub fn get_fragment_code(&self) -> (c: &str)
        ensures
            c@ == self.fragment_view(),
    {
        self.fragment_source.as_str()
    }

    /// The generated volume shader source.
    pub fn get_volume_code(&self) -> (c: &str)
        ensures
            c@ == self.volume_view(),
    {
        self.volume_source.as_str()
    }

    /// The generated displacement shader source.
    pub fn get_displacement_code(&self) -> (c: &str)
        ensures
            c@ == self.displacement_view(),
    {
        self.displacement_source.as_str()
    }

    /// The metadata entries.
    pub fn get_metadata(&self) -> (m: &Vec<(String, String)>)
        ensures
            m@ == self.metadata_view(),
    {
        &self.metadata
    }

    /// The extracted parameters.
    pub fn get_material_params(&self) -> (p: &[HdStMaterialParam])
        ensures
            p@.map_values(|q: HdStMaterialParam| q@) == self.params_view(),
    {
        self.material_params.as_slice()
    }

    /// The textures to allocate.
    pub fn get_texture_descriptors(&self) -> (d: &[TextureDescriptor])
        ensures
            d@ == self.descriptors_view(),
    {
        self.texture_descriptors.as_slice()
    }
}

proof fn lemma_push_views(ps: Seq<HdStMaterialParam>, p: HdStMaterialParam)
    ensures
        ps.push(p).map_values(|q: HdStMaterialParam| q@) == ps.map_values(
            |q: HdStMaterialParam| q@,
        ).push(p@),
{
    assert(ps.push(p).map_values(|q: HdStMaterialParam| q@) =~= ps.map_values(
        |q: HdStMaterialParam| q@,
    ).push(p@));
}

proof fn lemma_push_descriptor(
    ds: Seq<TextureDescriptor>,
    e: Seq<(Seq<char>, Seq<char>)>,
    d: TextureDescriptor,
    name: Seq<char>,
    file: Seq<char>,
)
    requires
        descriptors_match(ds, e),
        is_uv_texture_descriptor(d, name, file),
    ensures
        descriptors_match(ds.push(d), e.push((name, file))),
{
    assert forall|i: int| 0 <= i < ds.push(d).len() implies is_uv_texture_descriptor(
        #[trigger] ds.push(d)[i],
        e.push((name, file))[i].0,
        e.push((name, file))[i].1,
    ) by {
        if i < ds.len() {
            assert(ds.push(d)[i] == ds[i]);
            assert(e.push((name, file))[i] == e[i]);
        }
    }
}

impl HdStMaterialNetwork {
    /// Appends the texture parameter and descriptor of a texture input.
    fn add_texture_param(&mut self, input_name: &String, texture_node: &MaterialNode, nodes: &[MaterialNode])
        ensures
            final(self).params_view() == old(self).params_view().push(
                texture_param_view(input_name@, spec_texture_coordinate_primvar(*texture_node, nodes@)),
            ),
            final(self).descriptors_view().len() == old(self).descriptors_view().len() + 1,
            final(self).descriptors_view().drop_last() == old(self).descriptors_view(),
            is_uv_texture_descriptor(
                final(self).descriptors_view().last(),
                input_name@,
                texture_file(*texture_node),
            ),
            final(self).tag_view() == old(self).tag_view(),
            final(self).fragment_view() == old(self).fragment_view(),
            final(self).volume_view() == old(self).volume_view(),
            final(self).displacement_view() == old(self).displacement_view(),
            final(self).metadata_view() == old(self).metadata_view(),
    {
        let uv_primvar = resolve_texture_coordinate_primvar(texture_node, nodes);
        let ghost uv = uv_primvar@;
        let p = HdStMaterialParam::texture(input_name.clone(), uv_primvar);
        proof {
            lemma_push_views(self.material_params@, p);
            assert(p@.sampler_coords =~= seq![uv]);
            assert(p@ == texture_param_view(input_name@, uv));
        }
        self.material_params.push(p);
        let file_path = match token_param(texture_node, "file") {
            Some(f) => f,
            None => String::new(),
        };
        let d = TextureDescriptor {
            name: input_name.clone(),
            texture_id: file_path,
            texture_type: HdStTextureType::Uv,
            sampler_params: SamplerParams::default(),
            memory_request: 0,
            use_texture_prim: false,
            texture_prim: String::new(),
        };
        let ghost before = self.texture_descriptors@;
        self.texture_descriptors.push(d);
        assert(self.texture_descriptors@.drop_last() =~= before);
    }

    /// Appends the primvar-redirect parameter of an input read from a
    /// primvar reader.
    fn add_primvar_redirect(&mut self, input_name: &String, primvar_node: &MaterialNode, fallback: &FallbackValue)
        ensures
            final(self).params_view() == old(self).params_view().push(
                redirect_param_view(input_name@, redirect_primvar(*primvar_node, input_name@), *fallback),
            ),
            final(self).descriptors_view() == old(self).descriptors_view(),
            final(self).tag_view() == old(self).tag_view(),
            final(self).fragment_view() == old(self).fragment_view(),
            final(self).volume_view() == old(self).volume_view(),
            final(self).displacement_view() == old(self).displacement_view(),
            final(self).metadata_view() == old(self).metadata_view(),
    {
        let primvar_name = match token_param(primvar_node, "varname") {
            Some(v) => v,
            None => input_name.clone(),
        };
        let ghost pv = primvar_name@;
        let p = HdStMaterialParam::primvar_redirect(input_name.clone(), primvar_name, copy_fallback(fallback));
        proof {
            lemma_push_views(self.material_params@, p);
            assert(p@.sampler_coords =~= seq![pv]);
        }
        self.material_params.push(p);
    }
}

impl HdStMaterialNetwork {
    /// Appends, for each authored surface parameter in order, the parameters
    /// and textures of its connections, then its fallback parameter.
    fn extract_params(&mut self, surface: &MaterialNode, nodes: &[MaterialNode])
        requires
            old(self).params_view() == Seq::<ParamView>::empty(),
            old(self).descriptors_view() == Seq::<TextureDescriptor>::empty(),
        ensures
            final(self).params_view() == extracted_param_views(*surface, nodes@, surface.parameters@),
            descriptors_match(
                final(self).descriptors_view(),
                extracted_textures(*surface, nodes@, surface.parameters@),
            ),
            final(self).tag_view() == old(self).tag_view(),
            final(self).fragment_view() == old(self).fragment_view(),
            final(self).volume_view() == old(self).volume_view(),
            final(self).displacement_view() == old(self).displacement_view(),
            final(self).metadata_view() == old(self).metadata_view(),
    {
        let ghost entries = surface.parameters@;
        let mut i: usize = 0;
        assert(entries.take(0) =~= Seq::<(String, FallbackValue)>::empty());
        while i < surface.parameters.len()
            invariant
                i <= surface.parameters.len(),
                entries == surface.parameters@,
                self.params_view() == extracted_param_views(*surface, nodes@, entries.take(i as int)),
                descriptors_match(
                    self.descriptors_view(),
                    extracted_textures(*surface, nodes@, entries.take(i as int)),
                ),
                self.tag_view() == old(self).tag_view(),
                self.fragment_view() == old(self).fragment_view(),
                self.volume_view() == old(self).volume_view(),
                self.displacement_view() == old(self).displacement_view(),
                self.metadata_view() == old(self).metadata_view(),
            decreases surface.parameters.len() - i,
        {
            let entry = &surface.parameters[i];
            let ghost input = entry.0@;
            let ghost value = entry.1;
            let ghost base_p = self.params_view();
            let ghost base_t = extracted_textures(*surface, nodes@, entries.take(i as int));
            let ghost conns_seq = input_connections_of(*surface, input);
            match lookup_entry(&surface.input_connections, entry.0.as_str()) {
                Some(conns) => {
                    assert(conns_seq == conns@);
                    let mut j: usize = 0;
                    assert(conns@.take(0) =~= Seq::<(String, String)>::empty());
                    assert(base_t + Seq::<(Seq<char>, Seq<char>)>::empty() =~= base_t);
                    assert(base_p + Seq::<ParamView>::empty() =~= base_p);
                    while j < conns.len()
                        invariant
                            j <= conns.len(),
                            conns_seq == conns@,
                            entry == surface.parameters@[i as int],
                            input == entry.0@,
                            value == entry.1,
                            self.params_view() == base_p + connections_param_views(
                                input,
                                value,
                                conns@.take(j as int),
                                nodes@,
                            ),
                            descriptors_match(
                                self.descriptors_view(),
                                base_t + connections_textures(input, conns@.take(j as int), nodes@),
                            ),
                            self.tag_view() == old(self).tag_view(),
                            self.fragment_view() == old(self).fragment_view(),
                            self.volume_view() == old(self).volume_view(),
                            self.displacement_view() == old(self).displacement_view(),
                            self.metadata_view() == old(self).metadata_view(),
                        decreases conns.len() - j,
                    {
                        let ghost prev_p = self.params_view();
                        let ghost prev_t = base_t + connections_textures(input, conns@.take(j as int), nodes@);
                        let ghost upstream = conns@[j as int].0@;
                        proof {
                            let t = conns@.take(j as int + 1);
                            assert(t.drop_last() =~= conns@.take(j as int));
                            assert(t.last() == conns@[j as int]);
                            lemma_concat_associative(
                                base_p,
                                connections_param_views(input, value, conns@.take(j as int), nodes@),
                                connection_param_views(input, value, upstream, nodes@),
                            );
                            lemma_concat_associative(
                                base_t,
                                connections_textures(input, conns@.take(j as int), nodes@),
                                connection_textures(input, upstream, nodes@),
                            );
                        }
                        match find_node_exec(nodes, conns[j].0.as_str()) {
                            Some(up) => {
                                if is_texture_node(up.identifier.as_str()) {
                                    let ghost old_ds = self.descriptors_view();
                                    self.add_texture_param(&entry.0, up, nodes);
                                    proof {
                                        let ds = self.descriptors_view();
                                        assert(ds =~= old_ds.push(ds.last()));
                                        lemma_push_descriptor(old_ds, prev_t, ds.last(), input, texture_file(*up));
                                        assert(prev_t.push((input, texture_file(*up))) =~= prev_t + seq![(input, texture_file(*up))]);
                                        assert(prev_p.push(texture_param_view(input, spec_texture_coordinate_primvar(*up, nodes@))) =~= prev_p + seq![texture_param_view(input, spec_texture_coordinate_primvar(*up, nodes@))]);
                                    }
                                } else if is_primvar_reader_node(up.identifier.as_str()) {
                                    self.add_primvar_redirect(&entry.0, up, &entry.1);
                                    proof {
                                        assert(prev_t + Seq::<(Seq<char>, Seq<char>)>::empty() =~= prev_t);
                                        assert(prev_p.push(redirect_param_view(input, redirect_primvar(*up, input), value)) =~= prev_p + seq![redirect_param_view(input, redirect_primvar(*up, input), value)]);
                                    }
                                } else {
                                    proof {
                                        assert(prev_t + Seq::<(Seq<char>, Seq<char>)>::empty() =~= prev_t);
                                        assert(prev_p + Seq::<ParamView>::empty() =~= prev_p);
                                    }
                                }
                            },
                            None => {
                                proof {
                                    assert(prev_t + Seq::<(Seq<char>, Seq<char>)>::empty() =~= prev_t);
                                    assert(prev_p + Seq::<ParamView>::empty() =~= prev_p);
                                }
                            },
                        }
                        j = j + 1;
                    }
                    assert(conns@.take(conns.len() as int) =~= conns@);
                },
                None => {
                    assert(conns_seq =~= Seq::<(String, String)>::empty());
                    assert(base_t + Seq::<(Seq<char>, Seq<char>)>::empty() =~= base_t);
                    assert(base_p + Seq::<ParamView>::empty() =~= base_p);
                },
            }
            let ghost mid_p = self.params_view();
            let p = HdStMaterialParam::fallback(entry.0.clone(), copy_fallback(&entry.1));
            proof {
                lemma_push_views(self.material_params@, p);
                assert(p@.sampler_coords =~= Seq::<Seq<char>>::empty());
                assert(p@ == fallback_param_view(input, value));
            }
            self.material_params.push(p);
            proof {
                let t = entries.take(i as int + 1);
                assert(t.drop_last() =~= entries.take(i as int));
                assert(t.last() == entries[i as int]);
                assert(self.params_view() == mid_p.push(fallback_param_view(input, value)));
                lemma_concat_associative(
                    base_p,
                    connections_param_views(input, value, conns_seq, nodes@),
                    seq![fallback_param_view(input, value)],
                );
                assert(mid_p.push(fallback_param_view(input, value)) =~= mid_p + seq![fallback_param_view(input, value)]);
            }
            i = i + 1;
        }
        assert(entries.take(surface.parameters.len() as int) =~= entries);
    }
}

fn f32_bits_below_one_exec(b: u32) -> (r: bool)
    ensures
        r == f32_bits_below_one(b),
{
    if b >= 0x8000_0000 {
        b <= 0xff80_0000
    } else {
        b < 0x3f80_0000
    }
}

/// The material tag of a surface node.
fn determine_material_tag(surface: &MaterialNode) -> (t: String)
    ensures
        t@ == spec_material_tag(*surface),
{
    let below_one = match lookup_entry(&surface.parameters, "opacity") {
        Some(FallbackValue::Float(b)) => f32_bits_below_one_exec(*b),
        _ => false,
    };
    if below_one || lookup_entry(&surface.input_connections, "opacity").is_some() {
        String::from_str("translucent")
    } else {
        String::from_str("defaultMaterialTag")
    }
}

/// The surface shader generated for a surface node.
fn generate_surface_shader(surface: &MaterialNode) -> (src: String)
    ensures
        src@ == spec_surface_shader(surface.identifier@),
{
    let mut src = String::new();
    src.append("// Surface shader: ");
    src.append(surface.identifier.as_str());
    src.append("\n");
    if str_eq(surface.identifier.as_str(), "UsdPreviewSurface") {
        src.append(
            "fn surfaceShader(N: vec3<f32>, V: vec3<f32>) -> vec4<f32> {\n    let diffuseColor = HdGet_diffuseColor();\n    let metallic = HdGet_metallic();\n    let roughness = HdGet_roughness();\n    let opacity = HdGet_opacity();\n    let emissiveColor = HdGet_emissiveColor();\n    // PBR evaluation delegated to lighting shader\n    return vec4<f32>(diffuseColor + emissiveColor, opacity);\n}\n",
        );
    } else {
        src.append(
            "fn surfaceShader(N: vec3<f32>, V: vec3<f32>) -> vec4<f32> {\n    return vec4<f32>(0.18, 0.18, 0.18, 1.0);\n}\n",
        );
    }
    src
}

fn surface_node<'a>(nodes: &'a [MaterialNode], terminal_node: Option<&str>) -> (r: Option<&'a MaterialNode>)
    ensures
        match r {
            Some(n) => spec_surface_node(nodes@, terminal_view(terminal_node)) == Some(*n),
            None => spec_surface_node(nodes@, terminal_view(terminal_node)) is None,
        },
{
    let found = match terminal_node {
        Some(t) => find_node_exec(nodes, t),
        None => None,
    };
    match found {
        Some(n) => Some(n),
        None => if nodes.len() > 0 {
            Some(&nodes[nodes.len() - 1])
        } else {
            None
        },
    }
}

/// The terminal path, if given, by its characters.
pub open spec fn terminal_view(terminal_node: Option<&str>) -> Option<Seq<char>> {
    match terminal_node {
        Some(t) => Some(t@),
        None => None,
    }
}

impl HdStMaterialNetwork {
    /// Processes a network. The surface node is the node at the terminal
    /// path, or else the last node. Without one, the parameters, textures
    /// and fragment source are left empty and the tag unchanged. With one,
    /// the tag is that of the surface, the parameters and textures are
    /// extracted from its authored parameters in order, and the fragment
    /// source is its generated surface shader. Volume and displacement
    /// sources are not touched.
    pub fn process(&mut self, material_id: &str, nodes: &[MaterialNode], terminal_node: Option<&str>)
        ensures
            final(self).volume_view() == old(self).volume_view(),
            final(self).displacement_view() == old(self).displacement_view(),
            final(self).metadata_view() == old(self).metadata_view(),
            match spec_surface_node(nodes@, terminal_view(terminal_node)) {
                None => {
                    &&& final(self).params_view() == Seq::<ParamView>::empty()
                    &&& final(self).descriptors_view() == Seq::<TextureDescriptor>::empty()
                    &&& final(self).fragment_view() == Seq::<char>::empty()
                    &&& final(self).tag_view() == old(self).tag_view()
                },
                Some(surface) => {
                    &&& final(self).tag_view() == spec_material_tag(surface)
                    &&& final(self).params_view() == extracted_param_views(
                        surface,
                        nodes@,
                        surface.parameters@,
                    )
                    &&& descriptors_match(
                        final(self).descriptors_view(),
                        extracted_textures(surface, nodes@, surface.parameters@),
                    )
                    &&& final(self).fragment_view() == spec_surface_shader(surface.identifier@)
                },
            },
    {
        self.material_params.clear();
        self.texture_descriptors.clear();
        self.fragment_source = String::new();
        assert(self.params_view() =~= Seq::<ParamView>::empty());
        let surface = match surface_node(nodes, terminal_node) {
            Some(s) => s,
            None => {
                return;
            },
        };
        self.material_tag = determine_material_tag(surface);
        self.extract_params(surface, nodes);
        self.fragment_source = generate_surface_shader(surface);
    }
}

impl Default for HdStMaterialNetwork {
    fn default() -> (n: Self)
        ensures
            n.tag_view() == "defaultMaterialTag"@,
            n.fragment_view() == Seq::<char>::empty(),
            n.volume_view() == Seq::<char>::empty(),
            n.displacement_view() == Seq::<char>::empty(),
            n.metadata_view() == Seq::<(String, String)>::empty(),
            n.params_view() == Seq::<ParamView>::empty(),
            n.descriptors_view() == Seq::<TextureDescriptor>::empty(),
    {
        HdStMaterialNetwork::new()
    }
}

/// Names of the texture parameters, in order.
pub open spec fn texture_param_names(vs: Seq<ParamView>) -> Seq<Seq<char>>
    decreases vs.len(),
{
    if vs.len() == 0 {
        Seq::empty()
    } else {
        texture_param_names(vs.drop_last()) + if vs.last().param_type is Texture {
            seq![vs.last().name]
        } else {
            Seq::empty()
        }
    }
}

/// Input names of texture descriptors, in order.
pub open spec fn texture_input_names(ts: Seq<(Seq<char>, Seq<char>)>) -> Seq<Seq<char>> {
    ts.map_values(|t: (Seq<char>, Seq<char>)| t.0)
}

proof fn lemma_texture_param_names_add(a: Seq<ParamView>, b: Seq<ParamView>)
    ensures
        texture_param_names(a + b) == texture_param_names(a) + texture_param_names(b),
    decreases b.len(),
{
    if b.len() == 0 {
        assert(a + b =~= a);
        assert(texture_param_names(a) + texture_param_names(b) =~= texture_param_names(a));
    } else {
        assert((a + b).drop_last() =~= a + b.drop_last());
        assert((a + b).last() == b.last());
        lemma_texture_param_names_add(a, b.drop_last());
        let tail = if b.last().param_type is Texture {
            seq![b.last().name]
        } else {
            Seq::<Seq<char>>::empty()
        };
        lemma_concat_associative(texture_param_names(a), texture_param_names(b.drop_last()), tail);
    }
}

proof fn lemma_texture_input_names_add(a: Seq<(Seq<char>, Seq<char>)>, b: Seq<(Seq<char>, Seq<char>)>)
    ensures
        texture_input_names(a + b) == texture_input_names(a) + texture_input_names(b),
{
    assert(texture_input_names(a + b) =~= texture_input_names(a) + texture_input_names(b));
}

proof fn lemma_connections_texture_names(
    input: Seq<char>,
    value: FallbackValue,
    conns: Seq<(String, String)>,
    nodes: Seq<MaterialNode>,
)
    ensures
        texture_param_names(connections_param_views(input, value, conns, nodes))
            == texture_input_names(connections_textures(input, conns, nodes)),
    decreases conns.len(),
{
    if conns.len() == 0 {
        assert(texture_input_names(Seq::empty()) =~= Seq::<Seq<char>>::empty());
    } else {
        let path = conns.last().0@;
        lemma_connections_texture_names(input, value, conns.drop_last(), nodes);
        lemma_texture_param_names_add(
            connections_param_views(input, value, conns.drop_last(), nodes),
            connection_param_views(input, value, path, nodes),
        );
        lemma_texture_input_names_add(
            connections_textures(input, conns.drop_last(), nodes),
            connection_textures(input, path, nodes),
        );
        let one = connection_param_views(input, value, path, nodes);
        if one.len() == 1 {
            assert(one.drop_last() =~= Seq::<ParamView>::empty());
            assert(texture_param_names(Seq::<ParamView>::empty()) =~= Seq::<Seq<char>>::empty());
        } else {
            assert(one =~= Seq::<ParamView>::empty());
        }
        assert(texture_param_names(one) =~= texture_input_names(connection_textures(input, path, nodes)));
    }
}

/// Every texture parameter extracted from a surface has a texture
/// descriptor, and every descriptor a texture parameter: their input names
/// agree one for one, in order.
pub proof fn lemma_texture_params_match_descriptors(
    surface: MaterialNode,
    nodes: Seq<MaterialNode>,
    entries: Seq<(String, FallbackValue)>,
)
    ensures
        texture_param_names(extracted_param_views(surface, nodes, entries)) == texture_input_names(
            extracted_textures(surface, nodes, entries),
        ),
    decreases entries.len(),
{
    if entries.len() == 0 {
        assert(texture_input_names(Seq::empty()) =~= Seq::<Seq<char>>::empty());
    } else {
        let e = entries.last();
        let conns = input_connections_of(surface, e.0@);
        lemma_texture_params_match_descriptors(surface, nodes, entries.drop_last());
        lemma_connections_texture_names(e.0@, e.1, conns, nodes);
        let cp = connections_param_views(e.0@, e.1, conns, nodes);
        let fb = seq![fallback_param_view(e.0@, e.1)];
        lemma_texture_param_names_add(cp, fb);
        assert(fb.drop_last() =~= Seq::<ParamView>::empty());
        assert(texture_param_names(Seq::<ParamView>::empty()) =~= Seq::<Seq<char>>::empty());
        assert(texture_param_names(fb) =~= Seq::<Seq<char>>::empty());
        assert(texture_param_names(cp) + Seq::<Seq<char>>::empty() =~= texture_param_names(cp));
        lemma_texture_param_names_add(
            extracted_param_views(surface, nodes, entries.drop_last()),
            input_param_views(surface, nodes, e),
        );
        lemma_texture_input_names_add(
            extracted_textures(surface, nodes, entries.drop_last()),
            connections_textures(e.0@, conns, nodes),
        );
    }
}

} // verus!
