//! The material network shader: the sources, parameters, primvars, texture
//! handles and tag of a material as draw batches consume it, with cached
//! hashes; and the texture bindings extracted from a material.

use vstd::prelude::*;
use std::collections::hash_map::DefaultHasher;
use std::hash::Hasher;
use vstd::seq_lib::lemma_concat_associative;
use vstd::std_specs::hash::DefaultHasherAdditionalSpecFns;
use vstd::string::StringExecFns;
use crate::hash_input::{str_chunks, u64_bytes, write_str, write_u64, write_u8};
use crate::material_param::{copy_fallback, texts_hash_chunks, FallbackValue};
use crate::shader_code::{NamedTextureHandle, ShaderParameter, ShaderStage};
use crate::text::str_eq;

verus! {

/// Classification of a material shader parameter.
#[derive(Debug, Clone, Copy, PartialEq, Eq, Hash, Structural)]
pub enum ParamType {
    Fallback,
    Texture,
    PrimvarRedirect,
    AdditionalPrimvar,
    Transform2d,
    FieldRedirect,
}

/// Texture asset paths connected to the preview-surface inputs.
#[derive(Debug, Clone)]
pub struct TextureBindings {
    pub diffuse_tex: Option<String>,
    pub normal_tex: Option<String>,
    pub roughness_tex: Option<String>,
    pub metallic_tex: Option<String>,
    pub emissive_tex: Option<String>,
}

impl Default for TextureBindings {
    /// No texture bound.
    fn default() -> (t: Self)
        ensures
            t.diffuse_tex is None,
            t.normal_tex is None,
            t.roughness_tex is None,
            t.metallic_tex is None,
            t.emissive_tex is None,
    {
        TextureBindings {
            diffuse_tex: None,
            normal_tex: None,
            roughness_tex: None,
            metallic_tex: None,
            emissive_tex: None,
        }
    }
}

impl TextureBindings {
    /// Whether any texture is bound.
    pub fn has_any(&self) -> (b: bool)
        ensures
            b == (self.diffuse_tex is Some || self.normal_tex is Some || self.roughness_tex is Some
                || self.metallic_tex is Some || self.emissive_tex is Some),
    {
        self.diffuse_tex.is_some() || self.normal_tex.is_some() || self.roughness_tex.is_some()
            || self.metallic_tex.is_some() || self.emissive_tex.is_some()
    }
}

/// What extraction reads from a material: its uniform parameters, its
/// texture connections, and whether any parameter was authored. The
/// parameter block's layout belongs to the shader generator, so it is a
/// type parameter here.
#[derive(Debug, Clone)]
pub struct ExtractedMaterial<P> {
    pub params: P,
    pub textures: TextureBindings,
    pub is_authored: bool,
}

/// Position of a parameter kind in its declaration, as `as u8` gives it.
pub open spec fn param_type_byte(t: ParamType) -> u8 {
    match t {
        ParamType::Fallback => 0,
        ParamType::Texture => 1,
        ParamType::PrimvarRedirect => 2,
        ParamType::AdditionalPrimvar => 3,
        ParamType::Transform2d => 4,
        ParamType::FieldRedirect => 5,
    }
}

fn param_type_byte_exec(t: ParamType) -> (b: u8)
    ensures
        b == param_type_byte(t),
{
    match t {
        ParamType::Fallback => 0,
        ParamType::Texture => 1,
        ParamType::PrimvarRedirect => 2,
        ParamType::AdditionalPrimvar => 3,
        ParamType::Transform2d => 4,
        ParamType::FieldRedirect => 5,
    }
}

/// One material shader parameter: its kind, the name the shader reads it
/// by (`HdGet_<name>`), its fallback value, its sampler primvars, its
/// texture type, swizzle, premultiplication and texture array size.
#[derive(Debug, Clone)]
pub struct ShaderParam {
    pub param_type: ParamType,
    pub name: String,
    pub fallback_value: FallbackValue,
    pub sampler_coords: Vec<String>,
    pub texture_type: String,
    pub swizzle: String,
    pub is_premultiplied: bool,
    pub array_of_textures_size: usize,
}

/// A parameter with no swizzle, no premultiplication and no texture array.
pub open spec fn plain_shader_param(p: ShaderParam) -> bool {
    &&& p.swizzle@ == Seq::<char>::empty()
    &&& !p.is_premultiplied
    &&& p.array_of_textures_size == 0
}

impl ShaderParam {
    /// A constant parameter.
    pub fn new_fallback(name: String, value: FallbackValue) -> (p: Self)
        ensures
            p.param_type is Fallback,
            p.name == name,
            p.fallback_value == value,
            p.sampler_coords@ == Seq::<String>::empty(),
            p.texture_type@ == "uv"@,
            plain_shader_param(p),
    {
        ShaderParam {
            param_type: ParamType::Fallback,
            name,
            fallback_value: value,
            sampler_coords: Vec::new(),
            texture_type: String::from_str("uv"),
            swizzle: String::new(),
            is_premultiplied: false,
            array_of_textures_size: 0,
        }
    }

    /// A UV texture parameter.
    pub fn new_texture(name: String, fallback: FallbackValue, sampler_coords: Vec<String>) -> (p: Self)
        ensures
            p.param_type is Texture,
            p.name == name,
            p.fallback_value == fallback,
            p.sampler_coords == sampler_coords,
            p.texture_type@ == "uv"@,
            plain_shader_param(p),
    {
        ShaderParam {
            param_type: ParamType::Texture,
            name,
            fallback_value: fallback,
            sampler_coords,
            texture_type: String::from_str("uv"),
            swizzle: String::new(),
            is_premultiplied: false,
            array_of_textures_size: 0,
        }
    }

    /// A parameter read from primvars instead of a constant; it has no
    /// fallback value and no texture type.
    pub fn new_primvar_redirect(name: String, sampler_coords: Vec<String>) -> (p: Self)
        ensures
            p.param_type is PrimvarRedirect,
            p.name == name,
            p.fallback_value is NoValue,
            p.sampler_coords == sampler_coords,
            p.texture_type@ == Seq::<char>::empty(),
            plain_shader_param(p),
    {
        ShaderParam {
            param_type: ParamType::PrimvarRedirect,
            name,
            fallback_value: FallbackValue::NoValue,
            sampler_coords,
            texture_type: String::new(),
            swizzle: String::new(),
            is_premultiplied: false,
            array_of_textures_size: 0,
        }
    }

    pub fn is_texture(&self) -> (b: bool)
        ensures
            b == (self.param_type is Texture),
    {
        matches!(self.param_type, ParamType::Texture)
    }

    pub fn is_primvar_redirect(&self) -> (b: bool)
        ensures
            b == (self.param_type is PrimvarRedirect),
    {
        matches!(self.param_type, ParamType::PrimvarRedirect)
    }

    pub fn is_additional_primvar(&self) -> (b: bool)
        ensures
            b == (self.param_type is AdditionalPrimvar),
    {
        matches!(self.param_type, ParamType::AdditionalPrimvar)
    }

    /// Hash of a parameter list's signature: names, kinds, texture types
    /// and sampler primvars, in order.
    pub fn compute_hash(params: &[ShaderParam]) -> (h: u64)
        ensures
            h == DefaultHasher::spec_finish(shader_params_chunks(params@)),
    {
        let mut hasher = DefaultHasher::new();
        let mut i: usize = 0;
        while i < params.len()
            invariant
                i <= params.len(),
                hasher@ == shader_params_chunks(params@.take(i as int)),
            decreases params.len() - i,
        {
            let p = &params[i];
            let ghost start = hasher@;
            write_str(&mut hasher, p.name.as_str());
            write_u8(&mut hasher, param_type_byte_exec(p.param_type));
            write_str(&mut hasher, p.texture_type.as_str());
            let ghost before_coords = hasher@;
            let mut j: usize = 0;
            assert(p.sampler_coords@.take(0) =~= Seq::<String>::empty());
            assert(before_coords + Seq::<Seq<u8>>::empty() =~= before_coords);
            while j < p.sampler_coords.len()
                invariant
                    j <= p.sampler_coords.len(),
                    hasher@ == before_coords + texts_hash_chunks(p.sampler_coords@.take(j as int)),
                decreases p.sampler_coords.len() - j,
            {
                write_str(&mut hasher, p.sampler_coords[j].as_str());
                proof {
                    let ts = p.sampler_coords@.take(j as int + 1);
                    assert(ts.drop_last() =~= p.sampler_coords@.take(j as int));
                    assert(ts.last() == p.sampler_coords@[j as int]);
                    lemma_concat_associative(
                        before_coords,
                        texts_hash_chunks(p.sampler_coords@.take(j as int)),
                        str_chunks(p.sampler_coords@[j as int]@),
                    );
                }
                j = j + 1;
            }
            proof {
                assert(p.sampler_coords@.take(p.sampler_coords.len() as int) =~= p.sampler_coords@);
                assert(hasher@ =~= start + shader_param_chunks(*p));
                let ps = params@.take(i as int + 1);
                assert(ps.drop_last() =~= params@.take(i as int));
                assert(ps.last() == params@[i as int]);
            }
            i = i + 1;
        }
        assert(params@.take(params.len() as int) =~= params@);
        hasher.finish()
    }
}

/// The writes that hash one parameter's signature.
pub open spec fn shader_param_chunks(p: ShaderParam) -> Seq<Seq<u8>> {
    str_chunks(p.name@) + seq![seq![param_type_byte(p.param_type)]] + str_chunks(p.texture_type@)
        + texts_hash_chunks(p.sampler_coords@)
}

/// The writes that hash a parameter list's signature.
pub open spec fn shader_params_chunks(ps: Seq<ShaderParam>) -> Seq<Seq<u8>>
    decreases ps.len(),
{
    if ps.len() == 0 {
        Seq::empty()
    } else {
        shader_params_chunks(ps.drop_last()) + shader_param_chunks(ps.last())
    }
}

/// Primvars every material shader reads, whatever its parameters.
pub open spec fn extra_primvar_names() -> Seq<Seq<char>> {
    seq![
        "displayColor"@,
        "displayOpacity"@,
        "ptexFaceOffset"@,
        "displayMetallic"@,
        "displayRoughness"@,
        "hullColor"@,
        "hullOpacity"@,
        "scalarOverride"@,
        "selectedWeight"@,
        "indicatorColor"@,
        "indicatorWeight"@,
        "overrideColor"@,
        "overrideWireframeColor"@,
        "maskColor"@,
        "maskWeight"@,
        "wireframeColor"@,
    ]
}

/// The built-in fallback of a primvar the render passes read, if it has
/// one. Floating-point components are given by their bits.
pub open spec fn builtin_primvar_default(name: Seq<char>) -> Option<FallbackValue> {
    if name == "displayColor"@ {
        Some(FallbackValue::Vec3([0x3f80_0000u32, 0x3f80_0000u32, 0x3f80_0000u32]))
    } else if name == "displayOpacity"@ {
        Some(FallbackValue::Float(0x3f80_0000u32))
    } else if name == "ptexFaceOffset"@ {
        Some(FallbackValue::Int(0i32))
    } else if name == "displayMetallic"@ {
        Some(FallbackValue::Float(0u32))
    } else if name == "displayRoughness"@ {
        Some(FallbackValue::Float(0x3f80_0000u32))
    } else if name == "hullColor"@ {
        Some(FallbackValue::Vec3([0x3f80_0000u32, 0x3f80_0000u32, 0x3f80_0000u32]))
    } else if name == "hullOpacity"@ {
        Some(FallbackValue::Float(0x3f80_0000u32))
    } else if name == "scalarOverride"@ {
        Some(FallbackValue::Float(0x3f80_0000u32))
    } else if name == "selectedWeight"@ {
        Some(FallbackValue::Float(0u32))
    } else if name == "indicatorColor"@ {
        Some(FallbackValue::Vec4([0x3f80_0000u32, 0x3f80_0000u32, 0x3f80_0000u32, 0x3f80_0000u32]))
    } else if name == "indicatorWeight"@ {
        Some(FallbackValue::Float(0u32))
    } else if name == "overrideColor"@ {
        Some(FallbackValue::Vec4([0x3f80_0000u32, 0x3f80_0000u32, 0x3f80_0000u32, 0x3f80_0000u32]))
    } else if name == "maskColor"@ {
        Some(FallbackValue::Vec4([0x3f80_0000u32, 0x3f80_0000u32, 0x3f80_0000u32, 0x3f80_0000u32]))
    } else if name == "maskWeight"@ {
        Some(FallbackValue::Float(0u32))
    } else if name == "wireframeColor"@ {
        Some(FallbackValue::Vec4([0x3f80_0000u32, 0x3f80_0000u32, 0x3f80_0000u32, 0x3f80_0000u32]))
    } else if name == "scalarOverrideColorRamp"@ {
        Some(FallbackValue::NoValue)
    } else {
        None
    }
}

fn builtin_primvar_default_exec(name: &str) -> (v: Option<FallbackValue>)
    ensures
        v == builtin_primvar_default(name@),
{
    if str_eq(name, "displayColor") {
        Some(FallbackValue::Vec3([0x3f80_0000u32, 0x3f80_0000u32, 0x3f80_0000u32]))
    } else if str_eq(name, "displayOpacity") {
        Some(FallbackValue::Float(0x3f80_0000u32))
    } else if str_eq(name, "ptexFaceOffset") {
        Some(FallbackValue::Int(0i32))
    } else if str_eq(name, "displayMetallic") {
        Some(FallbackValue::Float(0u32))
    } else if str_eq(name, "displayRoughness") {
        Some(FallbackValue::Float(0x3f80_0000u32))
    } else if str_eq(name, "hullColor") {
        Some(FallbackValue::Vec3([0x3f80_0000u32, 0x3f80_0000u32, 0x3f80_0000u32]))
    } else if str_eq(name, "hullOpacity") {
        Some(FallbackValue::Float(0x3f80_0000u32))
    } else if str_eq(name, "scalarOverride") {
        Some(FallbackValue::Float(0x3f80_0000u32))
    } else if str_eq(name, "selectedWeight") {
        Some(FallbackValue::Float(0u32))
    } else if str_eq(name, "indicatorColor") {
        Some(FallbackValue::Vec4([0x3f80_0000u32, 0x3f80_0000u32, 0x3f80_0000u32, 0x3f80_0000u32]))
    } else if str_eq(name, "indicatorWeight") {
        Some(FallbackValue::Float(0u32))
    } else if str_eq(name, "overrideColor") {
        Some(FallbackValue::Vec4([0x3f80_0000u32, 0x3f80_0000u32, 0x3f80_0000u32, 0x3f80_0000u32]))
    } else if str_eq(name, "maskColor") {
        Some(FallbackValue::Vec4([0x3f80_0000u32, 0x3f80_0000u32, 0x3f80_0000u32, 0x3f80_0000u32]))
    } else if str_eq(name, "maskWeight") {
        Some(FallbackValue::Float(0u32))
    } else if str_eq(name, "wireframeColor") {
        Some(FallbackValue::Vec4([0x3f80_0000u32, 0x3f80_0000u32, 0x3f80_0000u32, 0x3f80_0000u32]))
    } else if str_eq(name, "scalarOverrideColorRamp") {
        Some(FallbackValue::NoValue)
    } else {
        None
    }
}

/// The sampler primvars of a parameter, by their characters.
pub open spec fn coords_view(p: ShaderParam) -> Seq<Seq<char>> {
    p.sampler_coords@.map_values(|c: String| c@)
}

/// The primvars a parameter reads: a redirect reads its own name and its
/// sampler primvars, a texture its sampler primvars, an additional primvar
/// its own name.
pub open spec fn param_primvar_names(p: ShaderParam) -> Seq<Seq<char>> {
    if p.param_type is PrimvarRedirect {
        seq![p.name@] + coords_view(p)
    } else if p.param_type is Texture {
        coords_view(p)
    } else if p.param_type is AdditionalPrimvar {
        seq![p.name@]
    } else {
        Seq::empty()
    }
}

/// The primvars a parameter list reads, parameter by parameter.
pub open spec fn params_primvar_names(ps: Seq<ShaderParam>) -> Seq<Seq<char>>
    decreases ps.len(),
{
    if ps.len() == 0 {
        Seq::empty()
    } else {
        params_primvar_names(ps.drop_last()) + param_primvar_names(ps.last())
    }
}

/// The primvars a shader with these parameters reads: the built-in ones,
/// then those of its parameters.
pub open spec fn spec_primvar_names(ps: Seq<ShaderParam>) -> Seq<Seq<char>> {
    extra_primvar_names() + params_primvar_names(ps)
}

/// The authored fallbacks of a parameter list: (name, value) of every
/// parameter whose fallback is set, in order.
pub open spec fn fallback_entries(ps: Seq<ShaderParam>) -> Seq<(Seq<char>, FallbackValue)>
    decreases ps.len(),
{
    if ps.len() == 0 {
        Seq::empty()
    } else {
        fallback_entries(ps.drop_last()) + if ps.last().fallback_value is NoValue {
            Seq::empty()
        } else {
            seq![(ps.last().name@, ps.last().fallback_value)]
        }
    }
}

/// The value of the last entry named `name`.
pub open spec fn lookup_last(entries: Seq<(Seq<char>, FallbackValue)>, name: Seq<char>) -> Option<
    FallbackValue,
>
    decreases entries.len(),
{
    if entries.len() == 0 {
        None
    } else if entries.last().0 == name {
        Some(entries.last().1)
    } else {
        lookup_last(entries.drop_last(), name)
    }
}

/// The fallback of a parameter: the last authored one of that name, else
/// the built-in one.
pub open spec fn spec_fallback_value(ps: Seq<ShaderParam>, name: Seq<char>) -> Option<FallbackValue> {
    match lookup_last(fallback_entries(ps), name) {
        Some(v) => Some(v),
        None => builtin_primvar_default(name),
    }
}

/// The writes that hash a shader: the signature hash of its parameters,
/// then its fragment and displacement sources.
pub open spec fn shader_hash_chunks(fragment: Seq<char>, displacement: Seq<char>, ps: Seq<ShaderParam>) -> Seq<Seq<u8>> {
    seq![u64_bytes(DefaultHasher::spec_finish(shader_params_chunks(ps)))] + str_chunks(fragment)
        + str_chunks(displacement)
}

/// The writes that hash a shader's textures: each handle's name and
/// content hash, in order.
pub open spec fn texture_hash_chunks(hs: Seq<NamedTextureHandle>) -> Seq<Seq<u8>>
    decreases hs.len(),
{
    if hs.len() == 0 {
        Seq::empty()
    } else {
        texture_hash_chunks(hs.drop_last()) + str_chunks(hs.last().name@) + seq![
            u64_bytes(hs.last().hash),
        ]
    }
}

fn collect_primvar_names(params: &[ShaderParam]) -> (names: Vec<String>)
    ensures
        names@.map_values(|s: String| s@) == spec_primvar_names(params@),
{
    let mut v: Vec<String> = Vec::new();
    v.push(String::from_str("displayColor"));
    v.push(String::from_str("displayOpacity"));
    v.push(String::from_str("ptexFaceOffset"));
    v.push(String::from_str("displayMetallic"));
    v.push(String::from_str("displayRoughness"));
    v.push(String::from_str("hullColor"));
    v.push(String::from_str("hullOpacity"));
    v.push(String::from_str("scalarOverride"));
    v.push(String::from_str("selectedWeight"));
    v.push(String::from_str("indicatorColor"));
    v.push(String::from_str("indicatorWeight"));
    v.push(String::from_str("overrideColor"));
    v.push(String::from_str("overrideWireframeColor"));
    v.push(String::from_str("maskColor"));
    v.push(String::from_str("maskWeight"));
    v.push(String::from_str("wireframeColor"));
    assert(v@.map_values(|s: String| s@) =~= extra_primvar_names());
    let mut i: usize = 0;
    assert(params@.take(0) =~= Seq::<ShaderParam>::empty());
    assert(extra_primvar_names() + Seq::<Seq<char>>::empty() =~= extra_primvar_names());
    while i < params.len()
        invariant
            i <= params.len(),
            v@.map_values(|s: String| s@) == extra_primvar_names() + params_primvar_names(
                params@.take(i as int),
            ),
        decreases params.len() - i,
    {
        let p = &params[i];
        let ghost before = v@.map_values(|s: String| s@);
        if p.is_primvar_redirect() {
            v.push(p.name.clone());
            push_all(&mut v, &p.sampler_coords);
            assert(before.push(p.name@) + coords_view(*p) =~= before + (seq![p.name@] + coords_view(*p)));
        } else if p.is_texture() {
            push_all(&mut v, &p.sampler_coords);
        } else if p.is_additional_primvar() {
            v.push(p.name.clone());
            assert(v@.map_values(|s: String| s@) =~= before + seq![p.name@]);
        } else {
            assert(before + Seq::<Seq<char>>::empty() =~= before);
        }
        proof {
            let ps = params@.take(i as int + 1);
            assert(ps.drop_last() =~= params@.take(i as int));
            assert(ps.last() == params@[i as int]);
            lemma_concat_associative(
                extra_primvar_names(),
                params_primvar_names(params@.take(i as int)),
                param_primvar_names(params@[i as int]),
            );
        }
        i = i + 1;
    }
    assert(params@.take(params.len() as int) =~= params@);
    v
}

fn push_all(v: &mut Vec<String>, more: &Vec<String>)
    ensures
        final(v)@.map_values(|s: String| s@) == old(v)@.map_values(|s: String| s@) + more@.map_values(
            |s: String| s@,
        ),
{
    let ghost start = v@.map_values(|s: String| s@);
    let mut k: usize = 0;
    while k < more.len()
        invariant
            k <= more.len(),
            v@.map_values(|s: String| s@) == start + more@.take(k as int).map_values(|s: String| s@),
        decreases more.len() - k,
    {
        let ghost before = v@;
        v.push(more[k].clone());
        assert(v@.map_values(|s: String| s@) =~= before.map_values(|s: String| s@).push(more@[k as int]@));
        assert(more@.take(k as int + 1).map_values(|s: String| s@) =~= more@.take(k as int).map_values(
            |s: String| s@,
        ).push(more@[k as int]@));
        assert(v@.map_values(|s: String| s@) =~= start + more@.take(k as int + 1).map_values(
            |s: String| s@,
        ));
        k = k + 1;
    }
    assert(more@.take(more.len() as int) =~= more@);
}

fn collect_fallbacks(params: &[ShaderParam]) -> (entries: Vec<(String, FallbackValue)>)
    ensures
        entries@.map_values(|e: (String, FallbackValue)| (e.0@, e.1)) == fallback_entries(params@),
{
    let mut v: Vec<(String, FallbackValue)> = Vec::new();
    let mut i: usize = 0;
    assert(params@.take(0) =~= Seq::<ShaderParam>::empty());
    assert(v@.map_values(|e: (String, FallbackValue)| (e.0@, e.1)) =~= Seq::<(Seq<char>, FallbackValue)>::empty());
    while i < params.len()
        invariant
            i <= params.len(),
            v@.map_values(|e: (String, FallbackValue)| (e.0@, e.1)) == fallback_entries(
                params@.take(i as int),
            ),
        decreases params.len() - i,
    {
        let p = &params[i];
        let ghost before = v@;
        if !matches!(p.fallback_value, FallbackValue::NoValue) {
            v.push((p.name.clone(), copy_fallback(&p.fallback_value)));
            assert(v@.map_values(|e: (String, FallbackValue)| (e.0@, e.1)) =~= before.map_values(
                |e: (String, FallbackValue)| (e.0@, e.1),
            ) + seq![(p.name@, p.fallback_value)]);
        } else {
            assert(before.map_values(|e: (String, FallbackValue)| (e.0@, e.1)) + Seq::<
                (Seq<char>, FallbackValue),
            >::empty() =~= before.map_values(|e: (String, FallbackValue)| (e.0@, e.1)));
        }
        proof {
            let ps = params@.take(i as int + 1);
            assert(ps.drop_last() =~= params@.take(i as int));
            assert(ps.last() == params@[i as int]);
        }
        i = i + 1;
    }
    assert(params@.take(params.len() as int) =~= params@);
    v
}

/// The material network shader that draw batches consume: fragment and
/// displacement sources, material parameters and the primvars they read,
/// named texture handles, primvar filtering, the material tag and the
/// extracted material parameters (whose layout belongs to the shader
/// generator, hence a type parameter), with cached hashes that any change
/// invalidates.
pub struct MaterialNetworkShader<P> {
    fragment_source: String,
    displacement_source: String,
    params: Vec<ShaderParam>,
    primvar_names: Vec<String>,
    named_texture_handles: Vec<NamedTextureHandle>,
    primvar_filtering_enabled: bool,
    material_tag: String,
    param_fallbacks: Vec<(String, FallbackValue)>,
    cached_hash: u64,
    hash_valid: bool,
    cached_tex_hash: u64,
    tex_hash_valid: bool,
    material_params: P,
}

impl<P> MaterialNetworkShader<P> {
    /// The primvar list and fallback table follow the parameters, and a
    /// cached hash is the hash of the current state.
    pub closed spec fn wf(&self) -> bool {
        &&& self.primvar_names@.map_values(|s: String| s@) == spec_primvar_names(self.params@)
        &&& self.param_fallbacks@.map_values(|e: (String, FallbackValue)| (e.0@, e.1))
            == fallback_entries(self.params@)
        &&& self.hash_valid ==> self.cached_hash == DefaultHasher::spec_finish(
            shader_hash_chunks(self.fragment_source@, self.displacement_source@, self.params@),
        )
        &&& self.tex_hash_valid ==> self.cached_tex_hash == DefaultHasher::spec_finish(
            texture_hash_chunks(self.named_texture_handles@),
        )
    }

    pub closed spec fn fragment_view(&self) -> Seq<char> {
        self.fragment_source@
    }

    pub closed spec fn displacement_view(&self) -> Seq<char> {
        self.displacement_source@
    }

    pub closed spec fn params_view(&self) -> Seq<ShaderParam> {
        self.params@
    }

    pub closed spec fn handles_view(&self) -> Seq<NamedTextureHandle> {
        self.named_texture_handles@
    }

    pub closed spec fn filtering_view(&self) -> bool {
        self.primvar_filtering_enabled
    }

    pub closed spec fn tag_view(&self) -> Seq<char> {
        self.material_tag@
    }

    pub closed spec fn material_params_view(&self) -> P {
        self.material_params
    }

    /// The shader's hash: the hash of its parameter signature and sources.
    pub open spec fn spec_hash(&self) -> u64 {
        DefaultHasher::spec_finish(
            shader_hash_chunks(self.fragment_view(), self.displacement_view(), self.params_view()),
        )
    }

    /// The hash of the shader's textures.
    pub open spec fn spec_texture_hash(&self) -> u64 {
        DefaultHasher::spec_finish(texture_hash_chunks(self.handles_view()))
    }

    /// Everything but the sources, parameters and cached hashes is as in
    /// `other`.
    pub open spec fn same_except_sources_and_params(&self, other: &Self) -> bool {
        &&& self.handles_view() == other.handles_view()
        &&& self.filtering_view() == other.filtering_view()
        &&& self.tag_view() == other.tag_view()
        &&& self.material_params_view() == other.material_params_view()
    }

    /// An empty shader, rendered with fallbacks until it is populated.
    pub fn new() -> (s: Self)
        where
            P: Default,
        ensures
            s.wf(),
            s.fragment_view() == Seq::<char>::empty(),
            s.displacement_view() == Seq::<char>::empty(),
            s.params_view() == Seq::<ShaderParam>::empty(),
            s.handles_view() == Seq::<NamedTextureHandle>::empty(),
            s.filtering_view(),
            s.tag_view() == "defaultMaterialTag"@,
    {
        let no_params: Vec<ShaderParam> = Vec::new();
        let primvar_names = collect_primvar_names(no_params.as_slice());
        let param_fallbacks = collect_fallbacks(no_params.as_slice());
        MaterialNetworkShader {
            fragment_source: String::new(),
            displacement_source: String::new(),
            params: no_params,
            primvar_names,
            named_texture_handles: Vec::new(),
            primvar_filtering_enabled: true,
            material_tag: String::from_str("defaultMaterialTag"),
            param_fallbacks,
            cached_hash: 0,
            hash_valid: false,
            cached_tex_hash: 0,
            tex_hash_valid: false,
            material_params: P::default(),
        }
    }

    /// Replaces the fragment source.
    pub fn set_fragment_source(&mut self, src: String)
        requires
            old(self).wf(),
        ensures
            final(self).wf(),
            final(self).fragment_view() == src@,
            final(self).displacement_view() == old(self).displacement_view(),
            final(self).params_view() == old(self).params_view(),
            final(self).same_except_sources_and_params(old(self)),
    {
        self.fragment_source = src;
        self.hash_valid = false;
    }

    /// Replaces the displacement source.
    pub fn set_displacement_source(&mut self, src: String)
        requires
            old(self).wf(),
        ensures
            final(self).wf(),
            final(self).displacement_view() == src@,
            final(self).fragment_view() == old(self).fragment_view(),
            final(self).params_view() == old(self).params_view(),
            final(self).same_except_sources_and_params(old(self)),
    {
        self.displacement_source = src;
        self.hash_valid = false;
    }

    /// The source of a stage: the fragment source, the displacement source
    /// in the geometry slot, nothing for other stages.
    pub fn get_source(&self, stage: ShaderStage) -> (src: &str)
        ensures
            src@ == match stage {
                ShaderStage::Fragment => self.fragment_view(),
                ShaderStage::Geometry => self.displacement_view(),
                _ => Seq::<char>::empty(),
            },
    {
        proof {
            reveal_strlit("");
        }
        match stage {
            ShaderStage::Fragment => self.fragment_source.as_str(),
            ShaderStage::Geometry => self.displacement_source.as_str(),
            _ => "",
        }
    }

    /// Replaces the parameters, rebuilding the fallback table and the
    /// primvar list.
    pub fn set_params(&mut self, params: Vec<ShaderParam>)
        requires
            old(self).wf(),
        ensures
            final(self).wf(),
            final(self).params_view() == params@,
            final(self).fragment_view() == old(self).fragment_view(),
            final(self).displacement_view() == old(self).displacement_view(),
            final(self).same_except_sources_and_params(old(self)),
    {
        self.param_fallbacks = collect_fallbacks(params.as_slice());
        self.primvar_names = collect_primvar_names(params.as_slice());
        self.params = params;
        self.hash_valid = false;
    }

    /// The parameters.
    pub fn get_params(&self) -> (ps: &[ShaderParam])
        ensures
            ps@ == self.params_view(),
    {
        self.params.as_slice()
    }

    /// The fallback of a parameter: the last authored one of that name,
    /// else the built-in fallback of the primvar.
    pub fn get_fallback_value(&self, name: &str) -> (v: Option<FallbackValue>)
        requires
            self.wf(),
        ensures
            v == spec_fallback_value(self.params_view(), name@),
    {
        let ghost entries = self.param_fallbacks@.map_values(|e: (String, FallbackValue)| (e.0@, e.1));
        let mut i: usize = self.param_fallbacks.len();
        assert(entries.take(i as int) =~= entries);
        while i > 0
            invariant
                i <= self.param_fallbacks.len(),
                entries == self.param_fallbacks@.map_values(|e: (String, FallbackValue)| (e.0@, e.1)),
                entries == fallback_entries(self.params@),
                lookup_last(entries, name@) == lookup_last(entries.take(i as int), name@),
            decreases i,
        {
            let e = &self.param_fallbacks[i - 1];
            proof {
                let t = entries.take(i as int);
                assert(t.last() == entries[i - 1]);
                assert(t.drop_last() =~= entries.take(i - 1));
                assert(entries[i - 1] == (e.0@, e.1));
            }
            if str_eq(e.0.as_str(), name) {
                return Some(copy_fallback(&e.1));
            }
            i = i - 1;
        }
        builtin_primvar_default_exec(name)
    }

    /// Turns primvar filtering on or off.
    pub fn set_primvar_filtering_enabled(&mut self, enabled: bool)
        requires
            old(self).wf(),
        ensures
            final(self).wf(),
            final(self).filtering_view() == enabled,
            final(self).fragment_view() == old(self).fragment_view(),
            final(self).displacement_view() == old(self).displacement_view(),
            final(self).params_view() == old(self).params_view(),
            final(self).handles_view() == old(self).handles_view(),
            final(self).tag_view() == old(self).tag_view(),
            final(self).material_params_view() == old(self).material_params_view(),
    {
        self.primvar_filtering_enabled = enabled;
    }

    pub fn is_primvar_filtering_enabled(&self) -> (b: bool)
        ensures
            b == self.filtering_view(),
    {
        self.primvar_filtering_enabled
    }

    /// The primvars the shader reads: the built-in ones, then those of its
    /// parameters.
    pub fn get_primvar_names(&self) -> (names: &[String])
        requires
            self.wf(),
        ensures
            names@.map_values(|s: String| s@) == spec_primvar_names(self.params_view()),
    {
        self.primvar_names.as_slice()
    }

    /// Replaces the named texture handles.
    pub fn set_named_texture_handles(&mut self, handles: Vec<NamedTextureHandle>)
        requires
            old(self).wf(),
        ensures
            final(self).wf(),
            final(self).handles_view() == handles@,
            final(self).fragment_view() == old(self).fragment_view(),
            final(self).displacement_view() == old(self).displacement_view(),
            final(self).params_view() == old(self).params_view(),
            final(self).filtering_view() == old(self).filtering_view(),
            final(self).tag_view() == old(self).tag_view(),
            final(self).material_params_view() == old(self).material_params_view(),
    {
        self.named_texture_handles = handles;
        self.tex_hash_valid = false;
    }

    pub fn get_named_texture_handles(&self) -> (hs: &[NamedTextureHandle])
        ensures
            hs@ == self.handles_view(),
    {
        self.named_texture_handles.as_slice()
    }

    /// Replaces the material tag.
    pub fn set_material_tag(&mut self, tag: String)
        requires
            old(self).wf(),
        ensures
            final(self).wf(),
            final(self).tag_view() == tag@,
            final(self).fragment_view() == old(self).fragment_view(),
            final(self).displacement_view() == old(self).displacement_view(),
            final(self).params_view() == old(self).params_view(),
            final(self).handles_view() == old(self).handles_view(),
            final(self).filtering_view() == old(self).filtering_view(),
            final(self).material_params_view() == old(self).material_params_view(),
    {
        self.material_tag = tag;
        self.hash_valid = false;
    }

    pub fn get_material_tag(&self) -> (t: &str)
        ensures
            t@ == self.tag_view(),
    {
        self.material_tag.as_str()
    }

    /// Replaces the extracted material parameters.
    pub fn set_material_params(&mut self, p: P)
        requires
            old(self).wf(),
        ensures
            final(self).wf(),
            final(self).material_params_view() == p,
            final(self).fragment_view() == old(self).fragment_view(),
            final(self).displacement_view() == old(self).displacement_view(),
            final(self).params_view() == old(self).params_view(),
            final(self).handles_view() == old(self).handles_view(),
            final(self).filtering_view() == old(self).filtering_view(),
            final(self).tag_view() == old(self).tag_view(),
    {
        self.material_params = p;
    }

    pub fn get_material_params(&self) -> (p: &P)
        ensures
            *p == self.material_params_view(),
    {
        &self.material_params
    }

    /// The shader's hash, computed once and cached until a source or the
    /// parameters change.
    pub fn compute_hash(&mut self) -> (h: u64)
        requires
            old(self).wf(),
        ensures
            final(self).wf(),
            h == old(self).spec_hash(),
            final(self).fragment_view() == old(self).fragment_view(),
            final(self).displacement_view() == old(self).displacement_view(),
            final(self).params_view() == old(self).params_view(),
            final(self).handles_view() == old(self).handles_view(),
            final(self).filtering_view() == old(self).filtering_view(),
            final(self).tag_view() == old(self).tag_view(),
            final(self).material_params_view() == old(self).material_params_view(),
    {
        if !self.hash_valid {
            self.cached_hash = self.compute_hash_impl();
            self.hash_valid = true;
        }
        self.cached_hash
    }

    fn compute_hash_impl(&self) -> (h: u64)
        ensures
            h == self.spec_hash(),
    {
        let mut hasher = DefaultHasher::new();
        write_u64(&mut hasher, ShaderParam::compute_hash(self.params.as_slice()));
        write_str(&mut hasher, self.fragment_source.as_str());
        write_str(&mut hasher, self.displacement_source.as_str());
        assert(hasher@ =~= shader_hash_chunks(
            self.fragment_source@,
            self.displacement_source@,
            self.params@,
        ));
        hasher.finish()
    }

    /// The hash of the textures, computed once and cached until the handles
    /// change.
    pub fn compute_texture_source_hash(&mut self) -> (h: u64)
        requires
            old(self).wf(),
        ensures
            final(self).wf(),
            h == old(self).spec_texture_hash(),
            final(self).fragment_view() == old(self).fragment_view(),
            final(self).displacement_view() == old(self).displacement_view(),
            final(self).params_view() == old(self).params_view(),
            final(self).handles_view() == old(self).handles_view(),
            final(self).filtering_view() == old(self).filtering_view(),
            final(self).tag_view() == old(self).tag_view(),
            final(self).material_params_view() == old(self).material_params_view(),
    {
        if !self.tex_hash_valid {
            self.cached_tex_hash = self.compute_tex_hash_impl();
            self.tex_hash_valid = true;
        }
        self.cached_tex_hash
    }

    fn compute_tex_hash_impl(&self) -> (h: u64)
        ensures
            h == self.spec_texture_hash(),
    {
        let mut hasher = DefaultHasher::new();
        let hs = &self.named_texture_handles;
        let mut i: usize = 0;
        assert(hs@.take(0) =~= Seq::<NamedTextureHandle>::empty());
        while i < hs.len()
            invariant
                i <= hs.len(),
                hasher@ == texture_hash_chunks(hs@.take(i as int)),
            decreases hs.len() - i,
        {
            write_str(&mut hasher, hs[i].name.as_str());
            write_u64(&mut hasher, hs[i].hash);
            proof {
                let t = hs@.take(i as int + 1);
                assert(t.drop_last() =~= hs@.take(i as int));
                assert(t.last() == hs@[i as int]);
            }
            i = i + 1;
        }
        assert(hs@.take(hs.len() as int) =~= hs@);
        hasher.finish()
    }

    /// Binds the named textures; textures are bound through bind groups
    /// when the draw batch is assembled, so there is nothing to do here.
    pub fn bind_resources(&self) {
    }

    /// Unbinds the named textures; nothing to do, as for binding.
    pub fn unbind_resources(&self) {
    }

    /// Adds custom binding requests for code generation; there are none.
    pub fn add_bindings(&self) {
    }

    /// Reloads the shader; its sources are set from outside, so there is
    /// nothing to reload.
    pub fn reload(&self) {
    }

    /// The parameters as code generation reads them: name and fallback.
    pub fn as_shader_parameters(&self) -> (sps: Vec<ShaderParameter>)
        ensures
            sps@.len() == self.params_view().len(),
            forall|i: int|
                0 <= i < sps@.len() ==> (#[trigger] sps@[i]).name == self.params_view()[i].name
                    && sps@[i].value == self.params_view()[i].fallback_value,
    {
        let mut out: Vec<ShaderParameter> = Vec::new();
        let mut i: usize = 0;
        while i < self.params.len()
            invariant
                i <= self.params.len(),
                out@.len() == i,
                forall|k: int|
                    0 <= k < i ==> (#[trigger] out@[k]).name == self.params@[k].name
                        && out@[k].value == self.params@[k].fallback_value,
            decreases self.params.len() - i,
        {
            let p = &self.params[i];
            out.push(ShaderParameter::new(p.name.clone(), copy_fallback(&p.fallback_value)));
            i = i + 1;
        }
        out
    }
}

impl<P: Default> Default for MaterialNetworkShader<P> {
    fn default() -> (s: Self)
        ensures
            s.wf(),
            s.fragment_view() == Seq::<char>::empty(),
            s.displacement_view() == Seq::<char>::empty(),
            s.params_view() == Seq::<ShaderParam>::empty(),
            s.handles_view() == Seq::<NamedTextureHandle>::empty(),
            s.filtering_view(),
            s.tag_view() == "defaultMaterialTag"@,
    {
        Self::new()
    }
}

/// The primvars every parameter reads are listed, after the built-in ones
/// that every shader lists whatever its parameters.
pub proof fn lemma_param_primvars_listed(ps: Seq<ShaderParam>, i: int, k: int)
    requires
        0 <= i < ps.len(),
        0 <= k < param_primvar_names(ps[i]).len(),
    ensures
        spec_primvar_names(ps).contains(param_primvar_names(ps[i])[k]),
        spec_primvar_names(ps).subrange(0, 16) == extra_primvar_names(),
    decreases ps.len(),
{
    let x = param_primvar_names(ps[i])[k];
    if i == ps.len() - 1 {
        let before = extra_primvar_names() + params_primvar_names(ps.drop_last());
        assert(spec_primvar_names(ps) =~= before + param_primvar_names(ps.last()));
        assert(spec_primvar_names(ps)[before.len() + k] == x);
    } else {
        lemma_param_primvars_listed(ps.drop_last(), i, k);
        assert(ps.drop_last()[i] == ps[i]);
        let j = choose|j: int| 0 <= j < spec_primvar_names(ps.drop_last()).len()
            && spec_primvar_names(ps.drop_last())[j] == x;
        assert(spec_primvar_names(ps) =~= spec_primvar_names(ps.drop_last()) + param_primvar_names(ps.last()));
        assert(spec_primvar_names(ps)[j] == x);
    }
    assert(spec_primvar_names(ps).subrange(0, 16) =~= extra_primvar_names());
}

/// The last authored fallback of a name wins over earlier ones and over
/// the built-in fallback.
pub proof fn lemma_last_authored_fallback_wins(ps: Seq<ShaderParam>, p: ShaderParam)
    requires
        !(p.fallback_value is NoValue),
    ensures
        spec_fallback_value(ps.push(p), p.name@) == Some(p.fallback_value),
{
    assert(ps.push(p).drop_last() =~= ps);
    let e = fallback_entries(ps.push(p));
    assert(e == fallback_entries(ps) + seq![(p.name@, p.fallback_value)]);
    assert(e.last() == (p.name@, p.fallback_value));
}

/// A parameter without a fallback leaves the fallbacks of every name as
/// they were.
pub proof fn lemma_unset_fallback_changes_nothing(ps: Seq<ShaderParam>, p: ShaderParam, name: Seq<char>)
    requires
        p.fallback_value is NoValue,
    ensures
        spec_fallback_value(ps.push(p), name) == spec_fallback_value(ps, name),
{
    assert(ps.push(p).drop_last() =~= ps);
    assert(fallback_entries(ps.push(p)) =~= fallback_entries(ps));
}

/// The shader hash depends on the sources and parameters alone: shaders
/// that agree in those hash alike, whatever their tags, textures or
/// filtering.
pub proof fn lemma_hash_follows_sources_and_params<P>(a: MaterialNetworkShader<P>, b: MaterialNetworkShader<P>)
    requires
        a.fragment_view() == b.fragment_view(),
        a.displacement_view() == b.displacement_view(),
        a.params_view() == b.params_view(),
    ensures
        a.spec_hash() == b.spec_hash(),
{
}

} // verus!
