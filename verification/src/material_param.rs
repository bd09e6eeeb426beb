//! Material parameters: the kind of a parameter, the kind of texture it
//! samples, its fallback value, and the structural hash of a parameter list.

use vstd::prelude::*;
use std::collections::hash_map::DefaultHasher;
use std::hash::Hasher;
use vstd::std_specs::hash::DefaultHasherAdditionalSpecFns;
use crate::hash_input::{
    flag_bytes, str_chunks, u64_bytes, variant_bytes, write_flag, write_str, write_u64,
    write_variant,
};

verus! {

/// Texture kind of a material parameter.
#[derive(Debug, Clone, Copy, PartialEq, Eq, Hash, Structural)]
pub enum HdStTextureType {
    Uv,
    Ptex,
    Udim,
    Field,
    Cubemap,
}

impl Default for HdStTextureType {
    fn default() -> (t: Self)
        ensures
            t is Uv,
    {
        HdStTextureType::Uv
    }
}

/// Kind of material parameter.
#[derive(Debug, Clone, Copy, PartialEq, Eq, Hash, Structural)]
pub enum ParamType {
    Fallback,
    Texture,
    PrimvarRedirect,
    FieldRedirect,
    AdditionalPrimvar,
    Transform2d,
}

impl Default for ParamType {
    fn default() -> (t: Self)
        ensures
            t is Fallback,
    {
        ParamType::Fallback
    }
}

/// Variant index of a texture kind.
pub open spec fn texture_type_index(t: HdStTextureType) -> u8 {
    match t {
        HdStTextureType::Uv => 0,
        HdStTextureType::Ptex => 1,
        HdStTextureType::Udim => 2,
        HdStTextureType::Field => 3,
        HdStTextureType::Cubemap => 4,
    }
}

/// Variant index of a parameter kind.
pub open spec fn param_type_index(t: ParamType) -> u8 {
    match t {
        ParamType::Fallback => 0,
        ParamType::Texture => 1,
        ParamType::PrimvarRedirect => 2,
        ParamType::FieldRedirect => 3,
        ParamType::AdditionalPrimvar => 4,
        ParamType::Transform2d => 5,
    }
}

fn texture_type_index_exec(t: HdStTextureType) -> (i: u8)
    ensures
        i == texture_type_index(t),
{
    match t {
        HdStTextureType::Uv => 0,
        HdStTextureType::Ptex => 1,
        HdStTextureType::Udim => 2,
        HdStTextureType::Field => 3,
        HdStTextureType::Cubemap => 4,
    }
}

fn param_type_index_exec(t: ParamType) -> (i: u8)
    ensures
        i == param_type_index(t),
{
    match t {
        ParamType::Fallback => 0,
        ParamType::Texture => 1,
        ParamType::PrimvarRedirect => 2,
        ParamType::FieldRedirect => 3,
        ParamType::AdditionalPrimvar => 4,
        ParamType::Transform2d => 5,
    }
}

/// Fallback value of a material parameter. Floating-point components are
/// held as their IEEE-754 bit patterns.
#[derive(Debug, Clone)]
pub enum FallbackValue {
    Float(u32),
    Vec2([u32; 2]),
    Vec3([u32; 3]),
    Vec4([u32; 4]),
    Int(i32),
    Bool(bool),
    String(String),
    Matrix(Box<[[u32; 4]; 4]>),
    /// No value.
    NoValue,
}

impl Default for FallbackValue {
    fn default() -> (v: Self)
        ensures
            v is NoValue,
    {
        FallbackValue::NoValue
    }
}

/// WGSL type of a fallback value; a text is passed as a `u32` handle and an
/// absent value as `f32`.
pub open spec fn spec_wgsl_type(v: FallbackValue) -> Seq<char> {
    match v {
        FallbackValue::Float(_) => "f32"@,
        FallbackValue::Vec2(_) => "vec2<f32>"@,
        FallbackValue::Vec3(_) => "vec3<f32>"@,
        FallbackValue::Vec4(_) => "vec4<f32>"@,
        FallbackValue::Int(_) => "i32"@,
        FallbackValue::Bool(_) => "bool"@,
        FallbackValue::String(_) => "u32"@,
        FallbackValue::Matrix(_) => "mat4x4<f32>"@,
        FallbackValue::NoValue => "f32"@,
    }
}

impl FallbackValue {
    /// The WGSL type of this value.
    pub fn wgsl_type(&self) -> (t: &'static str)
        ensures
            t@ == spec_wgsl_type(*self),
    {
        match self {
            FallbackValue::Float(_) => "f32",
            FallbackValue::Vec2(_) => "vec2<f32>",
            FallbackValue::Vec3(_) => "vec3<f32>",
            FallbackValue::Vec4(_) => "vec4<f32>",
            FallbackValue::Int(_) => "i32",
            FallbackValue::Bool(_) => "bool",
            FallbackValue::String(_) => "u32",
            FallbackValue::Matrix(_) => "mat4x4<f32>",
            FallbackValue::NoValue => "f32",
        }
    }
}

/// One parameter of a material: its kind, the name the shader reads it by
/// (`HdGet_<name>`), its fallback value, the primvars it samples with, its
/// texture kind, channel swizzle, premultiplication, and texture array size
/// (0 for a single texture).
#[derive(Debug, Clone)]
pub struct HdStMaterialParam {
    pub param_type: ParamType,
    pub name: String,
    pub fallback_value: FallbackValue,
    pub sampler_coords: Vec<String>,
    pub texture_type: HdStTextureType,
    pub swizzle: String,
    pub is_premultiplied: bool,
    pub array_of_textures_size: usize,
}

/// Bits of the fallback a texture parameter reads when unbound: opaque black.
pub open spec fn texture_fallback_bits() -> [u32; 4] {
    [0u32, 0u32, 0u32, 0x3f800000u32]
}

/// A parameter with no swizzle, no premultiplication and no texture array.
pub open spec fn plain_param(p: HdStMaterialParam) -> bool {
    &&& p.swizzle@ == Seq::<char>::empty()
    &&& !p.is_premultiplied
    &&& p.array_of_textures_size == 0
}

impl HdStMaterialParam {
    /// A fallback parameter holding `value`.
    pub fn fallback(name: String, value: FallbackValue) -> (p: Self)
        ensures
            p.param_type is Fallback,
            p.name == name,
            p.fallback_value == value,
            p.sampler_coords@ == Seq::<String>::empty(),
            p.texture_type is Uv,
            plain_param(p),
    {
        HdStMaterialParam {
            param_type: ParamType::Fallback,
            name,
            fallback_value: value,
            sampler_coords: Vec::new(),
            texture_type: HdStTextureType::Uv,
            swizzle: String::new(),
            is_premultiplied: false,
            array_of_textures_size: 0,
        }
    }

    /// A UV texture parameter sampled with the primvar `uv_primvar`; unbound,
    /// it reads opaque black.
    pub fn texture(name: String, uv_primvar: String) -> (p: Self)
        ensures
            p.param_type is Texture,
            p.name == name,
            p.fallback_value == FallbackValue::Vec4(texture_fallback_bits()),
            p.sampler_coords@ == seq![uv_primvar],
            p.texture_type is Uv,
            plain_param(p),
    {
        let mut coords: Vec<String> = Vec::new();
        coords.push(uv_primvar);
        HdStMaterialParam {
            param_type: ParamType::Texture,
            name,
            fallback_value: FallbackValue::Vec4([0, 0, 0, 0x3f800000]),
            sampler_coords: coords,
            texture_type: HdStTextureType::Uv,
            swizzle: String::new(),
            is_premultiplied: false,
            array_of_textures_size: 0,
        }
    }

    /// A parameter read from the primvar `primvar_name`, with `fallback` where
    /// the primvar is absent.
    pub fn primvar_redirect(name: String, primvar_name: String, fallback: FallbackValue) -> (p: Self)
        ensures
            p.param_type is PrimvarRedirect,
            p.name == name,
            p.fallback_value == fallback,
            p.sampler_coords@ == seq![primvar_name],
            p.texture_type is Uv,
            plain_param(p),
    {
        let mut coords: Vec<String> = Vec::new();
        coords.push(primvar_name);
        HdStMaterialParam {
            param_type: ParamType::PrimvarRedirect,
            name,
            fallback_value: fallback,
            sampler_coords: coords,
            texture_type: HdStTextureType::Uv,
            swizzle: String::new(),
            is_premultiplied: false,
            array_of_textures_size: 0,
        }
    }

    /// A parameter read from the volume field `field_name`, with `fallback`
    /// where the field is absent.
    pub fn field_redirect(name: String, field_name: String, fallback: FallbackValue) -> (p: Self)
        ensures
            p.param_type is FieldRedirect,
            p.name == name,
            p.fallback_value == fallback,
            p.sampler_coords@ == seq![field_name],
            p.texture_type is Field,
            plain_param(p),
    {
        let mut coords: Vec<String> = Vec::new();
        coords.push(field_name);
        HdStMaterialParam {
            param_type: ParamType::FieldRedirect,
            name,
            fallback_value: fallback,
            sampler_coords: coords,
            texture_type: HdStTextureType::Field,
            swizzle: String::new(),
            is_premultiplied: false,
            array_of_textures_size: 0,
        }
    }

    /// A primvar the material needs besides its inputs.
    pub fn additional_primvar(name: String) -> (p: Self)
        ensures
            p.param_type is AdditionalPrimvar,
            p.name == name,
            p.fallback_value is NoValue,
            p.sampler_coords@ == Seq::<String>::empty(),
            p.texture_type is Uv,
            plain_param(p),
    {
        HdStMaterialParam {
            param_type: ParamType::AdditionalPrimvar,
            name,
            fallback_value: FallbackValue::NoValue,
            sampler_coords: Vec::new(),
            texture_type: HdStTextureType::Uv,
            swizzle: String::new(),
            is_premultiplied: false,
            array_of_textures_size: 0,
        }
    }

    /// A 2D texture-coordinate transform applied to the primvar `uv_primvar`.
    pub fn transform2d(name: String, uv_primvar: String) -> (p: Self)
        ensures
            p.param_type is Transform2d,
            p.name == name,
            p.fallback_value is NoValue,
            p.sampler_coords@ == seq![uv_primvar],
            p.texture_type is Uv,
            plain_param(p),
    {
        let mut coords: Vec<String> = Vec::new();
        coords.push(uv_primvar);
        HdStMaterialParam {
            param_type: ParamType::Transform2d,
            name,
            fallback_value: FallbackValue::NoValue,
            sampler_coords: coords,
            texture_type: HdStTextureType::Uv,
            swizzle: String::new(),
            is_premultiplied: false,
            array_of_textures_size: 0,
        }
    }

    pub fn is_texture(&self) -> (b: bool)
        ensures
            b == (self.param_type is Texture),
    {
        matches!(self.param_type, ParamType::Texture)
    }

    pub fn is_primvar_redirect(&self) -> (b: bool)
        ensures
            b == (self.param_type is PrimvarRedirect),
    {
        matches!(self.param_type, ParamType::PrimvarRedirect)
    }

    pub fn is_field_redirect(&self) -> (b: bool)
        ensures
            b == (self.param_type is FieldRedirect),
    {
        matches!(self.param_type, ParamType::FieldRedirect)
    }

    pub fn is_fallback(&self) -> (b: bool)
        ensures
            b == (self.param_type is Fallback),
    {
        matches!(self.param_type, ParamType::Fallback)
    }

    pub fn is_additional_primvar(&self) -> (b: bool)
        ensures
            b == (self.param_type is AdditionalPrimvar),
    {
        matches!(self.param_type, ParamType::AdditionalPrimvar)
    }

    pub fn is_transform2d(&self) -> (b: bool)
        ensures
            b == (self.param_type is Transform2d),
    {
        matches!(self.param_type, ParamType::Transform2d)
    }

    /// A texture parameter that samples an array of textures.
    pub fn is_array_of_textures(&self) -> (b: bool)
        ensures
            b == (self.param_type is Texture && self.array_of_textures_size > 0),
    {
        self.is_texture() && self.array_of_textures_size > 0
    }

    /// The WGSL type of the parameter's value.
    pub fn get_wgsl_type(&self) -> (t: &'static str)
        ensures
            t@ == spec_wgsl_type(self.fallback_value),
    {
        self.fallback_value.wgsl_type()
    }
}

/// The writes that hash a list of texts, in order.
pub open spec fn texts_hash_chunks(ts: Seq<String>) -> Seq<Seq<u8>>
    decreases ts.len(),
{
    if ts.len() == 0 {
        Seq::empty()
    } else {
        texts_hash_chunks(ts.drop_last()) + str_chunks(ts.last()@)
    }
}

/// The writes that hash one parameter's structure: its kind, name, texture
/// kind, sampler primvars, swizzle, premultiplication and array size, but
/// not its fallback value.
pub open spec fn param_hash_chunks(p: HdStMaterialParam) -> Seq<Seq<u8>> {
    seq![variant_bytes(param_type_index(p.param_type))] + str_chunks(p.name@) + seq![
        variant_bytes(texture_type_index(p.texture_type)),
    ] + texts_hash_chunks(p.sampler_coords@) + str_chunks(p.swizzle@) + seq![
        flag_bytes(p.is_premultiplied),
        u64_bytes(p.array_of_textures_size as u64),
    ]
}

/// The writes that hash a parameter list, parameter by parameter.
pub open spec fn params_hash_chunks(ps: Seq<HdStMaterialParam>) -> Seq<Seq<u8>>
    decreases ps.len(),
{
    if ps.len() == 0 {
        Seq::empty()
    } else {
        params_hash_chunks(ps.drop_last()) + param_hash_chunks(ps.last())
    }
}

fn hash_param(hasher: &mut DefaultHasher, p: &HdStMaterialParam)
    ensures
        final(hasher)@ == old(hasher)@ + param_hash_chunks(*p),
{
    let ghost start = hasher@;
    write_variant(hasher, param_type_index_exec(p.param_type));
    write_str(hasher, p.name.as_str());
    write_variant(hasher, texture_type_index_exec(p.texture_type));
    let ghost before_coords = hasher@;
    let mut j: usize = 0;
    while j < p.sampler_coords.len()
        invariant
            j <= p.sampler_coords.len(),
            hasher@ == before_coords + texts_hash_chunks(p.sampler_coords@.take(j as int)),
        decreases p.sampler_coords.len() - j,
    {
        write_str(hasher, p.sampler_coords[j].as_str());
        proof {
            let ts = p.sampler_coords@.take(j as int + 1);
            assert(ts.drop_last() =~= p.sampler_coords@.take(j as int));
            assert(ts.last() == p.sampler_coords@[j as int]);
            vstd::seq_lib::lemma_concat_associative(
                before_coords,
                texts_hash_chunks(p.sampler_coords@.take(j as int)),
                str_chunks(p.sampler_coords@[j as int]@),
            );
        }
        j = j + 1;
    }
    assert(p.sampler_coords@.take(p.sampler_coords.len() as int) =~= p.sampler_coords@);
    write_str(hasher, p.swizzle.as_str());
    write_flag(hasher, p.is_premultiplied);
    write_u64(hasher, p.array_of_textures_size as u64);
    assert(hasher@ =~= start + param_hash_chunks(*p));
}

/// Structural hash of a parameter list: kinds, names, texture kinds, sampler
/// primvars, swizzles, premultiplication and array sizes, in order. Fallback
/// values are left out, since changing one needs no new shader.
pub fn compute_params_hash(params: &[HdStMaterialParam]) -> (h: u64)
    ensures
        h == DefaultHasher::spec_finish(params_hash_chunks(params@)),
{
    let mut hasher = DefaultHasher::new();
    let mut i: usize = 0;
    while i < params.len()
        invariant
            i <= params.len(),
            hasher@ == params_hash_chunks(params@.take(i as int)),
        decreases params.len() - i,
    {
        hash_param(&mut hasher, &params[i]);
        proof {
            let ps = params@.take(i as int + 1);
            assert(ps.drop_last() =~= params@.take(i as int));
            assert(ps.last() == params@[i as int]);
        }
        i = i + 1;
    }
    assert(params@.take(params.len() as int) =~= params@);
    hasher.finish()
}

/// Two parameters that agree in everything but their fallback values.
pub open spec fn same_structure(p: HdStMaterialParam, q: HdStMaterialParam) -> bool {
    &&& p.param_type == q.param_type
    &&& p.name == q.name
    &&& p.sampler_coords@ == q.sampler_coords@
    &&& p.texture_type == q.texture_type
    &&& p.swizzle == q.swizzle
    &&& p.is_premultiplied == q.is_premultiplied
    &&& p.array_of_textures_size == q.array_of_textures_size
}

/// Changing fallback values leaves the structural hash unchanged: lists
/// whose parameters agree in all but their fallbacks feed the hasher the
/// same writes.
pub proof fn lemma_params_hash_ignores_fallbacks(a: Seq<HdStMaterialParam>, b: Seq<HdStMaterialParam>)
    requires
        a.len() == b.len(),
        forall|i: int| 0 <= i < a.len() ==> same_structure(#[trigger] a[i], b[i]),
    ensures
        params_hash_chunks(a) == params_hash_chunks(b),
    decreases a.len(),
{
    if a.len() > 0 {
        let (a0, b0) = (a.drop_last(), b.drop_last());
        assert forall|i: int| 0 <= i < a0.len() implies same_structure(#[trigger] a0[i], b0[i]) by {
            assert(a0[i] == a[i]);
            assert(b0[i] == b[i]);
        }
        lemma_params_hash_ignores_fallbacks(a0, b0);
        assert(same_structure(a[a.len() - 1], b[b.len() - 1]));
        assert(param_hash_chunks(a.last()) == param_hash_chunks(b.last()));
    }
}

/// A parameter as its texts read: the same fields, with every text taken by
/// its characters.
pub struct ParamView {
    pub param_type: ParamType,
    pub name: Seq<char>,
    pub fallback_value: FallbackValue,
    pub sampler_coords: Seq<Seq<char>>,
    pub texture_type: HdStTextureType,
    pub swizzle: Seq<char>,
    pub is_premultiplied: bool,
    pub array_of_textures_size: usize,
}

impl View for HdStMaterialParam {
    type V = ParamView;

    open spec fn view(&self) -> ParamView {
        ParamView {
            param_type: self.param_type,
            name: self.name@,
            fallback_value: self.fallback_value,
            sampler_coords: self.sampler_coords@.map_values(|c: String| c@),
            texture_type: self.texture_type,
            swizzle: self.swizzle@,
            is_premultiplied: self.is_premultiplied,
            array_of_textures_size: self.array_of_textures_size,
        }
    }
}

/// An exact copy of a fallback value.
pub(crate) fn copy_fallback(v: &FallbackValue) -> (r: FallbackValue)
    ensures
        r == *v,
{
    match v {
        FallbackValue::Float(x) => FallbackValue::Float(*x),
        FallbackValue::Vec2(x) => FallbackValue::Vec2(*x),
        FallbackValue::Vec3(x) => FallbackValue::Vec3(*x),
        FallbackValue::Vec4(x) => FallbackValue::Vec4(*x),
        FallbackValue::Int(x) => FallbackValue::Int(*x),
        FallbackValue::Bool(x) => FallbackValue::Bool(*x),
        FallbackValue::String(x) => FallbackValue::String(x.clone()),
        FallbackValue::Matrix(m) => FallbackValue::Matrix(Box::new(**m)),
        FallbackValue::NoValue => FallbackValue::NoValue,
    }
}

} // verus!
