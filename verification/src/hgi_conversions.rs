//! Conversions from Hydra element types and buffer formats to graphics
//! interface formats, with the byte size, component count and WGSL type of
//! each format.

use vstd::prelude::*;
use crate::hd_types::HdType;
use crate::hgi_types::HgiFormat;

verus! {

/// Hydra texture / buffer format.
#[derive(Debug, Clone, Copy, PartialEq, Eq, Hash, Structural)]
pub enum HdFormat {
    Invalid,
    UNorm8,
    UNorm8Vec2,
    UNorm8Vec3,
    UNorm8Vec4,
    SNorm8,
    SNorm8Vec2,
    SNorm8Vec3,
    SNorm8Vec4,
    Float16,
    Float16Vec2,
    Float16Vec3,
    Float16Vec4,
    Float32,
    Float32Vec2,
    Float32Vec3,
    Float32Vec4,
    UInt16,
    UInt16Vec2,
    UInt16Vec3,
    UInt16Vec4,
    UInt32,
    UInt32Vec2,
    UInt32Vec3,
    UInt32Vec4,
    Int16,
    Int16Vec2,
    Int16Vec3,
    Int16Vec4,
    Int32,
    Int32Vec2,
    Int32Vec3,
    Int32Vec4,
}

/// Graphics format of a Hydra element type (unsigned 32-bit integers map to
/// the signed formats of the same layout; types without a format map to
/// `Invalid`).
pub open spec fn spec_hd_type_to_hgi(ty: HdType) -> HgiFormat {
    match ty {
        HdType::Int32 | HdType::UInt32 => HgiFormat::Int32,
        HdType::HalfFloat => HgiFormat::Float16,
        HdType::Float => HgiFormat::Float32,
        HdType::Int32Vec2 | HdType::UInt32Vec2 => HgiFormat::Int32Vec2,
        HdType::HalfFloatVec2 => HgiFormat::Float16Vec2,
        HdType::FloatVec2 => HgiFormat::Float32Vec2,
        HdType::Int32Vec3 | HdType::UInt32Vec3 => HgiFormat::Int32Vec3,
        HdType::HalfFloatVec3 => HgiFormat::Float16Vec3,
        HdType::FloatVec3 => HgiFormat::Float32Vec3,
        HdType::Int32Vec4 | HdType::UInt32Vec4 => HgiFormat::Int32Vec4,
        HdType::HalfFloatVec4 => HgiFormat::Float16Vec4,
        HdType::FloatVec4 => HgiFormat::Float32Vec4,
        HdType::Int16 => HgiFormat::Int16,
        HdType::UInt16 => HgiFormat::UInt16,
        _ => HgiFormat::Invalid,
    }
}

/// Converts a Hydra element type to a vertex-attribute format.
pub fn hd_type_to_hgi(ty: HdType) -> (f: HgiFormat)
    ensures
        f == spec_hd_type_to_hgi(ty),
{
    match ty {
        HdType::Int32 | HdType::UInt32 => HgiFormat::Int32,
        HdType::HalfFloat => HgiFormat::Float16,
        HdType::Float => HgiFormat::Float32,
        HdType::Int32Vec2 | HdType::UInt32Vec2 => HgiFormat::Int32Vec2,
        HdType::HalfFloatVec2 => HgiFormat::Float16Vec2,
        HdType::FloatVec2 => HgiFormat::Float32Vec2,
        HdType::Int32Vec3 | HdType::UInt32Vec3 => HgiFormat::Int32Vec3,
        HdType::HalfFloatVec3 => HgiFormat::Float16Vec3,
        HdType::FloatVec3 => HgiFormat::Float32Vec3,
        HdType::Int32Vec4 | HdType::UInt32Vec4 => HgiFormat::Int32Vec4,
        HdType::HalfFloatVec4 => HgiFormat::Float16Vec4,
        HdType::FloatVec4 => HgiFormat::Float32Vec4,
        HdType::Int16 => HgiFormat::Int16,
        HdType::UInt16 => HgiFormat::UInt16,
        _ => HgiFormat::Invalid,
    }
}

/// Graphics format of a Hydra buffer format: three-channel 8-bit formats
/// are promoted to four channels, unsigned 32-bit integers map to signed.
pub open spec fn spec_hd_format_to_hgi(fmt: HdFormat) -> HgiFormat {
    match fmt {
        HdFormat::Invalid => HgiFormat::Invalid,
        HdFormat::UNorm8 => HgiFormat::UNorm8,
        HdFormat::UNorm8Vec2 => HgiFormat::UNorm8Vec2,
        HdFormat::UNorm8Vec3 => HgiFormat::UNorm8Vec4,
        HdFormat::UNorm8Vec4 => HgiFormat::UNorm8Vec4,
        HdFormat::SNorm8 => HgiFormat::SNorm8,
        HdFormat::SNorm8Vec2 => HgiFormat::SNorm8Vec2,
        HdFormat::SNorm8Vec3 => HgiFormat::SNorm8Vec4,
        HdFormat::SNorm8Vec4 => HgiFormat::SNorm8Vec4,
        HdFormat::Float16 => HgiFormat::Float16,
        HdFormat::Float16Vec2 => HgiFormat::Float16Vec2,
        HdFormat::Float16Vec3 => HgiFormat::Float16Vec3,
        HdFormat::Float16Vec4 => HgiFormat::Float16Vec4,
        HdFormat::Float32 => HgiFormat::Float32,
        HdFormat::Float32Vec2 => HgiFormat::Float32Vec2,
        HdFormat::Float32Vec3 => HgiFormat::Float32Vec3,
        HdFormat::Float32Vec4 => HgiFormat::Float32Vec4,
        HdFormat::UInt16 => HgiFormat::UInt16,
        HdFormat::UInt16Vec2 => HgiFormat::UInt16Vec2,
        HdFormat::UInt16Vec3 => HgiFormat::UInt16Vec3,
        HdFormat::UInt16Vec4 => HgiFormat::UInt16Vec4,
        HdFormat::UInt32 => HgiFormat::Int32,
        HdFormat::UInt32Vec2 => HgiFormat::Int32Vec2,
        HdFormat::UInt32Vec3 => HgiFormat::Int32Vec3,
        HdFormat::UInt32Vec4 => HgiFormat::Int32Vec4,
        HdFormat::Int16 => HgiFormat::Int16,
        HdFormat::Int16Vec2 => HgiFormat::Int16Vec2,
        HdFormat::Int16Vec3 => HgiFormat::Int16Vec3,
        HdFormat::Int16Vec4 => HgiFormat::Int16Vec4,
        HdFormat::Int32 => HgiFormat::Int32,
        HdFormat::Int32Vec2 => HgiFormat::Int32Vec2,
        HdFormat::Int32Vec3 => HgiFormat::Int32Vec3,
        HdFormat::Int32Vec4 => HgiFormat::Int32Vec4,
    }
}

/// Converts a Hydra buffer format to a texture / buffer format.
pub fn hd_format_to_hgi(fmt: HdFormat) -> (f: HgiFormat)
    ensures
        f == spec_hd_format_to_hgi(fmt),
{
    match fmt {
        HdFormat::Invalid => HgiFormat::Invalid,
        HdFormat::UNorm8 => HgiFormat::UNorm8,
        HdFormat::UNorm8Vec2 => HgiFormat::UNorm8Vec2,
        HdFormat::UNorm8Vec3 => HgiFormat::UNorm8Vec4,
        HdFormat::UNorm8Vec4 => HgiFormat::UNorm8Vec4,
        HdFormat::SNorm8 => HgiFormat::SNorm8,
        HdFormat::SNorm8Vec2 => HgiFormat::SNorm8Vec2,
        HdFormat::SNorm8Vec3 => HgiFormat::SNorm8Vec4,
        HdFormat::SNorm8Vec4 => HgiFormat::SNorm8Vec4,
        HdFormat::Float16 => HgiFormat::Float16,
        HdFormat::Float16Vec2 => HgiFormat::Float16Vec2,
        HdFormat::Float16Vec3 => HgiFormat::Float16Vec3,
        HdFormat::Float16Vec4 => HgiFormat::Float16Vec4,
        HdFormat::Float32 => HgiFormat::Float32,
        HdFormat::Float32Vec2 => HgiFormat::Float32Vec2,
        HdFormat::Float32Vec3 => HgiFormat::Float32Vec3,
        HdFormat::Float32Vec4 => HgiFormat::Float32Vec4,
        HdFormat::UInt16 => HgiFormat::UInt16,
        HdFormat::UInt16Vec2 => HgiFormat::UInt16Vec2,
        HdFormat::UInt16Vec3 => HgiFormat::UInt16Vec3,
        HdFormat::UInt16Vec4 => HgiFormat::UInt16Vec4,
        HdFormat::UInt32 => HgiFormat::Int32,
        HdFormat::UInt32Vec2 => HgiFormat::Int32Vec2,
        HdFormat::UInt32Vec3 => HgiFormat::Int32Vec3,
        HdFormat::UInt32Vec4 => HgiFormat::Int32Vec4,
        HdFormat::Int16 => HgiFormat::Int16,
        HdFormat::Int16Vec2 => HgiFormat::Int16Vec2,
        HdFormat::Int16Vec3 => HgiFormat::Int16Vec3,
        HdFormat::Int16Vec4 => HgiFormat::Int16Vec4,
        HdFormat::Int32 => HgiFormat::Int32,
        HdFormat::Int32Vec2 => HgiFormat::Int32Vec2,
        HdFormat::Int32Vec3 => HgiFormat::Int32Vec3,
        HdFormat::Int32Vec4 => HgiFormat::Int32Vec4,
    }
}

/// Byte size of one element of a format (0 for formats not listed).
pub open spec fn spec_hgi_format_byte_size(fmt: HgiFormat) -> usize {
    match fmt {
        HgiFormat::UNorm8 | HgiFormat::SNorm8 => 1,
        HgiFormat::UNorm8Vec2 | HgiFormat::SNorm8Vec2 => 2,
        HgiFormat::UNorm8Vec4 | HgiFormat::SNorm8Vec4 => 4,
        HgiFormat::Float16 | HgiFormat::Int16 | HgiFormat::UInt16 => 2,
        HgiFormat::Float16Vec2 | HgiFormat::Int16Vec2 | HgiFormat::UInt16Vec2 => 4,
        HgiFormat::Float16Vec3 | HgiFormat::Int16Vec3 | HgiFormat::UInt16Vec3 => 6,
        HgiFormat::Float16Vec4 | HgiFormat::Int16Vec4 | HgiFormat::UInt16Vec4 => 8,
        HgiFormat::Float32 | HgiFormat::Int32 => 4,
        HgiFormat::Float32Vec2 | HgiFormat::Int32Vec2 => 8,
        HgiFormat::Float32Vec3 | HgiFormat::Int32Vec3 => 12,
        HgiFormat::Float32Vec4 | HgiFormat::Int32Vec4 => 16,
        _ => 0,
    }
}

/// Byte size of one element of a format.
pub fn hgi_format_byte_size(fmt: HgiFormat) -> (n: usize)
    ensures
        n == spec_hgi_format_byte_size(fmt),
{
    match fmt {
        HgiFormat::UNorm8 | HgiFormat::SNorm8 => 1,
        HgiFormat::UNorm8Vec2 | HgiFormat::SNorm8Vec2 => 2,
        HgiFormat::UNorm8Vec4 | HgiFormat::SNorm8Vec4 => 4,
        HgiFormat::Float16 | HgiFormat::Int16 | HgiFormat::UInt16 => 2,
        HgiFormat::Float16Vec2 | HgiFormat::Int16Vec2 | HgiFormat::UInt16Vec2 => 4,
        HgiFormat::Float16Vec3 | HgiFormat::Int16Vec3 | HgiFormat::UInt16Vec3 => 6,
        HgiFormat::Float16Vec4 | HgiFormat::Int16Vec4 | HgiFormat::UInt16Vec4 => 8,
        HgiFormat::Float32 | HgiFormat::Int32 => 4,
        HgiFormat::Float32Vec2 | HgiFormat::Int32Vec2 => 8,
        HgiFormat::Float32Vec3 | HgiFormat::Int32Vec3 => 12,
        HgiFormat::Float32Vec4 | HgiFormat::Int32Vec4 => 16,
        _ => 0,
    }
}

/// WGSL type name of a format (`f32` for formats not listed).
pub open spec fn spec_hgi_format_to_wgsl(fmt: HgiFormat) -> Seq<char> {
    match fmt {
        HgiFormat::Float32 => "f32"@,
        HgiFormat::Float32Vec2 => "vec2<f32>"@,
        HgiFormat::Float32Vec3 => "vec3<f32>"@,
        HgiFormat::Float32Vec4 => "vec4<f32>"@,
        HgiFormat::Int32 => "i32"@,
        HgiFormat::Int32Vec2 => "vec2<i32>"@,
        HgiFormat::Int32Vec3 => "vec3<i32>"@,
        HgiFormat::Int32Vec4 => "vec4<i32>"@,
        HgiFormat::Float16 => "f16"@,
        HgiFormat::Float16Vec2 => "vec2<f16>"@,
        HgiFormat::Float16Vec3 => "vec3<f16>"@,
        HgiFormat::Float16Vec4 => "vec4<f16>"@,
        HgiFormat::UNorm8Vec4 | HgiFormat::SNorm8Vec4 => "vec4<f32>"@,
        _ => "f32"@,
    }
}

/// WGSL type name of a format, for shader generation.
pub fn hgi_format_to_wgsl(fmt: HgiFormat) -> (s: &'static str)
    ensures
        s@ == spec_hgi_format_to_wgsl(fmt),
{
    match fmt {
        HgiFormat::Float32 => "f32",
        HgiFormat::Float32Vec2 => "vec2<f32>",
        HgiFormat::Float32Vec3 => "vec3<f32>",
        HgiFormat::Float32Vec4 => "vec4<f32>",
        HgiFormat::Int32 => "i32",
        HgiFormat::Int32Vec2 => "vec2<i32>",
        HgiFormat::Int32Vec3 => "vec3<i32>",
        HgiFormat::Int32Vec4 => "vec4<i32>",
        HgiFormat::Float16 => "f16",
        HgiFormat::Float16Vec2 => "vec2<f16>",
        HgiFormat::Float16Vec3 => "vec3<f16>",
        HgiFormat::Float16Vec4 => "vec4<f16>",
        HgiFormat::UNorm8Vec4 | HgiFormat::SNorm8Vec4 => "vec4<f32>",
        _ => "f32",
    }
}

/// Number of components of a format (0 for formats not listed).
pub open spec fn spec_hgi_format_components(fmt: HgiFormat) -> u32 {
    match fmt {
        HgiFormat::Float32 | HgiFormat::Int32 | HgiFormat::Float16 | HgiFormat::Int16 | HgiFormat::UInt16 | HgiFormat::UNorm8 | HgiFormat::SNorm8 => 1,
        HgiFormat::Float32Vec2 | HgiFormat::Int32Vec2 | HgiFormat::Float16Vec2 | HgiFormat::Int16Vec2 | HgiFormat::UInt16Vec2 | HgiFormat::UNorm8Vec2 | HgiFormat::SNorm8Vec2 => 2,
        HgiFormat::Float32Vec3 | HgiFormat::Int32Vec3 | HgiFormat::Float16Vec3 | HgiFormat::Int16Vec3 | HgiFormat::UInt16Vec3 => 3,
        HgiFormat::Float32Vec4 | HgiFormat::Int32Vec4 | HgiFormat::Float16Vec4 | HgiFormat::Int16Vec4 | HgiFormat::UInt16Vec4 | HgiFormat::UNorm8Vec4 | HgiFormat::SNorm8Vec4 => 4,
        _ => 0,
    }
}

/// Number of components of a format.
pub fn hgi_format_components(fmt: HgiFormat) -> (n: u32)
    ensures
        n == spec_hgi_format_components(fmt),
{
    match fmt {
        HgiFormat::Float32 | HgiFormat::Int32 | HgiFormat::Float16 | HgiFormat::Int16 | HgiFormat::UInt16 | HgiFormat::UNorm8 | HgiFormat::SNorm8 => 1,
        HgiFormat::Float32Vec2 | HgiFormat::Int32Vec2 | HgiFormat::Float16Vec2 | HgiFormat::Int16Vec2 | HgiFormat::UInt16Vec2 | HgiFormat::UNorm8Vec2 | HgiFormat::SNorm8Vec2 => 2,
        HgiFormat::Float32Vec3 | HgiFormat::Int32Vec3 | HgiFormat::Float16Vec3 | HgiFormat::Int16Vec3 | HgiFormat::UInt16Vec3 => 3,
        HgiFormat::Float32Vec4 | HgiFormat::Int32Vec4 | HgiFormat::Float16Vec4 | HgiFormat::Int16Vec4 | HgiFormat::UInt16Vec4 | HgiFormat::UNorm8Vec4 | HgiFormat::SNorm8Vec4 => 4,
        _ => 0,
    }
}

/// Every Hydra buffer format converts to a format with a byte size, and
/// the converted format has at least as many components as the source
/// format has channels, so conversion never loses channels.
pub proof fn lemma_hd_format_conversion_sized(fmt: HdFormat)
    ensures
        !(fmt is Invalid) ==> spec_hgi_format_byte_size(spec_hd_format_to_hgi(fmt)) > 0,
        !(fmt is Invalid) ==> spec_hgi_format_components(spec_hd_format_to_hgi(fmt)) >= 1,
{
}

/// Formats with a byte size have components, and the size is a whole
/// number of bytes per component.
pub proof fn lemma_byte_size_per_component(fmt: HgiFormat)
    ensures
        spec_hgi_format_byte_size(fmt) > 0 <==> spec_hgi_format_components(fmt) > 0,
        spec_hgi_format_components(fmt) > 0 ==> spec_hgi_format_byte_size(fmt)
            % (spec_hgi_format_components(fmt) as usize) == 0,
{
}

/// Number of scalar components of a Hydra element type (a matrix counts
/// its entries; the packed 10-10-10-2 type is one word).
pub open spec fn hd_type_component_count(ty: HdType) -> nat {
    match ty {
        HdType::Invalid => 0,
        HdType::Int32Vec2 | HdType::UInt32Vec2 | HdType::FloatVec2 | HdType::DoubleVec2
        | HdType::HalfFloatVec2 => 2,
        HdType::Int32Vec3 | HdType::UInt32Vec3 | HdType::FloatVec3 | HdType::DoubleVec3
        | HdType::HalfFloatVec3 => 3,
        HdType::Int32Vec4 | HdType::UInt32Vec4 | HdType::FloatVec4 | HdType::DoubleVec4
        | HdType::HalfFloatVec4 => 4,
        HdType::FloatMat3 | HdType::DoubleMat3 => 9,
        HdType::FloatMat4 | HdType::DoubleMat4 => 16,
        _ => 1,
    }
}

/// Bytes of one scalar component of a Hydra element type.
pub open spec fn hd_type_component_bytes(ty: HdType) -> nat {
    match ty {
        HdType::Invalid => 0,
        HdType::Bool | HdType::UInt8 | HdType::Int8 => 1,
        HdType::UInt16 | HdType::Int16 | HdType::HalfFloat | HdType::HalfFloatVec2
        | HdType::HalfFloatVec3 | HdType::HalfFloatVec4 => 2,
        HdType::Double | HdType::DoubleVec2 | HdType::DoubleVec3 | HdType::DoubleVec4
        | HdType::DoubleMat3 | HdType::DoubleMat4 => 8,
        _ => 4,
    }
}

/// A Hydra element type is a floating-point type.
pub open spec fn hd_type_is_float(ty: HdType) -> bool {
    match ty {
        HdType::HalfFloat | HdType::HalfFloatVec2 | HdType::HalfFloatVec3 | HdType::HalfFloatVec4
        | HdType::Float | HdType::FloatVec2 | HdType::FloatVec3 | HdType::FloatVec4
        | HdType::FloatMat3 | HdType::FloatMat4 | HdType::Double | HdType::DoubleVec2
        | HdType::DoubleVec3 | HdType::DoubleVec4 | HdType::DoubleMat3 | HdType::DoubleMat4 => true,
        _ => false,
    }
}

/// A graphics format holds floating-point components.
pub open spec fn hgi_format_is_float(fmt: HgiFormat) -> bool {
    match fmt {
        HgiFormat::Float16 | HgiFormat::Float16Vec2 | HgiFormat::Float16Vec3 | HgiFormat::Float16Vec4
        | HgiFormat::Float32 | HgiFormat::Float32Vec2 | HgiFormat::Float32Vec3
        | HgiFormat::Float32Vec4 => true,
        _ => false,
    }
}

/// Exactly the scalar and vector types of 16- and 32-bit components have a
/// vertex format (not the packed 10-10-10-2 type), and that format holds
/// the type's data unchanged: as many components, as many bytes
/// (components times component size), and floating point exactly when the
/// type is.
pub proof fn lemma_hd_type_format_preserves_layout(ty: HdType)
    ensures
        !(spec_hd_type_to_hgi(ty) is Invalid) <==> (1 <= hd_type_component_count(ty) <= 4 && (
        hd_type_component_bytes(ty) == 2 || hd_type_component_bytes(ty) == 4) && ty
            != HdType::Int32_2_10_10_10_Rev),
        !(spec_hd_type_to_hgi(ty) is Invalid) ==> {
            &&& spec_hgi_format_components(spec_hd_type_to_hgi(ty)) as nat == hd_type_component_count(ty)
            &&& spec_hgi_format_byte_size(spec_hd_type_to_hgi(ty)) as nat == hd_type_component_count(ty)
                * hd_type_component_bytes(ty)
            &&& hgi_format_is_float(spec_hd_type_to_hgi(ty)) == hd_type_is_float(ty)
        },
{
}

/// Number of channels of a Hydra buffer format.
pub open spec fn hd_format_channels(fmt: HdFormat) -> nat {
    match fmt {
        HdFormat::Invalid => 0,
        HdFormat::UNorm8Vec2 | HdFormat::SNorm8Vec2 | HdFormat::Float16Vec2 | HdFormat::Float32Vec2
        | HdFormat::UInt16Vec2 | HdFormat::UInt32Vec2 | HdFormat::Int16Vec2 | HdFormat::Int32Vec2 => 2,
        HdFormat::UNorm8Vec3 | HdFormat::SNorm8Vec3 | HdFormat::Float16Vec3 | HdFormat::Float32Vec3
        | HdFormat::UInt16Vec3 | HdFormat::UInt32Vec3 | HdFormat::Int16Vec3 | HdFormat::Int32Vec3 => 3,
        HdFormat::UNorm8Vec4 | HdFormat::SNorm8Vec4 | HdFormat::Float16Vec4 | HdFormat::Float32Vec4
        | HdFormat::UInt16Vec4 | HdFormat::UInt32Vec4 | HdFormat::Int16Vec4 | HdFormat::Int32Vec4 => 4,
        _ => 1,
    }
}

/// Bytes of one channel of a Hydra buffer format.
pub open spec fn hd_format_channel_bytes(fmt: HdFormat) -> nat {
    match fmt {
        HdFormat::Invalid => 0,
        HdFormat::UNorm8 | HdFormat::UNorm8Vec2 | HdFormat::UNorm8Vec3 | HdFormat::UNorm8Vec4
        | HdFormat::SNorm8 | HdFormat::SNorm8Vec2 | HdFormat::SNorm8Vec3 | HdFormat::SNorm8Vec4 => 1,
        HdFormat::Float16 | HdFormat::Float16Vec2 | HdFormat::Float16Vec3 | HdFormat::Float16Vec4
        | HdFormat::UInt16 | HdFormat::UInt16Vec2 | HdFormat::UInt16Vec3 | HdFormat::UInt16Vec4
        | HdFormat::Int16 | HdFormat::Int16Vec2 | HdFormat::Int16Vec3 | HdFormat::Int16Vec4 => 2,
        _ => 4,
    }
}

/// A Hydra buffer format holds floating-point channels.
pub open spec fn hd_format_is_float(fmt: HdFormat) -> bool {
    match fmt {
        HdFormat::Float16 | HdFormat::Float16Vec2 | HdFormat::Float16Vec3 | HdFormat::Float16Vec4
        | HdFormat::Float32 | HdFormat::Float32Vec2 | HdFormat::Float32Vec3 | HdFormat::Float32Vec4 => true,
        _ => false,
    }
}

/// A Hydra buffer format holds normalized 8-bit channels, unsigned or
/// signed.
pub open spec fn hd_format_norm8(fmt: HdFormat) -> (bool, bool) {
    match fmt {
        HdFormat::UNorm8 | HdFormat::UNorm8Vec2 | HdFormat::UNorm8Vec3 | HdFormat::UNorm8Vec4 => (
            true,
            false,
        ),
        HdFormat::SNorm8 | HdFormat::SNorm8Vec2 | HdFormat::SNorm8Vec3 | HdFormat::SNorm8Vec4 => (
            false,
            true,
        ),
        _ => (false, false),
    }
}

/// A graphics format holds normalized 8-bit channels, unsigned or signed.
pub open spec fn hgi_format_norm8(fmt: HgiFormat) -> (bool, bool) {
    match fmt {
        HgiFormat::UNorm8 | HgiFormat::UNorm8Vec2 | HgiFormat::UNorm8Vec4 => (true, false),
        HgiFormat::SNorm8 | HgiFormat::SNorm8Vec2 | HgiFormat::SNorm8Vec4 => (false, true),
        _ => (false, false),
    }
}

/// A Hydra buffer format converts to a graphics format with the same
/// channel size and kind (float, normalized unsigned or signed 8-bit) and
/// as many channels, except that three 8-bit channels widen to four; its
/// byte size is its channel count times the channel size.
pub proof fn lemma_hd_format_preserves_channels(fmt: HdFormat)
    ensures
        !(fmt is Invalid) ==> {
            let g = spec_hd_format_to_hgi(fmt);
            &&& spec_hgi_format_components(g) as nat == if hd_format_channels(fmt) == 3
                && hd_format_channel_bytes(fmt) == 1 {
                4
            } else {
                hd_format_channels(fmt)
            }
            &&& spec_hgi_format_byte_size(g) as nat == spec_hgi_format_components(g) as nat
                * hd_format_channel_bytes(fmt)
            &&& hgi_format_is_float(g) == hd_format_is_float(fmt)
            &&& hgi_format_norm8(g) == hd_format_norm8(fmt)
        },
        fmt is Invalid ==> spec_hd_format_to_hgi(fmt) is Invalid,
{
}

/// The WGSL scalar of a 32-bit float, 32-bit integer or 16-bit float
/// format family, none for other formats.
pub open spec fn wgsl_scalar_of(fmt: HgiFormat) -> Option<Seq<char>> {
    match fmt {
        HgiFormat::Float32 | HgiFormat::Float32Vec2 | HgiFormat::Float32Vec3 | HgiFormat::Float32Vec4 => Some(
            "f32"@,
        ),
        HgiFormat::Int32 | HgiFormat::Int32Vec2 | HgiFormat::Int32Vec3 | HgiFormat::Int32Vec4 => Some(
            "i32"@,
        ),
        HgiFormat::Float16 | HgiFormat::Float16Vec2 | HgiFormat::Float16Vec3 | HgiFormat::Float16Vec4 => Some(
            "f16"@,
        ),
        _ => None,
    }
}

/// The digit of a vector width.
pub open spec fn width_digit(n: u32) -> Seq<char> {
    if n == 2 {
        "2"@
    } else if n == 3 {
        "3"@
    } else {
        "4"@
    }
}

/// The WGSL type of a float or integer format is its scalar for one
/// component and `vecN<scalar>` with `N` its component count otherwise.
pub proof fn lemma_wgsl_type_follows_components(fmt: HgiFormat)
    ensures
        wgsl_scalar_of(fmt) matches Some(sc) ==> spec_hgi_format_to_wgsl(fmt) == if spec_hgi_format_components(
            fmt,
        ) == 1 {
            sc
        } else {
            "vec"@ + width_digit(spec_hgi_format_components(fmt)) + "<"@ + sc + ">"@
        },
{
    reveal_strlit("f32");
    reveal_strlit("i32");
    reveal_strlit("f16");
    reveal_strlit("vec");
    reveal_strlit("2");
    reveal_strlit("3");
    reveal_strlit("4");
    reveal_strlit("<");
    reveal_strlit(">");
    reveal_strlit("vec2<f32>");
    reveal_strlit("vec3<f32>");
    reveal_strlit("vec4<f32>");
    reveal_strlit("vec2<i32>");
    reveal_strlit("vec3<i32>");
    reveal_strlit("vec4<i32>");
    reveal_strlit("vec2<f16>");
    reveal_strlit("vec3<f16>");
    reveal_strlit("vec4<f16>");
    let g = spec_hgi_format_to_wgsl(fmt);
    if wgsl_scalar_of(fmt) is Some && spec_hgi_format_components(fmt) != 1 {
        let sc = wgsl_scalar_of(fmt)->0;
        assert(g =~= "vec"@ + width_digit(spec_hgi_format_components(fmt)) + "<"@ + sc + ">"@);
    }
}

/// Bytes of one component of a graphics format: 8-, 16- or 32-bit
/// families (0 for formats without a listed layout).
pub open spec fn hgi_component_bytes(fmt: HgiFormat) -> nat {
    match fmt {
        HgiFormat::UNorm8 | HgiFormat::UNorm8Vec2 | HgiFormat::UNorm8Vec4 | HgiFormat::SNorm8
        | HgiFormat::SNorm8Vec2 | HgiFormat::SNorm8Vec4 => 1,
        HgiFormat::Float16 | HgiFormat::Float16Vec2 | HgiFormat::Float16Vec3 | HgiFormat::Float16Vec4
        | HgiFormat::Int16 | HgiFormat::Int16Vec2 | HgiFormat::Int16Vec3 | HgiFormat::Int16Vec4
        | HgiFormat::UInt16 | HgiFormat::UInt16Vec2 | HgiFormat::UInt16Vec3 | HgiFormat::UInt16Vec4 => 2,
        HgiFormat::Float32 | HgiFormat::Float32Vec2 | HgiFormat::Float32Vec3 | HgiFormat::Float32Vec4
        | HgiFormat::Int32 | HgiFormat::Int32Vec2 | HgiFormat::Int32Vec3 | HgiFormat::Int32Vec4 => 4,
        _ => 0,
    }
}

/// The byte size of a format is its component count times the bytes of
/// one component of its family.
pub proof fn lemma_byte_size_is_components_times_width(fmt: HgiFormat)
    ensures
        spec_hgi_format_byte_size(fmt) as nat == spec_hgi_format_components(fmt) as nat
            * hgi_component_bytes(fmt),
{
}

} // verus!
