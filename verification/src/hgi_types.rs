//! Graphics-interface enumerations that the Storm logic produces: cull mode,
//! primitive topology and texel / vertex formats.

use vstd::prelude::*;

verus! {

/// Hardware face culling mode of a graphics pipeline.
#[derive(Debug, Clone, Copy, PartialEq, Eq, Hash, Structural)]
pub enum HgiCullMode {
    NoCull,
    Front,
    Back,
    FrontAndBack,
}

/// Primitive topology of a graphics pipeline.
#[derive(Debug, Clone, Copy, PartialEq, Eq, Hash, Structural)]
pub enum HgiPrimitiveType {
    PointList,
    LineList,
    LineStrip,
    TriangleList,
    PatchList,
    LineListWithAdjacency,
}

/// Texel and vertex-attribute formats of the graphics interface.
#[derive(Debug, Clone, Copy, PartialEq, Eq, Hash, Structural)]
pub enum HgiFormat {
    Invalid,
    UNorm8,
    UNorm8Vec2,
    UNorm8Vec4,
    SNorm8,
    SNorm8Vec2,
    SNorm8Vec4,
    Float16,
    Float16Vec2,
    Float16Vec3,
    Float16Vec4,
    Float32,
    Float32Vec2,
    Float32Vec3,
    Float32Vec4,
    Int16,
    Int16Vec2,
    Int16Vec3,
    Int16Vec4,
    UInt16,
    UInt16Vec2,
    UInt16Vec3,
    UInt16Vec4,
    Int32,
    Int32Vec2,
    Int32Vec3,
    Int32Vec4,
    UNorm8Vec4srgb,
    BC6FloatVec3,
    BC6UFloatVec3,
    BC7UNorm8Vec4,
    BC7UNorm8Vec4srgb,
    BC1UNorm8Vec4,
    BC3UNorm8Vec4,
    Float32UInt8,
    PackedInt1010102,
}

} // verus!
