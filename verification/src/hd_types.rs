//! Hydra-side enumerations that the Storm logic reads: cull style, polygon
//! mode, and the element type / tuple type of buffer data.

use vstd::prelude::*;

verus! {

/// Face culling opinion of an rprim or of the render state.
#[derive(Debug, Clone, Copy, PartialEq, Eq, Hash, Structural)]
pub enum HdCullStyle {
    DontCare,
    Nothing,
    Back,
    Front,
    BackUnlessDoubleSided,
    FrontUnlessDoubleSided,
}

/// Rasterization polygon mode.
#[derive(Debug, Clone, Copy, PartialEq, Eq, Hash, Structural)]
pub enum HdPolygonMode {
    Fill,
    Line,
}

/// Element type of Hydra buffer data.
#[derive(Debug, Clone, Copy, PartialEq, Eq, Hash, Structural)]
pub enum HdType {
    Invalid,
    Bool,
    UInt8,
    UInt16,
    Int8,
    Int16,
    Int32,
    Int32Vec2,
    Int32Vec3,
    Int32Vec4,
    UInt32,
    UInt32Vec2,
    UInt32Vec3,
    UInt32Vec4,
    Float,
    FloatVec2,
    FloatVec3,
    FloatVec4,
    FloatMat3,
    FloatMat4,
    Double,
    DoubleVec2,
    DoubleVec3,
    DoubleVec4,
    DoubleMat3,
    DoubleMat4,
    HalfFloat,
    HalfFloatVec2,
    HalfFloatVec3,
    HalfFloatVec4,
    Int32_2_10_10_10_Rev,
}

/// An element type together with the number of elements per entry.
#[derive(Debug, Clone, Copy, PartialEq, Eq, Hash, Structural)]
pub struct HdTupleType {
    pub ty: HdType,
    pub count: usize,
}

impl HdTupleType {
    /// A tuple of `count` elements of type `ty`.
    pub fn new(ty: HdType, count: usize) -> (t: Self)
        ensures
            t.ty == ty,
            t.count == count,
    {
        HdTupleType { ty, count }
    }
}

} // verus!
