//! Coarse shader-key classification used to pick a geometric shader
//! variant: the rasterized primitive kind and the geometric style.

use vstd::prelude::*;

verus! {

/// Rasterized primitive kind of a shader variant.
#[derive(Debug, Clone, Copy, PartialEq, Eq, Hash, Structural)]
pub enum PrimitiveType {
    Points,
    Lines,
    LineStrip,
    Triangles,
    Patches,
}

/// Geometric style of a shader variant.
#[derive(Debug, Clone, Copy, PartialEq, Eq, Hash, Structural)]
pub enum GeometricStyle {
    Points,
    Edges,
    Surface,
}

} // verus!
