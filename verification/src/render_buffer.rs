//! Render-buffer formats that Storm exchanges with image I/O.

use vstd::prelude::*;

verus! {

/// Pixel format of a render buffer.
#[derive(Debug, Clone, Copy, PartialEq, Eq, Hash, Structural)]
pub enum HdFormat {
    UNorm8Vec4,
    UNorm8Vec3,
    Float16Vec4,
    Float32Vec4,
    Float32,
    Int32,
}

} // verus!
