//! Storm mesh dirty bits, extending the rprim dirty bits with invalidation
//! flags for computed data.

use vstd::prelude::*;

verus! {

/// Smooth normals need recomputation.
pub const DIRTY_SMOOTH_NORMALS: u32 = 0x0100_0000;

/// Flat normals need recomputation.
pub const DIRTY_FLAT_NORMALS: u32 = 0x0200_0000;

/// The triangle index buffer is stale.
pub const DIRTY_INDICES: u32 = 0x0400_0000;

/// The hull (control cage) index buffer is stale.
pub const DIRTY_HULL_INDICES: u32 = 0x0800_0000;

/// The point index buffer is stale.
pub const DIRTY_POINTS_INDICES: u32 = 0x1000_0000;

} // verus!
