//! Layout shared between the frustum-culling compute pass and the draw
//! batches it writes indirect commands for.

use vstd::prelude::*;

verus! {

/// Number of `u32` words in one indirect draw command record.
pub const DRAW_CMD_NUM_UINTS: u32 = 15;

} // verus!
