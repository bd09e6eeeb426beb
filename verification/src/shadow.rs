//! Shadow-map limits shared by the lighting uniforms.

use vstd::prelude::*;

verus! {

/// Maximum number of shadow entries packed after the lights.
pub const MAX_SHADOWS: usize = 16;

} // verus!
