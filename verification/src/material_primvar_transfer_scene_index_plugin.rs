//! Registration data of the scene index that copies primvars authored on a
//! material onto the prims bound to it.

use vstd::prelude::*;

verus! {

/// Insertion phase: after the material network is resolved.
pub const INSERTION_PHASE: u32 = 3;

/// Storm plugin display name.
pub const PLUGIN_DISPLAY_NAME: &'static str = "GL";

} // verus!
