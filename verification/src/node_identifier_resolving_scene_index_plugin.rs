//! Registration data of the scene index that resolves shader node
//! identifiers for the glslfx source type.

use vstd::prelude::*;

verus! {

/// Insertion phase: early, before most other scene indices.
pub const INSERTION_PHASE: u32 = 0;

/// Storm plugin display name.
pub const PLUGIN_DISPLAY_NAME: &'static str = "GL";

/// Shader source type whose node identifiers are resolved.
pub const SOURCE_TYPE: &'static str = "glslfx";

} // verus!
