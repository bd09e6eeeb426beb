//! Registration data of the scene index that turns implicit surfaces
//! (sphere, cube, cone, cylinder, capsule, plane) into meshes, and the test
//! for which prim types it converts.

use vstd::prelude::*;
use crate::text::str_eq;

verus! {

/// Insertion phase: early, before most other scene indices.
pub const INSERTION_PHASE: u32 = 0;

/// Storm plugin display name.
pub const PLUGIN_DISPLAY_NAME: &'static str = "GL";

/// Prim types converted to meshes.
pub open spec fn spec_implicit_prim_types() -> Seq<Seq<char>> {
    seq!["sphere"@, "cube"@, "cone"@, "cylinder"@, "capsule"@, "plane"@]
}

/// Whether a prim type is an implicit surface that is converted.
pub fn is_implicit_type(prim_type: &str) -> (b: bool)
    ensures
        b == spec_implicit_prim_types().contains(prim_type@),
{
    let b = str_eq(prim_type, "sphere") || str_eq(prim_type, "cube") || str_eq(prim_type, "cone")
        || str_eq(prim_type, "cylinder") || str_eq(prim_type, "capsule") || str_eq(
        prim_type,
        "plane",
    );
    proof {
        let types = spec_implicit_prim_types();
        if b {
            if prim_type@ == "sphere"@ {
                assert(types[0] == prim_type@);
            } else if prim_type@ == "cube"@ {
                assert(types[1] == prim_type@);
            } else if prim_type@ == "cone"@ {
                assert(types[2] == prim_type@);
            } else if prim_type@ == "cylinder"@ {
                assert(types[3] == prim_type@);
            } else if prim_type@ == "capsule"@ {
                assert(types[4] == prim_type@);
            } else {
                assert(types[5] == prim_type@);
            }
        }
    }
    b
}

} // verus!
