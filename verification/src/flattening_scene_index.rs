//! Data sources that Storm's flattening scene index resolves through the
//! prim hierarchy.

use vstd::prelude::*;

verus! {

/// The flattened data source names, in order.
pub open spec fn spec_flattened_names() -> Seq<Seq<char>> {
    seq!["xform"@, "visibility"@, "purpose"@, "materialBindings"@, "primvars"@, "coordSys"@]
}

/// Names of the data sources the flattening scene index resolves from the
/// hierarchy.
pub fn flattened_names() -> (v: Vec<&'static str>)
    ensures
        v@.len() == 6,
        forall|i: int| 0 <= i < 6 ==> #[trigger] v@[i]@ == spec_flattened_names()[i],
{
    let mut v: Vec<&'static str> = Vec::new();
    v.push("xform");
    v.push("visibility");
    v.push("purpose");
    v.push("materialBindings");
    v.push("primvars");
    v.push("coordSys");
    v
}

} // verus!
