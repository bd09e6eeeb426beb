//! Storm fields: which volume bprim types a field prim can hold, and the
//! field prim itself with the texture it loads.

use vstd::prelude::*;
use vstd::string::{StrSliceExecFns, StringExecFns};
use crate::text::str_eq;

verus! {

/// The bprim types of volume fields: OpenVDB and Field3D assets.
pub open spec fn spec_supported_bprim_types() -> Seq<Seq<char>> {
    seq!["openvdbAsset"@, "field3dAsset"@]
}

/// The bprim types a field prim supports, in order.
pub fn get_supported_bprim_types() -> (types: Vec<String>)
    ensures
        types@.map_values(|t: String| t@) == spec_supported_bprim_types(),
{
    let mut types: Vec<String> = Vec::new();
    types.push(String::from_str("openvdbAsset"));
    types.push(String::from_str("field3dAsset"));
    assert(types@.map_values(|t: String| t@) =~= spec_supported_bprim_types());
    types
}

/// Whether a field prim supports the bprim type.
pub fn is_supported_bprim_type(bprim_type: &str) -> (b: bool)
    ensures
        b == spec_supported_bprim_types().contains(bprim_type@),
{
    let r = str_eq(bprim_type, "openvdbAsset") || str_eq(bprim_type, "field3dAsset");
    proof {
        let s = spec_supported_bprim_types();
        if s.contains(bprim_type@) {
            let i = choose|i: int| 0 <= i < s.len() && s[i] == bprim_type@;
            assert(i == 0 || i == 1);
        }
        if r {
            if bprim_type@ == "openvdbAsset"@ {
                assert(s[0] == bprim_type@);
            } else {
                assert(s[1] == bprim_type@);
            }
        }
    }
    r
}

/// Field dirty bit: the transform changed.
pub const FIELD_DIRTY_TRANSFORM: u32 = 1;

/// Field dirty bit: the parameters changed.
pub const FIELD_DIRTY_PARAMS: u32 = 2;

/// Every field dirty bit.
pub const FIELD_ALL_DIRTY: u32 = 3;

/// What a field's texture is loaded from: the asset file and, once synced,
/// the name of the field (grid) within it.
#[derive(Debug, Clone)]
pub struct FieldTextureIdentifier {
    pub file_path: String,
    pub field_name: Option<String>,
}

/// A field prim's parameters as its scene delegate gives them: the file
/// asset as (authored path, resolved path) when the value is an asset
/// path, the field name when it is a token, and the texture memory in
/// bytes (the delegate's megabytes scaled by 2^20, computed outside the
/// library since it is a float).
#[derive(Debug, Clone)]
pub struct FieldParamValues {
    pub file_asset: Option<(String, String)>,
    pub field_name: Option<String>,
    pub texture_memory: usize,
}

/// The file a field loads: the resolved path of its asset, or the authored
/// one where nothing resolved, or nothing without an asset.
pub open spec fn spec_field_file(v: FieldParamValues) -> Seq<char> {
    match v.file_asset {
        Some((authored, resolved)) => if resolved@.len() > 0 {
            resolved@
        } else {
            authored@
        },
        None => Seq::empty(),
    }
}

/// The field name a field loads: the authored one, or the empty name.
pub open spec fn spec_field_name(v: FieldParamValues) -> Seq<char> {
    match v.field_name {
        Some(n) => n@,
        None => Seq::empty(),
    }
}

/// A Storm field prim (an OpenVDB or Field3D asset): its path, dirty bits,
/// field type, texture identifier and texture memory in bytes.
pub struct HdStField {
    id: String,
    dirty_bits: u32,
    field_type: String,
    texture_id: FieldTextureIdentifier,
    texture_memory: usize,
}

impl HdStField {
    pub closed spec fn id_view(&self) -> Seq<char> {
        self.id@
    }

    pub closed spec fn dirty_bits_view(&self) -> u32 {
        self.dirty_bits
    }

    pub closed spec fn field_type_view(&self) -> Seq<char> {
        self.field_type@
    }

    pub closed spec fn texture_id_view(&self) -> FieldTextureIdentifier {
        self.texture_id
    }

    pub closed spec fn texture_memory_view(&self) -> usize {
        self.texture_memory
    }

    /// A field at `id` of the given type, fully dirty, with no texture yet.
    pub fn new(id: String, field_type: String) -> (f: Self)
        ensures
            f.id_view() == id@,
            f.field_type_view() == field_type@,
            f.dirty_bits_view() == FIELD_ALL_DIRTY,
            f.texture_id_view().file_path@ == Seq::<char>::empty(),
            f.texture_id_view().field_name is None,
            f.texture_memory_view() == 0,
    {
        HdStField {
            id,
            dirty_bits: FIELD_ALL_DIRTY,
            field_type,
            texture_id: FieldTextureIdentifier { file_path: String::new(), field_name: None },
            texture_memory: 0,
        }
    }

    pub fn get_texture_identifier(&self) -> (t: &FieldTextureIdentifier)
        ensures
            *t == self.texture_id_view(),
    {
        &self.texture_id
    }

    pub fn get_texture_memory(&self) -> (m: usize)
        ensures
            m == self.texture_memory_view(),
    {
        self.texture_memory
    }

    pub fn get_field_type(&self) -> (t: &str)
        ensures
            t@ == self.field_type_view(),
    {
        self.field_type.as_str()
    }

    pub fn get_id(&self) -> (p: &str)
        ensures
            p@ == self.id_view(),
    {
        self.id.as_str()
    }

    pub fn get_dirty_bits(&self) -> (b: u32)
        ensures
            b == self.dirty_bits_view(),
    {
        self.dirty_bits
    }

    pub fn set_dirty_bits(&mut self, bits: u32)
        ensures
            final(self).dirty_bits_view() == bits,
            final(self).id_view() == old(self).id_view(),
            final(self).field_type_view() == old(self).field_type_view(),
            final(self).texture_id_view() == old(self).texture_id_view(),
            final(self).texture_memory_view() == old(self).texture_memory_view(),
    {
        self.dirty_bits = bits;
    }

    /// Syncs the field: when its parameters are dirty, the texture becomes
    /// the asset's file with the authored field name, and the texture
    /// memory the given size. Every dirty bit is then cleared, the field's
    /// and the caller's.
    pub fn sync(&mut self, dirty_bits: &mut u32, values: FieldParamValues)
        ensures
            *final(dirty_bits) == 0,
            final(self).dirty_bits_view() == 0,
            final(self).id_view() == old(self).id_view(),
            final(self).field_type_view() == old(self).field_type_view(),
            *old(dirty_bits) & FIELD_DIRTY_PARAMS != 0 ==> {
                &&& final(self).texture_id_view().file_path@ == spec_field_file(values)
                &&& final(self).texture_id_view().field_name matches Some(n) && n@
                    == spec_field_name(values)
                &&& final(self).texture_memory_view() == values.texture_memory
            },
            *old(dirty_bits) & FIELD_DIRTY_PARAMS == 0 ==> {
                &&& final(self).texture_id_view() == old(self).texture_id_view()
                &&& final(self).texture_memory_view() == old(self).texture_memory_view()
            },
    {
        if *dirty_bits & FIELD_DIRTY_PARAMS != 0 {
            let FieldParamValues { file_asset, field_name, texture_memory } = values;
            let file_path = match file_asset {
                Some((authored, resolved)) => if resolved.as_str().unicode_len() > 0 {
                    resolved
                } else {
                    authored
                },
                None => String::new(),
            };
            let name = match field_name {
                Some(n) => n,
                None => String::new(),
            };
            self.texture_id = FieldTextureIdentifier { file_path, field_name: Some(name) };
            self.texture_memory = texture_memory;
        }
        *dirty_bits = 0;
        self.dirty_bits = 0;
    }
}

} // verus!
