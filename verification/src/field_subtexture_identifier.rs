//! Identifiers of a grid inside a volume file: by field name and index, and
//! for Field3D files also by partition purpose.

use vstd::prelude::*;

verus! {

/// Field (grid) name and index within a volume file.
#[derive(Debug, Clone, PartialEq, Eq, Hash)]
pub struct FieldBaseSubtextureIdentifier {
    /// Field or grid name within the file.
    pub field_name: String,
    /// Field or partition index.
    pub field_index: i32,
}

impl FieldBaseSubtextureIdentifier {
    /// An identifier of field `field_name` at `field_index`.
    pub fn new(field_name: String, field_index: i32) -> (id: Self)
        ensures
            id.field_name@ == field_name@,
            id.field_index == field_index,
    {
        FieldBaseSubtextureIdentifier { field_name, field_index }
    }
}

/// A grid of an OpenVDB file; the field name is the grid name.
#[derive(Debug, Clone, PartialEq, Eq, Hash)]
pub struct OpenVDBAssetSubtextureId {
    /// Field name and index.
    pub base: FieldBaseSubtextureIdentifier,
}

impl OpenVDBAssetSubtextureId {
    /// The grid `field_name` at `field_index`.
    pub fn new(field_name: String, field_index: i32) -> (id: Self)
        ensures
            id.base.field_name@ == field_name@,
            id.base.field_index == field_index,
    {
        OpenVDBAssetSubtextureId { base: FieldBaseSubtextureIdentifier::new(field_name, field_index) }
    }

    /// Grid name.
    pub fn field_name(&self) -> (n: &String)
        ensures
            n@ == self.base.field_name@,
    {
        &self.base.field_name
    }

    /// Field index.
    pub fn field_index(&self) -> (i: i32)
        ensures
            i == self.base.field_index,
    {
        self.base.field_index
    }
}

/// A layer of a Field3D file: layer name, partition index and partition
/// name.
#[derive(Debug, Clone, PartialEq, Eq, Hash)]
pub struct Field3DAssetSubtextureId {
    /// Layer name and partition index.
    pub base: FieldBaseSubtextureIdentifier,
    /// Partition name (grouping).
    pub field_purpose: String,
}

impl Field3DAssetSubtextureId {
    /// Layer `field_name`, partition `field_index`, grouping `field_purpose`.
    pub fn new(field_name: String, field_index: i32, field_purpose: String) -> (id: Self)
        ensures
            id.base.field_name@ == field_name@,
            id.base.field_index == field_index,
            id.field_purpose@ == field_purpose@,
    {
        Field3DAssetSubtextureId {
            base: FieldBaseSubtextureIdentifier::new(field_name, field_index),
            field_purpose,
        }
    }

    /// Layer name.
    pub fn field_name(&self) -> (n: &String)
        ensures
            n@ == self.base.field_name@,
    {
        &self.base.field_name
    }

    /// Partition index.
    pub fn field_index(&self) -> (i: i32)
        ensures
            i == self.base.field_index,
    {
        self.base.field_index
    }

    /// Partition name.
    pub fn field_purpose(&self) -> (p: &String)
        ensures
            p@ == self.field_purpose@,
    {
        &self.field_purpose
    }
}

} // verus!
