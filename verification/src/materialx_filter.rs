//! MaterialX node detection and the shader cache keyed by network hash.

use vstd::prelude::*;
use crate::text::{seq_starts_with, str_eq, str_starts_with};
use std::collections::HashMap;

verus! {

/// Preview-surface, texture, primvar-reader and transform identifiers that
/// never go through MaterialX.
pub open spec fn spec_is_usd_preview_node(id: Seq<char>) -> bool {
    id == "UsdPreviewSurface"@ || id == "ND_usd_preview_surface_surfaceshader"@ || id
        == "UsdUVTexture"@ || id == "ND_image_color3"@ || id == "ND_image_color4"@ || id
        == "ND_image_float"@ || id == "ND_image_vector3"@ || id == "UsdPrimvarReader_float"@ || id
        == "UsdPrimvarReader_float2"@ || id == "UsdPrimvarReader_float3"@ || id
        == "UsdPrimvarReader_float4"@ || id == "UsdPrimvarReader_int"@ || id
        == "UsdPrimvarReader_string"@ || id == "UsdPrimvarReader_normal"@ || id
        == "UsdPrimvarReader_point"@ || id == "UsdPrimvarReader_vector"@ || id
        == "UsdPtexTexture"@ || id == "UsdTransform2d"@
}

/// Known MaterialX surface shader categories.
pub open spec fn spec_is_mtlx_surface(id: Seq<char>) -> bool {
    id == "standard_surface"@ || id == "standard_surface_surfaceshader"@ || id
        == "open_pbr_surface"@ || id == "open_pbr_surface_surfaceshader"@ || id == "gltf_pbr"@
        || id == "gltf_pbr_surfaceshader"@ || id == "lama"@ || id == "UsdMtlxSurface"@
}

/// A node is a MaterialX node: not a USD preview node, and either an `ND_`
/// node definition or a known MaterialX surface shader.
pub open spec fn spec_is_materialx_node(id: Seq<char>) -> bool {
    !spec_is_usd_preview_node(id) && (seq_starts_with(id, "ND_"@) || spec_is_mtlx_surface(id))
}

/// Whether `id` names a USD preview, texture, primvar-reader or transform node.
fn is_usd_preview_node(id: &str) -> (b: bool)
    ensures
        b == spec_is_usd_preview_node(id@),
{
    str_eq(id, "UsdPreviewSurface") || str_eq(id, "ND_usd_preview_surface_surfaceshader")
        || str_eq(id, "UsdUVTexture") || str_eq(id, "ND_image_color3") || str_eq(
        id,
        "ND_image_color4",
    ) || str_eq(id, "ND_image_float") || str_eq(id, "ND_image_vector3") || str_eq(
        id,
        "UsdPrimvarReader_float",
    ) || str_eq(id, "UsdPrimvarReader_float2") || str_eq(id, "UsdPrimvarReader_float3")
        || str_eq(id, "UsdPrimvarReader_float4") || str_eq(id, "UsdPrimvarReader_int") || str_eq(
        id,
        "UsdPrimvarReader_string",
    ) || str_eq(id, "UsdPrimvarReader_normal") || str_eq(id, "UsdPrimvarReader_point")
        || str_eq(id, "UsdPrimvarReader_vector") || str_eq(id, "UsdPtexTexture") || str_eq(
        id,
        "UsdTransform2d",
    )
}

/// Whether a node identifier is a MaterialX node.
pub fn is_materialx_node(identifier: &str) -> (b: bool)
    ensures
        b == spec_is_materialx_node(identifier@),
{
    if is_usd_preview_node(identifier) {
        return false;
    }
    if str_starts_with(identifier, "ND_") {
        return true;
    }
    str_eq(identifier, "standard_surface") || str_eq(identifier, "standard_surface_surfaceshader")
        || str_eq(identifier, "open_pbr_surface") || str_eq(
        identifier,
        "open_pbr_surface_surfaceshader",
    ) || str_eq(identifier, "gltf_pbr") || str_eq(identifier, "gltf_pbr_surfaceshader") || str_eq(
        identifier,
        "lama",
    ) || str_eq(identifier, "UsdMtlxSurface")
}

/// A cached MaterialX shader: generated fragment source, the material
/// parameters extracted with it, and the texture names it samples. The
/// parameter block's layout belongs to the shader generator, so it is a
/// type parameter here.
#[derive(Debug, Clone)]
pub struct MtlxShaderCacheEntry<P> {
    pub fragment_source: String,
    pub material_params: P,
    pub texture_names: Vec<String>,
}

/// What the MaterialX filter hands back for a network: the same three
/// parts as a cache entry.
#[derive(Debug, Clone)]
pub struct MtlxFilterResult<P> {
    pub fragment_source: String,
    pub material_params: P,
    pub texture_names: Vec<String>,
}

/// Generated shaders keyed by the network's topology hash.
pub struct MtlxShaderCache<E> {
    entries: HashMap<u64, E>,
}

impl<E> MtlxShaderCache<E> {
    /// Cached entries by key.
    pub closed spec fn spec_map(self) -> Map<u64, E> {
        self.entries@
    }

    /// An empty cache.
    pub fn new() -> (c: Self)
        ensures
            c.spec_map() == Map::<u64, E>::empty(),
    {
        MtlxShaderCache { entries: HashMap::new() }
    }

    /// The entry stored under `key`, if any.
    pub fn get(&self, key: u64) -> (e: Option<&E>)
        ensures
            match e {
                Some(v) => self.spec_map().contains_key(key) && self.spec_map()[key] == *v,
                None => !self.spec_map().contains_key(key),
            },
    {
        broadcast use vstd::std_specs::hash::group_hash_axioms;
        self.entries.get(&key)
    }

    /// Stores `entry` under `key`, replacing an earlier entry.
    pub fn insert(&mut self, key: u64, entry: E)
        ensures
            final(self).spec_map() == old(self).spec_map().insert(key, entry),
    {
        broadcast use vstd::std_specs::hash::group_hash_axioms;
        self.entries.insert(key, entry);
    }

    /// Removes every entry.
    pub fn clear(&mut self)
        ensures
            final(self).spec_map() == Map::<u64, E>::empty(),
    {
        self.entries.clear();
    }

    /// Number of cached entries.
    pub fn len(&self) -> (n: usize)
        ensures
            n == self.spec_map().len(),
    {
        broadcast use vstd::std_specs::hash::group_hash_axioms;
        self.entries.len()
    }
}

/// Clears the MaterialX shader cache (e.g. when the device is lost).
pub fn clear_mtlx_shader_cache<E>(cache: &mut MtlxShaderCache<E>)
    ensures
        final(cache).spec_map() == Map::<u64, E>::empty(),
{
    cache.clear();
}

/// A cache read after an insert finds the inserted entry under its key,
/// and every other key keeps what it had (or its absence).
pub proof fn lemma_cache_read_after_write<E>(
    before: MtlxShaderCache<E>,
    after: MtlxShaderCache<E>,
    key: u64,
    entry: E,
    other: u64,
)
    requires
        after.spec_map() == before.spec_map().insert(key, entry),
    ensures
        after.spec_map().contains_key(key),
        after.spec_map()[key] == entry,
        other != key ==> after.spec_map().contains_key(other) == before.spec_map().contains_key(other),
        other != key && before.spec_map().contains_key(other) ==> after.spec_map()[other]
            == before.spec_map()[other],
{
}

/// A cleared cache finds nothing.
pub proof fn lemma_cleared_cache_is_empty<E>(cache: MtlxShaderCache<E>, key: u64)
    requires
        cache.spec_map() == Map::<u64, E>::empty(),
    ensures
        !cache.spec_map().contains_key(key),
        cache.spec_map().len() == 0,
{
}

} // verus!
