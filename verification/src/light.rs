//! Storm lights: the dirty bits a light tracks, its shadow map, and the
//! light itself with its type, shadow map and shadow settings.

use vstd::prelude::*;
use vstd::string::StringExecFns;
use crate::lighting::{identity_mat4, identity_mat4_bits, ShadowParams, F32_DEFAULT_SHADOW_BIAS_BITS};
use crate::text::str_eq;

verus! {

/// Change flags of a light.
pub type HdDirtyBits = u32;

/// The light's transform changed.
pub const DIRTY_TRANSFORM: HdDirtyBits = 1;

/// The light's parameters changed.
pub const DIRTY_PARAMS: HdDirtyBits = 2;

/// The light's shadow settings changed.
pub const DIRTY_SHADOW_PARAMS: HdDirtyBits = 4;

/// The light's shadow collection changed.
pub const DIRTY_COLLECTION: HdDirtyBits = 8;

/// Every change flag.
pub const ALL_DIRTY: HdDirtyBits = 15;

/// No change.
pub const CLEAN: HdDirtyBits = 0;

/// The flag values are distinct bits, and every flag together is all of
/// them.
pub proof fn lemma_dirty_bits_layout()
    ensures
        ALL_DIRTY == DIRTY_TRANSFORM | DIRTY_PARAMS | DIRTY_SHADOW_PARAMS | DIRTY_COLLECTION,
        DIRTY_TRANSFORM & DIRTY_PARAMS == 0,
        DIRTY_PARAMS & DIRTY_SHADOW_PARAMS == 0,
        DIRTY_SHADOW_PARAMS & DIRTY_COLLECTION == 0,
        DIRTY_TRANSFORM & DIRTY_COLLECTION == 0,
{
    assert(15u32 == 1u32 | 2u32 | 4u32 | 8u32) by (bit_vector);
    assert(1u32 & 2u32 == 0) by (bit_vector);
    assert(2u32 & 4u32 == 0) by (bit_vector);
    assert(4u32 & 8u32 == 0) by (bit_vector);
    assert(1u32 & 8u32 == 0) by (bit_vector);
}

/// Bits of `0.005_f32`, the default bias of a shadow map.
pub const F32_SHADOW_MAP_BIAS_BITS: u32 = 0x3ba3d70a;

/// The shadow map of a light: its resolution, texture handle (0 when not
/// allocated), depth bias (the bits of an `f32`) and whether it is
/// allocated.
#[derive(Debug, Clone, Copy)]
pub struct HdStShadowMap {
    pub resolution: (u32, u32),
    pub texture_handle: u64,
    pub bias_bits: u32,
    pub allocated: bool,
}

impl HdStShadowMap {
    /// An unallocated shadow map of the given size.
    pub fn new(width: u32, height: u32) -> (m: Self)
        ensures
            m.resolution == (width, height),
            m.texture_handle == 0,
            m.bias_bits == F32_SHADOW_MAP_BIAS_BITS,
            !m.allocated,
    {
        HdStShadowMap {
            resolution: (width, height),
            texture_handle: 0,
            bias_bits: F32_SHADOW_MAP_BIAS_BITS,
            allocated: false,
        }
    }

    /// Allocates the shadow map's texture.
    pub fn allocate(&mut self)
        ensures
            final(self).allocated,
            final(self).texture_handle != 0,
            final(self).resolution == old(self).resolution,
            final(self).bias_bits == old(self).bias_bits,
    {
        self.texture_handle = 1;
        self.allocated = true;
    }

    /// Frees the shadow map's texture.
    pub fn free(&mut self)
        ensures
            !final(self).allocated,
            final(self).texture_handle == 0,
            final(self).resolution == old(self).resolution,
            final(self).bias_bits == old(self).bias_bits,
    {
        self.texture_handle = 0;
        self.allocated = false;
    }
}

/// A Storm light: its prim path, its light type (`distantLight`,
/// `domeLight`, `sphereLight`, ...), its shadow map if it has one, and its
/// shadow settings.
pub struct HdStLight {
    path: String,
    light_type: String,
    shadow_map: Option<HdStShadowMap>,
    shadow_params: ShadowParams,
}

/// The flags a light of this type starts dirty with: every flag for simple
/// and distant lights, parameters and transform for the others.
pub open spec fn spec_initial_dirty_bits(light_type: Seq<char>) -> HdDirtyBits {
    if light_type == "simpleLight"@ || light_type == "distantLight"@ {
        ALL_DIRTY
    } else {
        DIRTY_PARAMS | DIRTY_TRANSFORM
    }
}

impl HdStLight {
    pub closed spec fn path_view(&self) -> Seq<char> {
        self.path@
    }

    pub closed spec fn light_type_view(&self) -> Seq<char> {
        self.light_type@
    }

    pub closed spec fn shadow_map_view(&self) -> Option<HdStShadowMap> {
        self.shadow_map
    }

    pub closed spec fn shadow_params_view(&self) -> ShadowParams {
        self.shadow_params
    }

    /// A light of the given type at `path`, with no shadow map and default
    /// shadow settings.
    pub fn new(path: String, light_type: String) -> (l: Self)
        ensures
            l.path_view() == path@,
            l.light_type_view() == light_type@,
            (l.shadow_map_view() is None),
            !l.shadow_params_view().enabled,
            l.shadow_params_view().blur_bits == 0,
            l.shadow_params_view().bias_bits == crate::lighting::F32_DEFAULT_SHADOW_BIAS_BITS,
            l.shadow_params_view().matrix@ == crate::lighting::identity_mat4_bits(),
    {
        HdStLight { path, light_type, shadow_map: None, shadow_params: ShadowParams::default() }
    }

    /// A distant (directional) light.
    pub fn new_distant(path: String) -> (l: Self)
        ensures
            l.path_view() == path@,
            l.light_type_view() == "distantLight"@,
            (l.shadow_map_view() is None),
    {
        Self::new(path, String::from_str("distantLight"))
    }

    /// A dome (environment) light.
    pub fn new_dome(path: String) -> (l: Self)
        ensures
            l.path_view() == path@,
            l.light_type_view() == "domeLight"@,
            (l.shadow_map_view() is None),
    {
        Self::new(path, String::from_str("domeLight"))
    }

    /// A sphere (point) light.
    pub fn new_sphere(path: String) -> (l: Self)
        ensures
            l.path_view() == path@,
            l.light_type_view() == "sphereLight"@,
            (l.shadow_map_view() is None),
    {
        Self::new(path, String::from_str("sphereLight"))
    }

    /// A rect (area) light.
    pub fn new_rect(path: String) -> (l: Self)
        ensures
            l.path_view() == path@,
            l.light_type_view() == "rectLight"@,
            (l.shadow_map_view() is None),
    {
        Self::new(path, String::from_str("rectLight"))
    }

    pub fn get_path(&self) -> (p: &str)
        ensures
            p@ == self.path_view(),
    {
        self.path.as_str()
    }

    pub fn get_light_type(&self) -> (t: &str)
        ensures
            t@ == self.light_type_view(),
    {
        self.light_type.as_str()
    }

    pub fn get_shadow_map(&self) -> (m: Option<&HdStShadowMap>)
        ensures
            match m {
                Some(x) => self.shadow_map_view() == Some(*x),
                None => self.shadow_map_view() is None,
            },
    {
        match &self.shadow_map {
            Some(m) => Some(m),
            None => None,
        }
    }

    pub fn get_shadow_params(&self) -> (p: &ShadowParams)
        ensures
            *p == self.shadow_params_view(),
    {
        &self.shadow_params
    }

    pub fn set_shadow_params(&mut self, params: ShadowParams)
        ensures
            final(self).shadow_params_view() == params,
            final(self).path_view() == old(self).path_view(),
            final(self).light_type_view() == old(self).light_type_view(),
            final(self).shadow_map_view() == old(self).shadow_map_view(),
    {
        self.shadow_params = params;
    }

    /// The flags the light starts dirty with.
    pub fn get_initial_dirty_bits_mask(&self) -> (bits: HdDirtyBits)
        ensures
            bits == spec_initial_dirty_bits(self.light_type_view()),
    {
        if str_eq(self.light_type.as_str(), "simpleLight") || str_eq(
            self.light_type.as_str(),
            "distantLight",
        ) {
            ALL_DIRTY
        } else {
            DIRTY_PARAMS | DIRTY_TRANSFORM
        }
    }
}

/// A light's shadow settings as its scene delegate gives them, each absent
/// where it is not authored with its type: `shadow:enable`, the older
/// `hasShadow`, the shadow map resolution, and the blur and depth bias
/// (the bits of `f32` values).
#[derive(Debug, Clone, Copy)]
pub struct LightShadowValues {
    pub enable: Option<bool>,
    pub has_shadow: Option<bool>,
    pub resolution: Option<i32>,
    pub blur_bits: Option<u32>,
    pub bias_bits: Option<u32>,
}

/// Shadows are on as `shadow:enable` says, else as `hasShadow` says, else
/// off.
pub open spec fn spec_shadow_enabled(v: LightShadowValues) -> bool {
    match v.enable {
        Some(b) => b,
        None => match v.has_shadow {
            Some(b) => b,
            None => false,
        },
    }
}

/// The authored resolution taken as a `u32`, else 1024.
pub open spec fn spec_shadow_resolution(v: LightShadowValues) -> u32 {
    match v.resolution {
        Some(r) => r as u32,
        None => 1024,
    }
}

/// The authored blur, else no blur.
pub open spec fn spec_shadow_blur_bits(v: LightShadowValues) -> u32 {
    match v.blur_bits {
        Some(b) => b,
        None => 0,
    }
}

/// The authored depth bias, else `0.001`.
pub open spec fn spec_shadow_bias_bits(v: LightShadowValues) -> u32 {
    match v.bias_bits {
        Some(b) => b,
        None => F32_DEFAULT_SHADOW_BIAS_BITS,
    }
}

impl HdStLight {
    /// The shadow step of a light's sync: when the shadow flag is dirty, the
    /// shadow settings become the authored ones (with their defaults) and an
    /// identity matrix, which the shadow pass computes later, and a shadow
    /// map takes the authored resolution in both directions and the bias.
    /// Otherwise nothing changes.
    pub fn sync_shadow_params(&mut self, dirty_bits: HdDirtyBits, values: LightShadowValues)
        ensures
            final(self).path_view() == old(self).path_view(),
            final(self).light_type_view() == old(self).light_type_view(),
            dirty_bits & DIRTY_SHADOW_PARAMS == 0 ==> {
                &&& final(self).shadow_params_view() == old(self).shadow_params_view()
                &&& final(self).shadow_map_view() == old(self).shadow_map_view()
            },
            dirty_bits & DIRTY_SHADOW_PARAMS != 0 ==> {
                &&& final(self).shadow_params_view().enabled == spec_shadow_enabled(values)
                &&& final(self).shadow_params_view().blur_bits == spec_shadow_blur_bits(values)
                &&& final(self).shadow_params_view().bias_bits == spec_shadow_bias_bits(values)
                &&& final(self).shadow_params_view().matrix@ == identity_mat4_bits()
                &&& match old(self).shadow_map_view() {
                    Some(m) => final(self).shadow_map_view() matches Some(n) && {
                        &&& n.resolution == (spec_shadow_resolution(values), spec_shadow_resolution(values))
                        &&& n.bias_bits == spec_shadow_bias_bits(values)
                        &&& n.texture_handle == m.texture_handle
                        &&& n.allocated == m.allocated
                    },
                    None => final(self).shadow_map_view() is None,
                }
            },
    {
        if dirty_bits & DIRTY_SHADOW_PARAMS == 0 {
            return;
        }
        let enabled = match values.enable {
            Some(b) => b,
            None => match values.has_shadow {
                Some(b) => b,
                None => false,
            },
        };
        let resolution: u32 = match values.resolution {
            Some(r) => r as u32,
            None => 1024,
        };
        let blur_bits: u32 = match values.blur_bits {
            Some(b) => b,
            None => 0,
        };
        let bias_bits: u32 = match values.bias_bits {
            Some(b) => b,
            None => F32_DEFAULT_SHADOW_BIAS_BITS,
        };
        self.shadow_params = ShadowParams { enabled, blur_bits, bias_bits, matrix: identity_mat4() };
        match &mut self.shadow_map {
            Some(sm) => {
                sm.resolution = (resolution, resolution);
                sm.bias_bits = bias_bits;
            },
            None => {},
        }
    }
}

/// Every light starts with its parameters and transform dirty; only simple
/// and distant lights start with their shadow settings dirty too.
pub proof fn lemma_initial_dirty_bits(light_type: Seq<char>)
    ensures
        spec_initial_dirty_bits(light_type) & DIRTY_PARAMS != 0,
        spec_initial_dirty_bits(light_type) & DIRTY_TRANSFORM != 0,
        (spec_initial_dirty_bits(light_type) & DIRTY_SHADOW_PARAMS != 0) <==> (light_type
            == "simpleLight"@ || light_type == "distantLight"@),
{
    assert(15u32 & 2u32 != 0) by (bit_vector);
    assert(15u32 & 1u32 != 0) by (bit_vector);
    assert(15u32 & 4u32 != 0) by (bit_vector);
    assert((2u32 | 1u32) & 2u32 != 0) by (bit_vector);
    assert((2u32 | 1u32) & 1u32 != 0) by (bit_vector);
    assert((2u32 | 1u32) & 4u32 == 0) by (bit_vector);
}

} // verus!
