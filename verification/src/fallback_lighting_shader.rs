//! Fallback lighting for scenes without lights: a constant-model lighting
//! shader, lit from the camera, with the camera matrices it follows.

use vstd::prelude::*;
use crate::lighting::{identity_mat4, identity_mat4_bits};
use crate::lighting_shader::{HdStLightingShader, LightingModel};

verus! {

/// Identifier of the fallback lighting shader.
pub const FALLBACK_LIGHTING_SHADER_ID: u64 = 0x0FA1_1BAC_0001;

/// WGSL of the fallback lighting function: a light along the view
/// direction plus a little ambient light on mid grey.
pub open spec fn fallback_lighting_wgsl() -> Seq<char> {
    "\n// Fallback lighting: camera-relative directional + ambient\nfn fallback_lighting(normal_eye: vec3<f32>) -> vec3<f32> {\n    let light_dir = vec3<f32>(0.0, 0.0, 1.0); // camera direction\n    let ambient = vec3<f32>(0.04, 0.04, 0.04);\n    let diffuse_color = vec3<f32>(0.18, 0.18, 0.18);\n    let n_dot_l = max(dot(normal_eye, light_dir), 0.0);\n    return ambient + diffuse_color * n_dot_l;\n}\n"@
}

/// The lighting used when a scene has no lights: a constant-model lighting
/// shader and the camera's world-to-view and projection matrices, each a
/// column-major 4x4 matrix of `f32` bit patterns.
pub struct HdStFallbackLightingShader {
    inner: HdStLightingShader,
    world_to_view: [u32; 16],
    projection: [u32; 16],
}

impl HdStFallbackLightingShader {
    pub closed spec fn spec_inner(&self) -> HdStLightingShader {
        self.inner
    }

    pub closed spec fn spec_world_to_view(&self) -> Seq<u32> {
        self.world_to_view@
    }

    pub closed spec fn spec_projection(&self) -> Seq<u32> {
        self.projection@
    }

    /// A constant-model lighting shader with identity camera matrices.
    pub fn new() -> (s: Self)
        ensures
            s.spec_inner().wf(),
            s.spec_inner().spec_id() == FALLBACK_LIGHTING_SHADER_ID,
            s.spec_inner().spec_model() == LightingModel::Constant,
            s.spec_world_to_view() == identity_mat4_bits(),
            s.spec_projection() == identity_mat4_bits(),
    {
        HdStFallbackLightingShader {
            inner: HdStLightingShader::new(FALLBACK_LIGHTING_SHADER_ID, LightingModel::Constant),
            world_to_view: identity_mat4(),
            projection: identity_mat4(),
        }
    }

    /// Sets the camera matrices the fallback light follows.
    pub fn set_camera(&mut self, world_to_view: [u32; 16], projection: [u32; 16])
        ensures
            final(self).spec_world_to_view() == world_to_view@,
            final(self).spec_projection() == projection@,
            final(self).spec_inner() == old(self).spec_inner(),
    {
        self.world_to_view = world_to_view;
        self.projection = projection;
    }

    /// The world-to-view matrix.
    pub fn get_world_to_view(&self) -> (m: &[u32; 16])
        ensures
            m@ == self.spec_world_to_view(),
    {
        &self.world_to_view
    }

    /// The projection matrix.
    pub fn get_projection(&self) -> (m: &[u32; 16])
        ensures
            m@ == self.spec_projection(),
    {
        &self.projection
    }

    /// The wrapped lighting shader.
    pub fn get_lighting_shader(&self) -> (s: &HdStLightingShader)
        ensures
            *s == self.spec_inner(),
    {
        &self.inner
    }

    /// WGSL of the fallback lighting function.
    pub fn get_fragment_source() -> (src: &'static str)
        ensures
            src@ == fallback_lighting_wgsl(),
    {
        "\n// Fallback lighting: camera-relative directional + ambient\nfn fallback_lighting(normal_eye: vec3<f32>) -> vec3<f32> {\n    let light_dir = vec3<f32>(0.0, 0.0, 1.0); // camera direction\n    let ambient = vec3<f32>(0.04, 0.04, 0.04);\n    let diffuse_color = vec3<f32>(0.18, 0.18, 0.18);\n    let n_dot_l = max(dot(normal_eye, light_dir), 0.0);\n    return ambient + diffuse_color * n_dot_l;\n}\n"
    }
}

impl Default for HdStFallbackLightingShader {
    fn default() -> (s: Self)
        ensures
            s.spec_inner().wf(),
            s.spec_inner().spec_id() == FALLBACK_LIGHTING_SHADER_ID,
            s.spec_inner().spec_model() == LightingModel::Constant,
            s.spec_world_to_view() == identity_mat4_bits(),
            s.spec_projection() == identity_mat4_bits(),
    {
        Self::new()
    }
}

} // verus!
