//! Shader key of the full-screen image shader: its effect file and the
//! entry points of its vertex and fragment stages.

use vstd::prelude::*;
use vstd::string::StringExecFns;
use crate::shader_key::PrimitiveType;

verus! {

/// Effect file, vertex entry points and fragment entry points of the image
/// shader; each entry-point list ends with an empty name.
#[derive(Debug, Clone)]
pub struct ImageShaderShaderKey {
    /// Effect file name.
    pub glslfx: String,
    /// Vertex entry points.
    pub vs: [String; 2],
    /// Fragment entry points.
    pub fs: [String; 2],
}

/// Whether `key` names the image shader effect and its two entry points.
pub open spec fn is_image_shader_key(key: ImageShaderShaderKey) -> bool {
    &&& key.glslfx@ == "imageShader.glslfx"@
    &&& key.vs@[0]@ == "ImageShader.Vertex"@
    &&& key.vs@[1]@ == Seq::<char>::empty()
    &&& key.fs@[0]@ == "ImageShader.Fragment"@
    &&& key.fs@[1]@ == Seq::<char>::empty()
}

impl ImageShaderShaderKey {
    /// The image shader key.
    pub fn new() -> (k: Self)
        ensures
            is_image_shader_key(k),
    {
        ImageShaderShaderKey {
            glslfx: String::from_str("imageShader.glslfx"),
            vs: [String::from_str("ImageShader.Vertex"), String::new()],
            fs: [String::from_str("ImageShader.Fragment"), String::new()],
        }
    }

    /// Effect file name.
    pub fn get_glslfx_filename(&self) -> (f: &String)
        ensures
            f@ == self.glslfx@,
    {
        &self.glslfx
    }

    /// Vertex entry points.
    pub fn get_vs(&self) -> (v: &[String; 2])
        ensures
            v@ == self.vs@,
    {
        &self.vs
    }

    /// Fragment entry points.
    pub fn get_fs(&self) -> (f: &[String; 2])
        ensures
            f@ == self.fs@,
    {
        &self.fs
    }

    /// The image shader draws one full-screen triangle.
    pub fn get_primitive_type(&self) -> (p: PrimitiveType)
        ensures
            p == PrimitiveType::Triangles,
    {
        PrimitiveType::Triangles
    }
}

impl Default for ImageShaderShaderKey {
    fn default() -> (k: Self)
        ensures
            is_image_shader_key(k),
    {
        Self::new()
    }
}

} // verus!
