//! Shader pipeline stages.

use vstd::prelude::*;
use crate::material_param::FallbackValue;

verus! {

/// A programmable stage of a shader pipeline.
#[derive(Debug, Clone, Copy, PartialEq, Eq, Hash, Structural)]
pub enum ShaderStage {
    Vertex,
    TessControl,
    TessEval,
    Geometry,
    Fragment,
    Compute,
}

/// Position of a stage in the canonical stage order.
pub open spec fn spec_stage_index(s: ShaderStage) -> int {
    match s {
        ShaderStage::Vertex => 0,
        ShaderStage::TessControl => 1,
        ShaderStage::TessEval => 2,
        ShaderStage::Geometry => 3,
        ShaderStage::Fragment => 4,
        ShaderStage::Compute => 5,
    }
}

/// The stage at a position of the canonical order.
pub open spec fn spec_stage_at(i: int) -> ShaderStage {
    if i == 0 {
        ShaderStage::Vertex
    } else if i == 1 {
        ShaderStage::TessControl
    } else if i == 2 {
        ShaderStage::TessEval
    } else if i == 3 {
        ShaderStage::Geometry
    } else if i == 4 {
        ShaderStage::Fragment
    } else {
        ShaderStage::Compute
    }
}

/// Number of stages.
pub const NUM_SHADER_STAGES: usize = 6;

impl ShaderStage {
    /// Position in the canonical stage order.
    pub fn index(self) -> (i: usize)
        ensures
            i == spec_stage_index(self),
            i < NUM_SHADER_STAGES,
    {
        match self {
            ShaderStage::Vertex => 0,
            ShaderStage::TessControl => 1,
            ShaderStage::TessEval => 2,
            ShaderStage::Geometry => 3,
            ShaderStage::Fragment => 4,
            ShaderStage::Compute => 5,
        }
    }

    /// The stage at a position of the canonical order.
    pub fn at(i: usize) -> (s: Self)
        requires
            i < NUM_SHADER_STAGES,
        ensures
            s == spec_stage_at(i as int),
            spec_stage_index(s) == i,
    {
        if i == 0 {
            ShaderStage::Vertex
        } else if i == 1 {
            ShaderStage::TessControl
        } else if i == 2 {
            ShaderStage::TessEval
        } else if i == 3 {
            ShaderStage::Geometry
        } else if i == 4 {
            ShaderStage::Fragment
        } else {
            ShaderStage::Compute
        }
    }

    /// The stage's name as its debug rendering shows it.
    pub fn debug_name(self) -> (n: &'static str)
        ensures
            n@ == spec_stage_debug_name(self),
    {
        match self {
            ShaderStage::Vertex => "Vertex",
            ShaderStage::TessControl => "TessControl",
            ShaderStage::TessEval => "TessEval",
            ShaderStage::Geometry => "Geometry",
            ShaderStage::Fragment => "Fragment",
            ShaderStage::Compute => "Compute",
        }
    }
}

/// The stage's name as its debug rendering shows it.
pub open spec fn spec_stage_debug_name(s: ShaderStage) -> Seq<char> {
    match s {
        ShaderStage::Vertex => "Vertex"@,
        ShaderStage::TessControl => "TessControl"@,
        ShaderStage::TessEval => "TessEval"@,
        ShaderStage::Geometry => "Geometry"@,
        ShaderStage::Fragment => "Fragment"@,
        ShaderStage::Compute => "Compute"@,
    }
}

/// Index and stage correspond one to one.
pub proof fn lemma_stage_index_roundtrip(s: ShaderStage)
    ensures
        spec_stage_at(spec_stage_index(s)) == s,
        0 <= spec_stage_index(s) < NUM_SHADER_STAGES,
{
}

/// A texture a shader binds by name: its accessor name, its texture type,
/// and the hash of the texture's contents (0 until a texture is loaded).
#[derive(Debug, Clone)]
pub struct NamedTextureHandle {
    pub name: String,
    pub texture_type: String,
    pub hash: u64,
}

impl NamedTextureHandle {
    /// A handle with no texture loaded yet.
    pub fn new(name: String, texture_type: String) -> (h: Self)
        ensures
            h.name == name,
            h.texture_type == texture_type,
            h.hash == 0,
    {
        NamedTextureHandle { name, texture_type, hash: 0 }
    }
}

/// A named shader parameter with its fallback value, as code generation
/// reads it.
#[derive(Debug, Clone)]
pub struct ShaderParameter {
    pub name: String,
    pub value: FallbackValue,
}

impl ShaderParameter {
    pub fn new(name: String, value: FallbackValue) -> (p: Self)
        ensures
            p.name == name,
            p.value == value,
    {
        ShaderParameter { name, value }
    }
}

} // verus!
