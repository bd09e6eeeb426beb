//! Fragment-shader generation for the classic lighting models: constant,
//! Lambert, Blinn-Phong and a simplified physically based model, with
//! optional ambient occlusion and image-based lighting terms.

use vstd::prelude::*;
use vstd::seq_lib::lemma_concat_associative;
use vstd::string::{StrSliceExecFns, StringExecFns};
use crate::shader_code::{NamedTextureHandle, ShaderParameter, ShaderStage};
use crate::text::{decimal, push_decimal, text_if};

verus! {

/// Lighting model of a shader.
#[derive(Debug, Clone, Copy, PartialEq, Eq, Structural)]
pub enum LightingModel {
    /// Constant (unlit) shading.
    Constant,
    /// Lambert diffuse.
    Lambert,
    /// Blinn-Phong specular.
    BlinnPhong,
    /// Physically based.
    Pbr,
    /// Custom model.
    Custom,
}

/// Name of a lighting model.
pub open spec fn spec_model_name(m: LightingModel) -> Seq<char> {
    match m {
        LightingModel::Constant => "constant"@,
        LightingModel::Lambert => "lambert"@,
        LightingModel::BlinnPhong => "blinn_phong"@,
        LightingModel::Pbr => "pbr"@,
        LightingModel::Custom => "custom"@,
    }
}

impl LightingModel {
    /// The model's name.
    pub fn as_str(&self) -> (s: &'static str)
        ensures
            s@ == spec_model_name(*self),
    {
        match self {
            LightingModel::Constant => "constant",
            LightingModel::Lambert => "lambert",
            LightingModel::BlinnPhong => "blinn_phong",
            LightingModel::Pbr => "pbr",
            LightingModel::Custom => "custom",
        }
    }
}

/// Kind of a light the shader is generated for.
#[derive(Debug, Clone, Copy, PartialEq, Eq, Structural)]
pub enum LightType {
    /// Directional light (sun).
    Directional,
    /// Point light.
    Point,
    /// Spot light.
    Spot,
    /// Dome (environment) light.
    Dome,
    /// Rectangular area light.
    Area,
}

/// Shadow-map settings. The depth bias is kept as the bit pattern of its
/// `f32` value.
#[derive(Debug, Clone, Copy, PartialEq, Eq, Structural)]
pub struct ShadowParams {
    /// Shadows are cast.
    pub enabled: bool,
    /// Shadow map resolution in texels.
    pub resolution: u32,
    /// Bits of the `f32` depth bias.
    pub bias_bits: u32,
    /// PCF filter size in texels.
    pub filter_size: u32,
}

/// Bits of the default depth bias, `0.001_f32`.
pub const DEFAULT_SHADOW_BIAS_BITS: u32 = 0x3a83126f;

impl Default for ShadowParams {
    fn default() -> (p: Self)
        ensures
            !p.enabled,
            p.resolution == 1024,
            p.bias_bits == DEFAULT_SHADOW_BIAS_BITS,
            p.filter_size == 2,
    {
        ShadowParams {
            enabled: false,
            resolution: 1024,
            bias_bits: DEFAULT_SHADOW_BIAS_BITS,
            filter_size: 2,
        }
    }
}

/// Ambient occlusion term.
pub open spec fn ambient_occlusion_glsl() -> Seq<char> {
    "float computeAO() {\n"@
        + "    return 1.0; // Placeholder\n"@
        + "}\n\n"@
}

/// Image-based lighting term.
pub open spec fn image_based_lighting_glsl() -> Seq<char> {
    "vec3 computeIBL(vec3 N, vec3 V) {\n"@
        + "    return vec3(0.0); // Placeholder\n"@
        + "}\n\n"@
}

/// Version line, vertex inputs and material uniforms.
pub open spec fn fragment_header_glsl() -> Seq<char> {
    "#version 450\n\n"@
        + "in VertexData {\n"@
        + "    vec3 position;\n"@
        + "    vec3 normal;\n"@
        + "    vec2 uv;\n"@
        + "} inData;\n\n"@
        + "layout(binding = 1) uniform Material {\n"@
        + "    vec4 diffuseColor;\n"@
        + "    vec4 specularColor;\n"@
        + "    float roughness;\n"@
        + "    float metallic;\n"@
        + "};\n\n"@
}

/// Light uniform block; the comment records the number of lights.
pub open spec fn light_uniforms_glsl(num_lights: nat) -> Seq<char> {
    "layout(binding = 2) uniform Lights {\n"@
        + "    int numLights; // "@
        + decimal(num_lights)
        + "\n"@
        + "    vec4 lightPositions[8];\n"@
        + "    vec4 lightColors[8];\n"@
        + "};\n\n"@
}

/// The line of `main` that computes the color for a lighting model.
pub open spec fn model_color_glsl(model: LightingModel) -> Seq<char> {
    match model {
        LightingModel::Constant => "    color = diffuseColor.rgb;\n"@,
        LightingModel::Lambert => "    color = computeLambert(N, V);\n"@,
        LightingModel::BlinnPhong => "    color = computeBlinnPhong(N, V);\n"@,
        LightingModel::Pbr => "    color = computePBR(N, V);\n"@,
        LightingModel::Custom => "    color = diffuseColor.rgb; // Custom implementation\n"@,
    }
}

/// The Lambert, Blinn-Phong and PBR functions, then the ambient-occlusion
/// and image-based-lighting terms when enabled.
pub open spec fn lighting_functions_glsl(use_ao: bool, use_ibl: bool) -> Seq<char> {
    "vec3 computeLambert(vec3 N, vec3 V) {\n"@
        + "    vec3 result = vec3(0.0);\n"@
        + "    for (int i = 0; i < numLights; i++) {\n"@
        + "        vec3 L = normalize(lightPositions[i].xyz - inData.position);\n"@
        + "        float NdotL = max(dot(N, L), 0.0);\n"@
        + "        result += diffuseColor.rgb * lightColors[i].rgb * NdotL;\n"@
        + "    }\n"@
        + "    return result;\n"@
        + "}\n\n"@
        + "vec3 computeBlinnPhong(vec3 N, vec3 V) {\n"@
        + "    vec3 result = vec3(0.0);\n"@
        + "    for (int i = 0; i < numLights; i++) {\n"@
        + "        vec3 L = normalize(lightPositions[i].xyz - inData.position);\n"@
        + "        vec3 H = normalize(L + V);\n"@
        + "        float NdotL = max(dot(N, L), 0.0);\n"@
        + "        float NdotH = max(dot(N, H), 0.0);\n"@
        + "        vec3 diffuse = diffuseColor.rgb * NdotL;\n"@
        + "        vec3 specular = specularColor.rgb * pow(NdotH, 32.0);\n"@
        + "        result += (diffuse + specular) * lightColors[i].rgb;\n"@
        + "    }\n"@
        + "    return result;\n"@
        + "}\n\n"@
        + "vec3 computePBR(vec3 N, vec3 V) {\n"@
        + "    vec3 result = vec3(0.0);\n"@
        + "    for (int i = 0; i < numLights; i++) {\n"@
        + "        vec3 L = normalize(lightPositions[i].xyz - inData.position);\n"@
        + "        float NdotL = max(dot(N, L), 0.0);\n"@
        + "        vec3 radiance = lightColors[i].rgb * NdotL;\n"@
        + "        result += diffuseColor.rgb * radiance * (1.0 - metallic);\n"@
        + "    }\n"@
        + "    return result;\n"@
        + "}\n\n"@
        + text_if(use_ao, ambient_occlusion_glsl())
        + text_if(use_ibl, image_based_lighting_glsl())
}

/// The whole fragment shader for a model, a number of lights and the two
/// optional terms.
pub open spec fn fragment_source_glsl(model: LightingModel, num_lights: nat, use_ao: bool, use_ibl: bool) -> Seq<char> {
    fragment_header_glsl()
        + text_if(num_lights > 0, light_uniforms_glsl(num_lights))
        + "layout(location = 0) out vec4 outColor;\n\n"@
        + lighting_functions_glsl(use_ao, use_ibl)
        + "void main() {\n"@
        + "    vec3 N = normalize(inData.normal);\n"@
        + "    vec3 V = normalize(-inData.position);\n"@
        + "    vec3 color = vec3(0.0);\n\n"@
        + model_color_glsl(model)
        + text_if(use_ao, "    color *= computeAO();\n"@)
        + text_if(use_ibl, "    color += computeIBL(N, V);\n"@)
        + "\n    outColor = vec4(color, diffuseColor.a);\n"@
        + "}\n"@
}

/// Lighting shader: a lighting model, a list of lights, shadow settings and
/// optional ambient-occlusion and image-based-lighting terms, with the
/// fragment source regenerated after every change.
#[derive(Debug)]
pub struct HdStLightingShader {
    id: u64,
    model: LightingModel,
    lights: Vec<LightType>,
    shadow_params: ShadowParams,
    fragment_source: String,
    use_ao: bool,
    use_ibl: bool,
}

impl HdStLightingShader {
    /// Identifier of the shader.
    pub closed spec fn spec_id(&self) -> u64 {
        self.id
    }

    /// Lighting model.
    pub closed spec fn spec_model(&self) -> LightingModel {
        self.model
    }

    /// Lights, in the order they were added.
    pub closed spec fn spec_lights(&self) -> Seq<LightType> {
        self.lights@
    }

    /// Shadow settings.
    pub closed spec fn spec_shadow_params(&self) -> ShadowParams {
        self.shadow_params
    }

    /// Ambient occlusion is on.
    pub closed spec fn spec_use_ao(&self) -> bool {
        self.use_ao
    }

    /// Image-based lighting is on.
    pub closed spec fn spec_use_ibl(&self) -> bool {
        self.use_ibl
    }

    /// The current fragment source.
    pub closed spec fn spec_fragment_source(&self) -> Seq<char> {
        self.fragment_source@
    }

    /// The fragment source is the one generated from the current settings.
    pub open spec fn wf(&self) -> bool {
        self.spec_fragment_source() == fragment_source_glsl(
            self.spec_model(),
            self.spec_lights().len(),
            self.spec_use_ao(),
            self.spec_use_ibl(),
        )
    }

    /// A shader with no lights, default shadow settings and both optional
    /// terms off.
    pub fn new(id: u64, model: LightingModel) -> (s: Self)
        ensures
            s.wf(),
            s.spec_id() == id,
            s.spec_model() == model,
            s.spec_lights() == Seq::<LightType>::empty(),
            s.spec_shadow_params() == (ShadowParams {
                enabled: false,
                resolution: 1024,
                bias_bits: DEFAULT_SHADOW_BIAS_BITS,
                filter_size: 2,
            }),
            !s.spec_use_ao(),
            !s.spec_use_ibl(),
    {
        let mut shader = HdStLightingShader {
            id,
            model,
            lights: Vec::new(),
            shadow_params: ShadowParams::default(),
            fragment_source: String::new(),
            use_ao: false,
            use_ibl: false,
        };
        shader.generate_fragment_source();
        shader
    }

    /// Identifier of the shader.
    pub fn get_id(&self) -> (id: u64)
        ensures
            id == self.spec_id(),
    {
        self.id
    }

    /// Lighting model.
    pub fn get_model(&self) -> (m: LightingModel)
        ensures
            m == self.spec_model(),
    {
        self.model
    }

    /// Adds a light and regenerates the source.
    pub fn add_light(&mut self, light_type: LightType)
        ensures
            final(self).wf(),
            final(self).spec_lights() == old(self).spec_lights().push(light_type),
            final(self).spec_id() == old(self).spec_id(),
            final(self).spec_model() == old(self).spec_model(),
            final(self).spec_shadow_params() == old(self).spec_shadow_params(),
            final(self).spec_use_ao() == old(self).spec_use_ao(),
            final(self).spec_use_ibl() == old(self).spec_use_ibl(),
    {
        self.lights.push(light_type);
        self.generate_fragment_source();
    }

    /// Lights, in the order they were added.
    pub fn get_lights(&self) -> (l: &[LightType])
        ensures
            l@ == self.spec_lights(),
    {
        self.lights.as_slice()
    }

    /// Replaces the shadow settings and regenerates the source.
    pub fn set_shadow_params(&mut self, params: ShadowParams)
        ensures
            final(self).wf(),
            final(self).spec_shadow_params() == params,
            final(self).spec_id() == old(self).spec_id(),
            final(self).spec_model() == old(self).spec_model(),
            final(self).spec_lights() == old(self).spec_lights(),
            final(self).spec_use_ao() == old(self).spec_use_ao(),
            final(self).spec_use_ibl() == old(self).spec_use_ibl(),
    {
        self.shadow_params = params;
        self.generate_fragment_source();
    }

    /// Shadow settings.
    pub fn get_shadow_params(&self) -> (p: &ShadowParams)
        ensures
            *p == self.spec_shadow_params(),
    {
        &self.shadow_params
    }

    /// Turns ambient occlusion on or off and regenerates the source.
    pub fn set_use_ao(&mut self, enable: bool)
        ensures
            final(self).wf(),
            final(self).spec_use_ao() == enable,
            final(self).spec_id() == old(self).spec_id(),
            final(self).spec_model() == old(self).spec_model(),
            final(self).spec_lights() == old(self).spec_lights(),
            final(self).spec_shadow_params() == old(self).spec_shadow_params(),
            final(self).spec_use_ibl() == old(self).spec_use_ibl(),
    {
        self.use_ao = enable;
        self.generate_fragment_source();
    }

    /// Whether ambient occlusion is on.
    pub fn uses_ao(&self) -> (b: bool)
        ensures
            b == self.spec_use_ao(),
    {
        self.use_ao
    }

    /// Turns image-based lighting on or off and regenerates the source.
    pub fn set_use_ibl(&mut self, enable: bool)
        ensures
            final(self).wf(),
            final(self).spec_use_ibl() == enable,
            final(self).spec_id() == old(self).spec_id(),
            final(self).spec_model() == old(self).spec_model(),
            final(self).spec_lights() == old(self).spec_lights(),
            final(self).spec_shadow_params() == old(self).spec_shadow_params(),
            final(self).spec_use_ao() == old(self).spec_use_ao(),
    {
        self.use_ibl = enable;
        self.generate_fragment_source();
    }

    /// Whether image-based lighting is on.
    pub fn uses_ibl(&self) -> (b: bool)
        ensures
            b == self.spec_use_ibl(),
    {
        self.use_ibl
    }

    /// Rebuilds the fragment source from the current settings.
    fn generate_fragment_source(&mut self)
        ensures
            final(self).wf(),
            final(self).spec_id() == old(self).spec_id(),
            final(self).spec_model() == old(self).spec_model(),
            final(self).spec_lights() == old(self).spec_lights(),
            final(self).spec_shadow_params() == old(self).spec_shadow_params(),
            final(self).spec_use_ao() == old(self).spec_use_ao(),
            final(self).spec_use_ibl() == old(self).spec_use_ibl(),
    {
        let ghost model = self.model;
        let ghost num_lights = self.lights@.len();
        let ghost use_ao = self.use_ao;
        let ghost use_ibl = self.use_ibl;
        let mut source = String::new();
        let ghost mut acc: Seq<char> = Seq::empty();
        assert(source@ == acc);
        source.append("#version 450\n\n");
        proof {
            assert(acc + "#version 450\n\n"@ =~= "#version 450\n\n"@);
            acc = "#version 450\n\n"@;
        }
        source.append("in VertexData {\n");
        proof {
            acc = acc + "in VertexData {\n"@;
        }
        source.append("    vec3 position;\n");
        proof {
            acc = acc + "    vec3 position;\n"@;
        }
        source.append("    vec3 normal;\n");
        proof {
            acc = acc + "    vec3 normal;\n"@;
        }
        source.append("    vec2 uv;\n");
        proof {
            acc = acc + "    vec2 uv;\n"@;
        }
        source.append("} inData;\n\n");
        proof {
            acc = acc + "} inData;\n\n"@;
        }
        source.append("layout(binding = 1) uniform Material {\n");
        proof {
            acc = acc + "layout(binding = 1) uniform Material {\n"@;
        }
        source.append("    vec4 diffuseColor;\n");
        proof {
            acc = acc + "    vec4 diffuseColor;\n"@;
        }
        source.append("    vec4 specularColor;\n");
        proof {
            acc = acc + "    vec4 specularColor;\n"@;
        }
        source.append("    float roughness;\n");
        proof {
            acc = acc + "    float roughness;\n"@;
        }
        source.append("    float metallic;\n");
        proof {
            acc = acc + "    float metallic;\n"@;
        }
        source.append("};\n\n");
        proof {
            acc = acc + "};\n\n"@;
        }
        let ghost before_lights = source@;
        if self.lights.len() > 0 {
            let ghost mut lights_text: Seq<char> = Seq::empty();
            assert(before_lights + lights_text =~= before_lights);
            source.append("layout(binding = 2) uniform Lights {\n");
            proof {
                lemma_concat_associative(before_lights, lights_text, "layout(binding = 2) uniform Lights {\n"@);
                lights_text = lights_text + "layout(binding = 2) uniform Lights {\n"@;
            }
            source.append("    int numLights; // ");
            proof {
                lemma_concat_associative(before_lights, lights_text, "    int numLights; // "@);
                lights_text = lights_text + "    int numLights; // "@;
            }
            push_decimal(&mut source, self.lights.len() as u64);
            proof {
                lemma_concat_associative(before_lights, lights_text, decimal(num_lights));
                lights_text = lights_text + decimal(num_lights);
            }
            source.append("\n");
            proof {
                lemma_concat_associative(before_lights, lights_text, "\n"@);
                lights_text = lights_text + "\n"@;
            }
            source.append("    vec4 lightPositions[8];\n");
            proof {
                lemma_concat_associative(before_lights, lights_text, "    vec4 lightPositions[8];\n"@);
                lights_text = lights_text + "    vec4 lightPositions[8];\n"@;
            }
            source.append("    vec4 lightColors[8];\n");
            proof {
                lemma_concat_associative(before_lights, lights_text, "    vec4 lightColors[8];\n"@);
                lights_text = lights_text + "    vec4 lightColors[8];\n"@;
            }
            source.append("};\n\n");
            proof {
                lemma_concat_associative(before_lights, lights_text, "};\n\n"@);
                lights_text = lights_text + "};\n\n"@;
            }
            proof {
                assert(lights_text == light_uniforms_glsl(num_lights));
            }
        }
        proof {
            assert(source@ == before_lights + text_if(num_lights > 0, light_uniforms_glsl(num_lights)));
            acc = acc + text_if(num_lights > 0, light_uniforms_glsl(num_lights));
        }
        source.append("layout(location = 0) out vec4 outColor;\n\n");
        proof {
            acc = acc + "layout(location = 0) out vec4 outColor;\n\n"@;
        }
        let funcs = self.generate_lighting_functions();
        source.append(funcs.as_str());
        proof {
            acc = acc + lighting_functions_glsl(use_ao, use_ibl);
        }
        source.append("void main() {\n");
        proof {
            acc = acc + "void main() {\n"@;
        }
        source.append("    vec3 N = normalize(inData.normal);\n");
        proof {
            acc = acc + "    vec3 N = normalize(inData.normal);\n"@;
        }
        source.append("    vec3 V = normalize(-inData.position);\n");
        proof {
            acc = acc + "    vec3 V = normalize(-inData.position);\n"@;
        }
        source.append("    vec3 color = vec3(0.0);\n\n");
        proof {
            acc = acc + "    vec3 color = vec3(0.0);\n\n"@;
        }
        match self.model {
            LightingModel::Constant => {
                source.append("    color = diffuseColor.rgb;\n");
            }
            LightingModel::Lambert => {
                source.append("    color = computeLambert(N, V);\n");
            }
            LightingModel::BlinnPhong => {
                source.append("    color = computeBlinnPhong(N, V);\n");
            }
            LightingModel::Pbr => {
                source.append("    color = computePBR(N, V);\n");
            }
            LightingModel::Custom => {
                source.append("    color = diffuseColor.rgb; // Custom implementation\n");
            }
        }
        proof {
            acc = acc + model_color_glsl(model);
        }
        let ghost before_ao = source@;
        if self.use_ao {
            let ghost mut ao_text: Seq<char> = Seq::empty();
            assert(before_ao + ao_text =~= before_ao);
            source.append("    color *= computeAO();\n");
            proof {
                lemma_concat_associative(before_ao, ao_text, "    color *= computeAO();\n"@);
                ao_text = ao_text + "    color *= computeAO();\n"@;
            }
            proof {
                assert(ao_text == "    color *= computeAO();\n"@);
            }
        }
        proof {
            assert(source@ == before_ao + text_if(use_ao, "    color *= computeAO();\n"@));
            acc = acc + text_if(use_ao, "    color *= computeAO();\n"@);
        }
        let ghost before_ibl = source@;
        if self.use_ibl {
            let ghost mut ibl_text: Seq<char> = Seq::empty();
            assert(before_ibl + ibl_text =~= before_ibl);
            source.append("    color += computeIBL(N, V);\n");
            proof {
                lemma_concat_associative(before_ibl, ibl_text, "    color += computeIBL(N, V);\n"@);
                ibl_text = ibl_text + "    color += computeIBL(N, V);\n"@;
            }
            proof {
                assert(ibl_text == "    color += computeIBL(N, V);\n"@);
            }
        }
        proof {
            assert(source@ == before_ibl + text_if(use_ibl, "    color += computeIBL(N, V);\n"@));
            acc = acc + text_if(use_ibl, "    color += computeIBL(N, V);\n"@);
        }
        source.append("\n    outColor = vec4(color, diffuseColor.a);\n");
        proof {
            acc = acc + "\n    outColor = vec4(color, diffuseColor.a);\n"@;
        }
        source.append("}\n");
        proof {
            acc = acc + "}\n"@;
        }
        proof {
            assert(acc == fragment_source_glsl(model, num_lights, use_ao, use_ibl));
        }
        self.fragment_source = source;
    }

    /// The lighting helper functions for the current settings.
    fn generate_lighting_functions(&self) -> (funcs: String)
        ensures
            funcs@ == lighting_functions_glsl(self.use_ao, self.use_ibl),
    {
        let ghost use_ao = self.use_ao;
        let ghost use_ibl = self.use_ibl;
        let mut funcs = String::new();
        let ghost mut acc: Seq<char> = Seq::empty();
        assert(funcs@ == acc);
        funcs.append("vec3 computeLambert(vec3 N, vec3 V) {\n");
        proof {
            assert(acc + "vec3 computeLambert(vec3 N, vec3 V) {\n"@ =~= "vec3 computeLambert(vec3 N, vec3 V) {\n"@);
            acc = "vec3 computeLambert(vec3 N, vec3 V) {\n"@;
        }
        funcs.append("    vec3 result = vec3(0.0);\n");
        proof {
            acc = acc + "    vec3 result = vec3(0.0);\n"@;
        }
        funcs.append("    for (int i = 0; i < numLights; i++) {\n");
        proof {
            acc = acc + "    for (int i = 0; i < numLights; i++) {\n"@;
        }
        funcs.append("        vec3 L = normalize(lightPositions[i].xyz - inData.position);\n");
        proof {
            acc = acc + "        vec3 L = normalize(lightPositions[i].xyz - inData.position);\n"@;
        }
        funcs.append("        float NdotL = max(dot(N, L), 0.0);\n");
        proof {
            acc = acc + "        float NdotL = max(dot(N, L), 0.0);\n"@;
        }
        funcs.append("        result += diffuseColor.rgb * lightColors[i].rgb * NdotL;\n");
        proof {
            acc = acc + "        result += diffuseColor.rgb * lightColors[i].rgb * NdotL;\n"@;
        }
        funcs.append("    }\n");
        proof {
            acc = acc + "    }\n"@;
        }
        funcs.append("    return result;\n");
        proof {
            acc = acc + "    return result;\n"@;
        }
        funcs.append("}\n\n");
        proof {
            acc = acc + "}\n\n"@;
        }
        funcs.append("vec3 computeBlinnPhong(vec3 N, vec3 V) {\n");
        proof {
            acc = acc + "vec3 computeBlinnPhong(vec3 N, vec3 V) {\n"@;
        }
        funcs.append("    vec3 result = vec3(0.0);\n");
        proof {
            acc = acc + "    vec3 result = vec3(0.0);\n"@;
        }
        funcs.append("    for (int i = 0; i < numLights; i++) {\n");
        proof {
            acc = acc + "    for (int i = 0; i < numLights; i++) {\n"@;
        }
        funcs.append("        vec3 L = normalize(lightPositions[i].xyz - inData.position);\n");
        proof {
            acc = acc + "        vec3 L = normalize(lightPositions[i].xyz - inData.position);\n"@;
        }
        funcs.append("        vec3 H = normalize(L + V);\n");
        proof {
            acc = acc + "        vec3 H = normalize(L + V);\n"@;
        }
        funcs.append("        float NdotL = max(dot(N, L), 0.0);\n");
        proof {
            acc = acc + "        float NdotL = max(dot(N, L), 0.0);\n"@;
        }
        funcs.append("        float NdotH = max(dot(N, H), 0.0);\n");
        proof {
            acc = acc + "        float NdotH = max(dot(N, H), 0.0);\n"@;
        }
        funcs.append("        vec3 diffuse = diffuseColor.rgb * NdotL;\n");
        proof {
            acc = acc + "        vec3 diffuse = diffuseColor.rgb * NdotL;\n"@;
        }
        funcs.append("        vec3 specular = specularColor.rgb * pow(NdotH, 32.0);\n");
        proof {
            acc = acc + "        vec3 specular = specularColor.rgb * pow(NdotH, 32.0);\n"@;
        }
        funcs.append("        result += (diffuse + specular) * lightColors[i].rgb;\n");
        proof {
            acc = acc + "        result += (diffuse + specular) * lightColors[i].rgb;\n"@;
        }
        funcs.append("    }\n");
        proof {
            acc = acc + "    }\n"@;
        }
        funcs.append("    return result;\n");
        proof {
            acc = acc + "    return result;\n"@;
        }
        funcs.append("}\n\n");
        proof {
            acc = acc + "}\n\n"@;
        }
        funcs.append("vec3 computePBR(vec3 N, vec3 V) {\n");
        proof {
            acc = acc + "vec3 computePBR(vec3 N, vec3 V) {\n"@;
        }
        funcs.append("    vec3 result = vec3(0.0);\n");
        proof {
            acc = acc + "    vec3 result = vec3(0.0);\n"@;
        }
        funcs.append("    for (int i = 0; i < numLights; i++) {\n");
        proof {
            acc = acc + "    for (int i = 0; i < numLights; i++) {\n"@;
        }
        funcs.append("        vec3 L = normalize(lightPositions[i].xyz - inData.position);\n");
        proof {
            acc = acc + "        vec3 L = normalize(lightPositions[i].xyz - inData.position);\n"@;
        }
        funcs.append("        float NdotL = max(dot(N, L), 0.0);\n");
        proof {
            acc = acc + "        float NdotL = max(dot(N, L), 0.0);\n"@;
        }
        funcs.append("        vec3 radiance = lightColors[i].rgb * NdotL;\n");
        proof {
            acc = acc + "        vec3 radiance = lightColors[i].rgb * NdotL;\n"@;
        }
        funcs.append("        result += diffuseColor.rgb * radiance * (1.0 - metallic);\n");
        proof {
            acc = acc + "        result += diffuseColor.rgb * radiance * (1.0 - metallic);\n"@;
        }
        funcs.append("    }\n");
        proof {
            acc = acc + "    }\n"@;
        }
        funcs.append("    return result;\n");
        proof {
            acc = acc + "    return result;\n"@;
        }
        funcs.append("}\n\n");
        proof {
            acc = acc + "}\n\n"@;
        }
        let ghost before_ao = funcs@;
        if self.use_ao {
            let ghost mut ao_text: Seq<char> = Seq::empty();
            assert(before_ao + ao_text =~= before_ao);
            funcs.append("float computeAO() {\n");
            proof {
                lemma_concat_associative(before_ao, ao_text, "float computeAO() {\n"@);
                ao_text = ao_text + "float computeAO() {\n"@;
            }
            funcs.append("    return 1.0; // Placeholder\n");
            proof {
                lemma_concat_associative(before_ao, ao_text, "    return 1.0; // Placeholder\n"@);
                ao_text = ao_text + "    return 1.0; // Placeholder\n"@;
            }
            funcs.append("}\n\n");
            proof {
                lemma_concat_associative(before_ao, ao_text, "}\n\n"@);
                ao_text = ao_text + "}\n\n"@;
            }
            proof {
                assert(ao_text == ambient_occlusion_glsl());
            }
        }
        proof {
            assert(funcs@ == before_ao + text_if(use_ao, ambient_occlusion_glsl()));
            acc = acc + text_if(use_ao, ambient_occlusion_glsl());
        }
        let ghost before_ibl = funcs@;
        if self.use_ibl {
            let ghost mut ibl_text: Seq<char> = Seq::empty();
            assert(before_ibl + ibl_text =~= before_ibl);
            funcs.append("vec3 computeIBL(vec3 N, vec3 V) {\n");
            proof {
                lemma_concat_associative(before_ibl, ibl_text, "vec3 computeIBL(vec3 N, vec3 V) {\n"@);
                ibl_text = ibl_text + "vec3 computeIBL(vec3 N, vec3 V) {\n"@;
            }
            funcs.append("    return vec3(0.0); // Placeholder\n");
            proof {
                lemma_concat_associative(before_ibl, ibl_text, "    return vec3(0.0); // Placeholder\n"@);
                ibl_text = ibl_text + "    return vec3(0.0); // Placeholder\n"@;
            }
            funcs.append("}\n\n");
            proof {
                lemma_concat_associative(before_ibl, ibl_text, "}\n\n"@);
                ibl_text = ibl_text + "}\n\n"@;
            }
            proof {
                assert(ibl_text == image_based_lighting_glsl());
            }
        }
        proof {
            assert(funcs@ == before_ibl + text_if(use_ibl, image_based_lighting_glsl()));
            acc = acc + text_if(use_ibl, image_based_lighting_glsl());
        }
        proof {
            assert(acc == lighting_functions_glsl(use_ao, use_ibl));
        }
        funcs
    }

    /// Source of a stage: the fragment source for the fragment stage, empty
    /// for every other stage.
    pub fn get_source(&self, stage: ShaderStage) -> (s: String)
        ensures
            stage == ShaderStage::Fragment ==> s@ == self.spec_fragment_source(),
            stage != ShaderStage::Fragment ==> s@ == Seq::<char>::empty(),
    {
        match stage {
            ShaderStage::Fragment => self.fragment_source.clone(),
            _ => String::new(),
        }
    }

    /// Whether the shader has a fragment source.
    pub fn is_valid(&self) -> (b: bool)
        ensures
            b == (self.spec_fragment_source().len() > 0),
    {
        self.fragment_source.as_str().unicode_len() > 0
    }

    /// Shader parameters for code generation: a lighting shader declares
    /// none.
    pub fn get_params(&self) -> (ps: Vec<ShaderParameter>)
        ensures
            ps@ == Seq::<ShaderParameter>::empty(),
    {
        Vec::new()
    }

    /// Textures the shader binds: a lighting shader binds none.
    pub fn get_textures(&self) -> (ts: Vec<NamedTextureHandle>)
        ensures
            ts@ == Seq::<NamedTextureHandle>::empty(),
    {
        Vec::new()
    }
}

/// Every generated fragment source is non-empty, so a shader whose source
/// matches its settings is valid whatever the model, lights and terms.
pub proof fn lemma_fragment_source_nonempty(model: LightingModel, num_lights: nat, use_ao: bool, use_ibl: bool)
    ensures
        fragment_source_glsl(model, num_lights, use_ao, use_ibl).len() > 0,
{
    reveal_strlit("}\n");
}

} // verus!
