# usd_hd_st

Verified core of a Storm-style Hydra render delegate, written in Verus.

`src/` holds the logic, each function with a `requires`/`ensures` contract
proved by Verus:

- primitive classification and hardware cull-mode resolution
  (`geometric_shader`), shader-variant keys (`mesh_shader_key`,
  `image_shader_shader_key`), pipeline stages (`shader_code`);
- mesh topology: triangulation, quadrangulation, wireframe edge flags,
  geom-subset bookkeeping (`mesh_topology`, `mesh`), and the vertex data,
  primvar expansion and little-endian buffer encoding of a mesh (`mesh`);
  the mesh prim's sync step from scene-delegate values, its vertex buffer
  specs and sources, and its packed face-varying buffer (`mesh_sync`);
- instancing: active-instance levels, the instance index table and
  instance primvars (`instancer`); volume field types and field prims
  (`field`); the face walk of flat normals (`flat_normals`);
- interleaved vertex layout with alignment (`interleaved_memory_manager`);
- GLSL/WGSL source generation for lighting, light buffers and shadow
  sampling (`lighting`, `lighting_shader`, `geometric_shader`);
- format conversions between Hydra, Hgi and Hio (`hgi_conversions`,
  `hio_conversions`);
- materials: texture classification, sampler and file extraction, texture
  hashes, the material's compile/dirty state and its sync from a material
  network: terminals, fallback, texture descriptors, Ptex flag and network
  shader (`material`); material
  parameters and their structural hash (`material_param`); material network
  processing into parameters, texture descriptors, tag and surface shader
  (`material_network`); the material network shader with its primvar list,
  fallbacks and cached hashes (`material_network_shader`); the MaterialX
  shader cache (`materialx_filter`);
- lights: dirty bits, shadow maps, light types, initial dirty state and
  the shadow step of a light's sync (`light`), and the fallback lighting shader (`fallback_lighting_shader`);
- hashing inputs laid out as the standard `Hash` impls write them
  (`hash_input`) and named-entry tables (`named_entries`);
- GLSL program bookkeeping (`glsl_program`).

Floating-point values that the logic only carries (line widths, shadow
bias, light components, instance matrices) are stored as their IEEE bit
patterns. `app/` holds the process-wide shader cache, the `f32`/`f64`
views of those values, the floating-point matrix code and the
floating-point texts of a material sync. `tests/` runs the
library on concrete inputs.
