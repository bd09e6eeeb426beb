//! Storm render-delegate logic: primitive classification, shader variant
//! keys, shader source generation, format conversions, mesh topology
//! processing and vertex layout computation.

pub mod text;
pub mod hash_input;
pub mod named_entries;
pub mod hd_types;
pub mod hgi_types;
pub mod shader_key;
pub mod geometric_shader;
pub mod int_seq;
pub mod mesh_topology;
pub mod mesh;
pub mod mesh_sync;
pub mod interleaved_memory_manager;
pub mod shader_code;
pub mod glsl_program;
pub mod render_buffer;
pub mod hio_conversions;
pub mod hgi_conversions;
pub mod shadow;
pub mod lighting;
pub mod light;
pub mod mesh_shader_key;
pub mod material;
pub mod material_param;
pub mod material_network;
pub mod material_network_shader;
pub mod materialx_filter;
pub mod lighting_shader;
pub mod fallback_lighting_shader;
pub mod flat_normals;
pub mod flattening_scene_index;
pub mod implicit_surface_scene_index_plugin;
pub mod material_primvar_transfer_scene_index_plugin;
pub mod node_identifier_resolving_scene_index_plugin;
pub mod frustum_cull;
pub mod instancer;
pub mod image_shader_shader_key;
pub mod field_subtexture_identifier;
pub mod field;
