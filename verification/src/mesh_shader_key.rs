//! Mesh shader variant keys: which primvars are present, how they are
//! interpolated and sourced, the shading model, topology and pass features.

use vstd::prelude::*;
use std::collections::hash_map::DefaultHasher;
use std::hash::Hasher;
use vstd::std_specs::hash::DefaultHasherAdditionalSpecFns;
use crate::hash_input::{flag_bytes, variant_bytes, write_flag, write_variant};
use crate::hgi_types::HgiPrimitiveType;

verus! {

/// Shading model of the fragment shader.
#[derive(Debug, Clone, Copy, PartialEq, Eq, Hash, Structural)]
pub enum ShadingModel {
    FlatColor,
    GeomFlat,
    GeomSmooth,
    BlinnPhong,
    Pbr,
}

impl Default for ShadingModel {
    fn default() -> (m: Self)
        ensures
            m is FlatColor,
    {
        ShadingModel::FlatColor
    }
}

/// Primitive topology of the draw call.
#[derive(Debug, Clone, Copy, PartialEq, Eq, Hash, Structural)]
pub enum DrawTopology {
    TriangleList,
    LineList,
    PointList,
}

impl Default for DrawTopology {
    fn default() -> (t: Self)
        ensures
            t is TriangleList,
    {
        DrawTopology::TriangleList
    }
}

/// Primvar interpolation mode.
#[derive(Debug, Clone, Copy, PartialEq, Eq, Hash, Structural)]
pub enum PrimvarInterp {
    Vertex,
    FaceVarying,
    Uniform,
}

impl Default for PrimvarInterp {
    fn default() -> (p: Self)
        ensures
            p is Vertex,
    {
        PrimvarInterp::Vertex
    }
}

/// Mesh shader variant key, used as the pipeline cache key.
#[derive(Debug, Clone, Copy, PartialEq, Eq, Hash, Structural)]
pub struct MeshShaderKey {
    /// Mesh has vertex or face normals.
    pub has_normals: bool,
    /// Mesh has vertex colors.
    pub has_color: bool,
    /// Mesh has texture coordinates.
    pub has_uv: bool,
    /// Shading model.
    pub shading: ShadingModel,
    /// Normal interpolation.
    pub normal_interp: PrimvarInterp,
    /// Normals come from the face-varying buffer.
    pub has_fvar_normals: bool,
    /// UVs come from the face-varying buffer.
    pub has_fvar_uv: bool,
    /// Colors come from the face-varying buffer.
    pub has_fvar_color: bool,
    /// Opacity comes from the face-varying buffer.
    pub has_fvar_opacity: bool,
    /// Displacement mapping enabled.
    pub has_displacement: bool,
    /// Alpha cutoff enabled.
    pub has_alpha_cutoff: bool,
    /// Wireframe overlay.
    pub wireframe: bool,
    /// Image-based lighting textures bound.
    pub has_ibl: bool,
    /// Primitive topology.
    pub topology: DrawTopology,
    /// Depth-only pass.
    pub depth_only: bool,
    /// Face normals from screen-space derivatives with full shading.
    pub flat_shading: bool,
    /// Shadow mapping enabled.
    pub use_shadows: bool,
    /// Instance transforms read from a storage buffer.
    pub use_instancing: bool,
    /// Pick buffer bound for writing.
    pub pick_buffer_rw: bool,
}

/// The default key: lit (Blinn-Phong) triangles with vertex normals and
/// every optional feature off.
pub open spec fn default_key() -> MeshShaderKey {
    MeshShaderKey {
        has_normals: true,
        has_color: false,
        has_uv: false,
        shading: ShadingModel::BlinnPhong,
        normal_interp: PrimvarInterp::Vertex,
        has_fvar_normals: false,
        has_fvar_uv: false,
        has_fvar_color: false,
        has_fvar_opacity: false,
        has_displacement: false,
        has_alpha_cutoff: false,
        wireframe: false,
        has_ibl: false,
        topology: DrawTopology::TriangleList,
        depth_only: false,
        flat_shading: false,
        use_shadows: false,
        use_instancing: false,
        pick_buffer_rw: false,
    }
}

/// Variant index of a shading model.
pub open spec fn shading_index(s: ShadingModel) -> u8 {
    match s {
        ShadingModel::FlatColor => 0,
        ShadingModel::GeomFlat => 1,
        ShadingModel::GeomSmooth => 2,
        ShadingModel::BlinnPhong => 3,
        ShadingModel::Pbr => 4,
    }
}

/// Variant index of a primvar interpolation.
pub open spec fn interp_index(p: PrimvarInterp) -> u8 {
    match p {
        PrimvarInterp::Vertex => 0,
        PrimvarInterp::FaceVarying => 1,
        PrimvarInterp::Uniform => 2,
    }
}

/// Variant index of a draw topology.
pub open spec fn topology_index(t: DrawTopology) -> u8 {
    match t {
        DrawTopology::TriangleList => 0,
        DrawTopology::LineList => 1,
        DrawTopology::PointList => 2,
    }
}

fn shading_index_exec(s: ShadingModel) -> (i: u8)
    ensures
        i == shading_index(s),
{
    match s {
        ShadingModel::FlatColor => 0,
        ShadingModel::GeomFlat => 1,
        ShadingModel::GeomSmooth => 2,
        ShadingModel::BlinnPhong => 3,
        ShadingModel::Pbr => 4,
    }
}

fn interp_index_exec(p: PrimvarInterp) -> (i: u8)
    ensures
        i == interp_index(p),
{
    match p {
        PrimvarInterp::Vertex => 0,
        PrimvarInterp::FaceVarying => 1,
        PrimvarInterp::Uniform => 2,
    }
}

fn topology_index_exec(t: DrawTopology) -> (i: u8)
    ensures
        i == topology_index(t),
{
    match t {
        DrawTopology::TriangleList => 0,
        DrawTopology::LineList => 1,
        DrawTopology::PointList => 2,
    }
}

/// The writes a key makes to the hasher, one per field in declaration
/// order.
#[verifier::opaque]
pub open spec fn mesh_key_chunks(k: MeshShaderKey) -> Seq<Seq<u8>> {
    Seq::empty()
        .push(flag_bytes(k.has_normals))
        .push(flag_bytes(k.has_color))
        .push(flag_bytes(k.has_uv))
        .push(variant_bytes(shading_index(k.shading)))
        .push(variant_bytes(interp_index(k.normal_interp)))
        .push(flag_bytes(k.has_fvar_normals))
        .push(flag_bytes(k.has_fvar_uv))
        .push(flag_bytes(k.has_fvar_color))
        .push(flag_bytes(k.has_fvar_opacity))
        .push(flag_bytes(k.has_displacement))
        .push(flag_bytes(k.has_alpha_cutoff))
        .push(flag_bytes(k.wireframe))
        .push(flag_bytes(k.has_ibl))
        .push(variant_bytes(topology_index(k.topology)))
        .push(flag_bytes(k.depth_only))
        .push(flag_bytes(k.flat_shading))
        .push(flag_bytes(k.use_shadows))
        .push(flag_bytes(k.use_instancing))
        .push(flag_bytes(k.pick_buffer_rw))
}

/// Number of vertex attributes a key reads from the vertex buffer.
pub open spec fn spec_vertex_attr_count(k: MeshShaderKey) -> int {
    1 + (if k.has_normals && !k.has_fvar_normals {
        1u32
    } else {
        0u32
    }) + (if k.has_color && !k.has_fvar_color {
        1u32
    } else {
        0u32
    }) + (if k.has_uv && !k.has_fvar_uv {
        1u32
    } else {
        0u32
    })
}

impl Default for MeshShaderKey {
    fn default() -> (k: Self)
        ensures
            k == default_key(),
    {
        MeshShaderKey {
            has_normals: true,
            has_color: false,
            has_uv: false,
            shading: ShadingModel::BlinnPhong,
            normal_interp: PrimvarInterp::Vertex,
            has_fvar_normals: false,
            has_fvar_uv: false,
            has_fvar_color: false,
            has_fvar_opacity: false,
            has_displacement: false,
            has_alpha_cutoff: false,
            wireframe: false,
            has_ibl: false,
            topology: DrawTopology::TriangleList,
            depth_only: false,
            flat_shading: false,
            use_shadows: false,
            use_instancing: false,
            pick_buffer_rw: false,
        }
    }
}

impl MeshShaderKey {
    /// Position-only flat color (fallback).
    pub fn fallback() -> (k: Self)
        ensures
            k == (MeshShaderKey { has_normals: false, shading: ShadingModel::FlatColor, ..default_key() }),
    {
        MeshShaderKey { has_normals: false, shading: ShadingModel::FlatColor, ..Self::default() }
    }

    /// Lit mesh with normals (the default key).
    pub fn lit() -> (k: Self)
        ensures
            k == default_key(),
    {
        Self::default()
    }

    /// Physically based shading.
    pub fn pbr() -> (k: Self)
        ensures
            k == (MeshShaderKey { has_normals: true, shading: ShadingModel::Pbr, ..default_key() }),
    {
        MeshShaderKey { has_normals: true, shading: ShadingModel::Pbr, ..Self::default() }
    }

    /// Point list in flat color.
    pub fn points() -> (k: Self)
        ensures
            k == (MeshShaderKey {
                has_normals: false,
                shading: ShadingModel::FlatColor,
                topology: DrawTopology::PointList,
                ..default_key()
            }),
    {
        MeshShaderKey {
            has_normals: false,
            shading: ShadingModel::FlatColor,
            topology: DrawTopology::PointList,
            ..Self::default()
        }
    }

    /// Line list in flat color.
    pub fn wireframe() -> (k: Self)
        ensures
            k == (MeshShaderKey {
                has_normals: false,
                shading: ShadingModel::FlatColor,
                topology: DrawTopology::LineList,
                ..default_key()
            }),
    {
        MeshShaderKey {
            has_normals: false,
            shading: ShadingModel::FlatColor,
            topology: DrawTopology::LineList,
            ..Self::default()
        }
    }

    /// Geometry-only flat shading with face normals.
    pub fn geom_flat() -> (k: Self)
        ensures
            k == (MeshShaderKey { has_normals: false, shading: ShadingModel::GeomFlat, ..default_key() }),
    {
        MeshShaderKey { has_normals: false, shading: ShadingModel::GeomFlat, ..Self::default() }
    }

    /// Geometry-only smooth shading with vertex normals.
    pub fn geom_smooth() -> (k: Self)
        ensures
            k == (MeshShaderKey {
                has_normals: true,
                shading: ShadingModel::GeomSmooth,
                ..default_key()
            }),
    {
        MeshShaderKey { has_normals: true, shading: ShadingModel::GeomSmooth, ..Self::default() }
    }

    /// Depth-only prepass.
    pub fn depth_only() -> (k: Self)
        ensures
            k == (MeshShaderKey {
                has_normals: false,
                shading: ShadingModel::FlatColor,
                depth_only: true,
                ..default_key()
            }),
    {
        MeshShaderKey {
            has_normals: false,
            shading: ShadingModel::FlatColor,
            depth_only: true,
            ..Self::default()
        }
    }

    /// Pipeline primitive topology of the key.
    pub fn hgi_primitive_type(&self) -> (t: HgiPrimitiveType)
        ensures
            t == match self.topology {
                DrawTopology::TriangleList => HgiPrimitiveType::TriangleList,
                DrawTopology::LineList => HgiPrimitiveType::LineList,
                DrawTopology::PointList => HgiPrimitiveType::PointList,
            },
    {
        match self.topology {
            DrawTopology::TriangleList => HgiPrimitiveType::TriangleList,
            DrawTopology::LineList => HgiPrimitiveType::LineList,
            DrawTopology::PointList => HgiPrimitiveType::PointList,
        }
    }

    /// Face normals per pixel (geometry flat shading).
    pub fn uses_face_normals(&self) -> (b: bool)
        ensures
            b == spec_uses_face_normals(*self),
    {
        self.shading == ShadingModel::GeomFlat
    }

    /// Materials and textures are ignored by the shading model.
    pub fn ignores_materials(&self) -> (b: bool)
        ensures
            b == spec_ignores_materials(*self),
    {
        match self.shading {
            ShadingModel::FlatColor | ShadingModel::GeomFlat | ShadingModel::GeomSmooth => true,
            _ => false,
        }
    }

    /// Pipeline cache key: the standard library's default hasher (unseeded)
    /// fed each field of the key in turn.
    pub fn cache_hash(&self) -> (h: u64)
        ensures
            h == DefaultHasher::spec_finish(mesh_key_chunks(*self)),
    {
        let mut hasher = DefaultHasher::new();
        write_flag(&mut hasher, self.has_normals);
        write_flag(&mut hasher, self.has_color);
        write_flag(&mut hasher, self.has_uv);
        write_variant(&mut hasher, shading_index_exec(self.shading));
        write_variant(&mut hasher, interp_index_exec(self.normal_interp));
        write_flag(&mut hasher, self.has_fvar_normals);
        write_flag(&mut hasher, self.has_fvar_uv);
        write_flag(&mut hasher, self.has_fvar_color);
        write_flag(&mut hasher, self.has_fvar_opacity);
        write_flag(&mut hasher, self.has_displacement);
        write_flag(&mut hasher, self.has_alpha_cutoff);
        write_flag(&mut hasher, self.wireframe);
        write_flag(&mut hasher, self.has_ibl);
        write_variant(&mut hasher, topology_index_exec(self.topology));
        write_flag(&mut hasher, self.depth_only);
        write_flag(&mut hasher, self.flat_shading);
        write_flag(&mut hasher, self.use_shadows);
        write_flag(&mut hasher, self.use_instancing);
        write_flag(&mut hasher, self.pick_buffer_rw);
        proof {
            reveal(mesh_key_chunks);
        }
        hasher.finish()
    }

    /// Vertex attributes read from the vertex buffer: the position, plus
    /// normals, colors and UVs that are present and not face-varying.
    pub fn vertex_attr_count(&self) -> (n: u32)
        ensures
            n == spec_vertex_attr_count(*self),
    {
        let mut count: u32 = 1;
        if self.has_normals && !self.has_fvar_normals {
            count = count + 1;
        }
        if self.has_color && !self.has_fvar_color {
            count = count + 1;
        }
        if self.has_uv && !self.has_fvar_uv {
            count = count + 1;
        }
        count
    }
}

/// Reading back a sequence of nineteen pushed chunks.
proof fn lemma_chunks_read_back(
    c0: Seq<u8>,
    c1: Seq<u8>,
    c2: Seq<u8>,
    c3: Seq<u8>,
    c4: Seq<u8>,
    c5: Seq<u8>,
    c6: Seq<u8>,
    c7: Seq<u8>,
    c8: Seq<u8>,
    c9: Seq<u8>,
    c10: Seq<u8>,
    c11: Seq<u8>,
    c12: Seq<u8>,
    c13: Seq<u8>,
    c14: Seq<u8>,
    c15: Seq<u8>,
    c16: Seq<u8>,
    c17: Seq<u8>,
    c18: Seq<u8>,
)
    ensures
        ({
            let s = Seq::<Seq<u8>>::empty().push(c0).push(c1).push(c2).push(c3).push(c4).push(c5).push(c6)
                .push(c7).push(c8).push(c9).push(c10).push(c11).push(c12).push(c13)
                .push(c14).push(c15).push(c16).push(c17).push(c18);
            &&& s.len() == 19
            &&& s[0] == c0
            &&& s[1] == c1
            &&& s[2] == c2
            &&& s[3] == c3
            &&& s[4] == c4
            &&& s[5] == c5
            &&& s[6] == c6
            &&& s[7] == c7
            &&& s[8] == c8
            &&& s[9] == c9
            &&& s[10] == c10
            &&& s[11] == c11
            &&& s[12] == c12
            &&& s[13] == c13
            &&& s[14] == c14
            &&& s[15] == c15
            &&& s[16] == c16
            &&& s[17] == c17
            &&& s[18] == c18
        }),
{
}

proof fn lemma_key_chunks_at(k: MeshShaderKey)
    ensures
        mesh_key_chunks(k).len() == 19,
        mesh_key_chunks(k)[0] == flag_bytes(k.has_normals),
        mesh_key_chunks(k)[1] == flag_bytes(k.has_color),
        mesh_key_chunks(k)[2] == flag_bytes(k.has_uv),
        mesh_key_chunks(k)[3] == variant_bytes(shading_index(k.shading)),
        mesh_key_chunks(k)[4] == variant_bytes(interp_index(k.normal_interp)),
        mesh_key_chunks(k)[5] == flag_bytes(k.has_fvar_normals),
        mesh_key_chunks(k)[6] == flag_bytes(k.has_fvar_uv),
        mesh_key_chunks(k)[7] == flag_bytes(k.has_fvar_color),
        mesh_key_chunks(k)[8] == flag_bytes(k.has_fvar_opacity),
        mesh_key_chunks(k)[9] == flag_bytes(k.has_displacement),
        mesh_key_chunks(k)[10] == flag_bytes(k.has_alpha_cutoff),
        mesh_key_chunks(k)[11] == flag_bytes(k.wireframe),
        mesh_key_chunks(k)[12] == flag_bytes(k.has_ibl),
        mesh_key_chunks(k)[13] == variant_bytes(topology_index(k.topology)),
        mesh_key_chunks(k)[14] == flag_bytes(k.depth_only),
        mesh_key_chunks(k)[15] == flag_bytes(k.flat_shading),
        mesh_key_chunks(k)[16] == flag_bytes(k.use_shadows),
        mesh_key_chunks(k)[17] == flag_bytes(k.use_instancing),
        mesh_key_chunks(k)[18] == flag_bytes(k.pick_buffer_rw),
{
    reveal(mesh_key_chunks);
    lemma_chunks_read_back(
        flag_bytes(k.has_normals),
        flag_bytes(k.has_color),
        flag_bytes(k.has_uv),
        variant_bytes(shading_index(k.shading)),
        variant_bytes(interp_index(k.normal_interp)),
        flag_bytes(k.has_fvar_normals),
        flag_bytes(k.has_fvar_uv),
        flag_bytes(k.has_fvar_color),
        flag_bytes(k.has_fvar_opacity),
        flag_bytes(k.has_displacement),
        flag_bytes(k.has_alpha_cutoff),
        flag_bytes(k.wireframe),
        flag_bytes(k.has_ibl),
        variant_bytes(topology_index(k.topology)),
        flag_bytes(k.depth_only),
        flag_bytes(k.flat_shading),
        flag_bytes(k.use_shadows),
        flag_bytes(k.use_instancing),
        flag_bytes(k.pick_buffer_rw),
    );
}

proof fn lemma_flag_bytes_injective(x: bool, y: bool)
    requires
        flag_bytes(x) == flag_bytes(y),
    ensures
        x == y,
{
    reveal(flag_bytes);
    assert(flag_bytes(x)[0] == (if x {
        1u8
    } else {
        0u8
    }));
    assert(flag_bytes(y)[0] == (if y {
        1u8
    } else {
        0u8
    }));
}

proof fn lemma_variant_bytes_injective(x: u8, y: u8)
    requires
        variant_bytes(x) == variant_bytes(y),
    ensures
        x == y,
{
    reveal(variant_bytes);
    assert(variant_bytes(x)[0] == x);
    assert(variant_bytes(y)[0] == y);
}

proof fn lemma_variant_indices_injective(a: MeshShaderKey, b: MeshShaderKey)
    ensures
        shading_index(a.shading) == shading_index(b.shading) ==> a.shading == b.shading,
        interp_index(a.normal_interp) == interp_index(b.normal_interp) ==> a.normal_interp
            == b.normal_interp,
        topology_index(a.topology) == topology_index(b.topology) ==> a.topology == b.topology,
{
}

proof fn lemma_equal_chunks_fields_1(a: MeshShaderKey, b: MeshShaderKey)
    requires
        mesh_key_chunks(a) == mesh_key_chunks(b),
    ensures
        a.has_normals == b.has_normals,
        a.has_color == b.has_color,
        a.has_uv == b.has_uv,
        shading_index(a.shading) == shading_index(b.shading),
        interp_index(a.normal_interp) == interp_index(b.normal_interp),
{
    lemma_key_chunks_at(a);
    lemma_key_chunks_at(b);
    assert(a.has_normals == b.has_normals) by {
        assert(mesh_key_chunks(a)[0] == mesh_key_chunks(b)[0]);
        lemma_flag_bytes_injective(a.has_normals, b.has_normals);
    }
    assert(a.has_color == b.has_color) by {
        assert(mesh_key_chunks(a)[1] == mesh_key_chunks(b)[1]);
        lemma_flag_bytes_injective(a.has_color, b.has_color);
    }
    assert(a.has_uv == b.has_uv) by {
        assert(mesh_key_chunks(a)[2] == mesh_key_chunks(b)[2]);
        lemma_flag_bytes_injective(a.has_uv, b.has_uv);
    }
    assert(shading_index(a.shading) == shading_index(b.shading)) by {
        assert(mesh_key_chunks(a)[3] == mesh_key_chunks(b)[3]);
        lemma_variant_bytes_injective(shading_index(a.shading), shading_index(b.shading));
    }
    assert(interp_index(a.normal_interp) == interp_index(b.normal_interp)) by {
        assert(mesh_key_chunks(a)[4] == mesh_key_chunks(b)[4]);
        lemma_variant_bytes_injective(interp_index(a.normal_interp), interp_index(b.normal_interp));
    }
}


proof fn lemma_equal_chunks_fields_2(a: MeshShaderKey, b: MeshShaderKey)
    requires
        mesh_key_chunks(a) == mesh_key_chunks(b),
    ensures
        a.has_fvar_normals == b.has_fvar_normals,
        a.has_fvar_uv == b.has_fvar_uv,
        a.has_fvar_color == b.has_fvar_color,
        a.has_fvar_opacity == b.has_fvar_opacity,
        a.has_displacement == b.has_displacement,
{
    lemma_key_chunks_at(a);
    lemma_key_chunks_at(b);
    assert(a.has_fvar_normals == b.has_fvar_normals) by {
        assert(mesh_key_chunks(a)[5] == mesh_key_chunks(b)[5]);
        lemma_flag_bytes_injective(a.has_fvar_normals, b.has_fvar_normals);
    }
    assert(a.has_fvar_uv == b.has_fvar_uv) by {
        assert(mesh_key_chunks(a)[6] == mesh_key_chunks(b)[6]);
        lemma_flag_bytes_injective(a.has_fvar_uv, b.has_fvar_uv);
    }
    assert(a.has_fvar_color == b.has_fvar_color) by {
        assert(mesh_key_chunks(a)[7] == mesh_key_chunks(b)[7]);
        lemma_flag_bytes_injective(a.has_fvar_color, b.has_fvar_color);
    }
    assert(a.has_fvar_opacity == b.has_fvar_opacity) by {
        assert(mesh_key_chunks(a)[8] == mesh_key_chunks(b)[8]);
        lemma_flag_bytes_injective(a.has_fvar_opacity, b.has_fvar_opacity);
    }
    assert(a.has_displacement == b.has_displacement) by {
        assert(mesh_key_chunks(a)[9] == mesh_key_chunks(b)[9]);
        lemma_flag_bytes_injective(a.has_displacement, b.has_displacement);
    }
}


proof fn lemma_equal_chunks_fields_3(a: MeshShaderKey, b: MeshShaderKey)
    requires
        mesh_key_chunks(a) == mesh_key_chunks(b),
    ensures
        a.has_alpha_cutoff == b.has_alpha_cutoff,
        a.wireframe == b.wireframe,
        a.has_ibl == b.has_ibl,
        topology_index(a.topology) == topology_index(b.topology),
        a.depth_only == b.depth_only,
{
    lemma_key_chunks_at(a);
    lemma_key_chunks_at(b);
    assert(a.has_alpha_cutoff == b.has_alpha_cutoff) by {
        assert(mesh_key_chunks(a)[10] == mesh_key_chunks(b)[10]);
        lemma_flag_bytes_injective(a.has_alpha_cutoff, b.has_alpha_cutoff);
    }
    assert(a.wireframe == b.wireframe) by {
        assert(mesh_key_chunks(a)[11] == mesh_key_chunks(b)[11]);
        lemma_flag_bytes_injective(a.wireframe, b.wireframe);
    }
    assert(a.has_ibl == b.has_ibl) by {
        assert(mesh_key_chunks(a)[12] == mesh_key_chunks(b)[12]);
        lemma_flag_bytes_injective(a.has_ibl, b.has_ibl);
    }
    assert(topology_index(a.topology) == topology_index(b.topology)) by {
        assert(mesh_key_chunks(a)[13] == mesh_key_chunks(b)[13]);
        lemma_variant_bytes_injective(topology_index(a.topology), topology_index(b.topology));
    }
    assert(a.depth_only == b.depth_only) by {
        assert(mesh_key_chunks(a)[14] == mesh_key_chunks(b)[14]);
        lemma_flag_bytes_injective(a.depth_only, b.depth_only);
    }
}


proof fn lemma_equal_chunks_fields_4(a: MeshShaderKey, b: MeshShaderKey)
    requires
        mesh_key_chunks(a) == mesh_key_chunks(b),
    ensures
        a.flat_shading == b.flat_shading,
        a.use_shadows == b.use_shadows,
        a.use_instancing == b.use_instancing,
        a.pick_buffer_rw == b.pick_buffer_rw,
{
    lemma_key_chunks_at(a);
    lemma_key_chunks_at(b);
    assert(a.flat_shading == b.flat_shading) by {
        assert(mesh_key_chunks(a)[15] == mesh_key_chunks(b)[15]);
        lemma_flag_bytes_injective(a.flat_shading, b.flat_shading);
    }
    assert(a.use_shadows == b.use_shadows) by {
        assert(mesh_key_chunks(a)[16] == mesh_key_chunks(b)[16]);
        lemma_flag_bytes_injective(a.use_shadows, b.use_shadows);
    }
    assert(a.use_instancing == b.use_instancing) by {
        assert(mesh_key_chunks(a)[17] == mesh_key_chunks(b)[17]);
        lemma_flag_bytes_injective(a.use_instancing, b.use_instancing);
    }
    assert(a.pick_buffer_rw == b.pick_buffer_rw) by {
        assert(mesh_key_chunks(a)[18] == mesh_key_chunks(b)[18]);
        lemma_flag_bytes_injective(a.pick_buffer_rw, b.pick_buffer_rw);
    }
}

proof fn lemma_equal_chunks_equal_keys(a: MeshShaderKey, b: MeshShaderKey)
    requires
        mesh_key_chunks(a) == mesh_key_chunks(b),
    ensures
        a == b,
{
    lemma_equal_chunks_fields_1(a, b);
    lemma_equal_chunks_fields_2(a, b);
    lemma_equal_chunks_fields_3(a, b);
    lemma_equal_chunks_fields_4(a, b);
    lemma_variant_indices_injective(a, b);
}

/// The bytes hashed for a key determine the key: two keys feed the hasher
/// the same writes exactly when they are equal, so equal cache hashes come
/// from equal keys or from a collision of the hash itself.
pub proof fn lemma_cache_hash_input_identifies_key(a: MeshShaderKey, b: MeshShaderKey)
    ensures
        mesh_key_chunks(a) == mesh_key_chunks(b) <==> a == b,
{
    if mesh_key_chunks(a) =~= mesh_key_chunks(b) {
        lemma_equal_chunks_equal_keys(a, b);
    }
}

/// Between one and four vertex attributes, and face-varying primvars never
/// count.
pub proof fn lemma_vertex_attr_count_bounds(k: MeshShaderKey)
    ensures
        1 <= spec_vertex_attr_count(k) <= 4,
        (k.has_fvar_normals && k.has_fvar_color && k.has_fvar_uv) ==> spec_vertex_attr_count(k)
            == 1,
{
}

/// The key shades with per-pixel face normals.
pub open spec fn spec_uses_face_normals(k: MeshShaderKey) -> bool {
    k.shading is GeomFlat
}

/// The key's shading model ignores materials and textures.
pub open spec fn spec_ignores_materials(k: MeshShaderKey) -> bool {
    k.shading is FlatColor || k.shading is GeomFlat || k.shading is GeomSmooth
}

/// A key that shades with face normals ignores materials; exactly the lit
/// models (Blinn-Phong and PBR) read them.
pub proof fn lemma_face_normals_ignore_materials(k: MeshShaderKey)
    ensures
        spec_uses_face_normals(k) ==> spec_ignores_materials(k),
        spec_ignores_materials(k) <==> !(k.shading is BlinnPhong || k.shading is Pbr),
{
}

/// Each optional vertex attribute counts exactly when it is present and
/// not face-varying, independently of the others: a face-varying one adds
/// nothing over leaving it out, and a present vertex-domain one adds one.
pub proof fn lemma_vertex_attr_count_per_attribute(k: MeshShaderKey)
    ensures
        spec_vertex_attr_count((MeshShaderKey { has_uv: true, has_fvar_uv: true, ..k }))
            == spec_vertex_attr_count((MeshShaderKey { has_uv: false, ..k })),
        spec_vertex_attr_count((MeshShaderKey { has_uv: true, has_fvar_uv: false, ..k }))
            == spec_vertex_attr_count((MeshShaderKey { has_uv: false, ..k })) + 1,
        spec_vertex_attr_count((MeshShaderKey { has_normals: true, has_fvar_normals: true, ..k }))
            == spec_vertex_attr_count((MeshShaderKey { has_normals: false, ..k })),
        spec_vertex_attr_count((MeshShaderKey { has_normals: true, has_fvar_normals: false, ..k }))
            == spec_vertex_attr_count((MeshShaderKey { has_normals: false, ..k })) + 1,
        spec_vertex_attr_count((MeshShaderKey { has_color: true, has_fvar_color: true, ..k }))
            == spec_vertex_attr_count((MeshShaderKey { has_color: false, ..k })),
        spec_vertex_attr_count((MeshShaderKey { has_color: true, has_fvar_color: false, ..k }))
            == spec_vertex_attr_count((MeshShaderKey { has_color: false, ..k })) + 1,
        spec_vertex_attr_count(
            (MeshShaderKey { has_normals: false, has_color: false, has_uv: false, ..k }),
        ) == 1,
{
}

} // verus!
