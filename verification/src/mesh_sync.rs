//! The data side of a Storm mesh prim: the buffers its vertex data is
//! uploaded into, the packed buffer of its face-varying primvars, and the
//! sync step that takes what the scene delegate gives for the dirty bits.

use vstd::prelude::*;
use vstd::string::StringExecFns;
use crate::mesh::{
    expand_f32_components_by_indices, is_face_varying_channel, max_index_plus_one, tuples_by_indices,
    HdStMeshTopology, HdStMeshVertexData,
};
use crate::text::str_eq;
use crate::lighting::words_bytes;
use crate::mesh::encode_f32_slice_le;

verus! {

/// A named buffer of a buffer array: its element count and the byte size
/// of one element.
#[derive(Debug, Clone)]
pub struct BufferSpec {
    pub name: String,
    pub num_elements: usize,
    pub element_size: usize,
}

/// A buffer spec as (name, element count, element size).
pub open spec fn buffer_spec_view(s: BufferSpec) -> (Seq<char>, int, int) {
    (s.name@, s.num_elements as int, s.element_size as int)
}

/// One buffer spec, or none when `present` is false.
pub open spec fn spec_if(present: bool, name: Seq<char>, n: int, size: int) -> Seq<(Seq<char>, int, int)> {
    if present {
        seq![(name, n, size)]
    } else {
        Seq::empty()
    }
}

/// The vertex buffers of a mesh's vertex data: nothing without a whole
/// position; else the points (vec3, 12 bytes), then the normals (vec3), the
/// texture coordinates `st` (vec2, 8 bytes) and the display colors (vec3)
/// that are present, each with its own element count.
pub open spec fn spec_vertex_buffer_specs(vd: HdStMeshVertexData) -> Seq<(Seq<char>, int, int)> {
    let n = vd.positions@.len() / 3;
    if n == 0 {
        Seq::empty()
    } else {
        seq![("points"@, n as int, 12int)]
            + spec_if(vd.normals@.len() > 0, "normals"@, (vd.normals@.len() / 3) as int, 12)
            + spec_if(vd.uvs@.len() > 0, "st"@, (vd.uvs@.len() / 2) as int, 8)
            + spec_if(vd.colors@.len() > 0, "displayColor"@, (vd.colors@.len() / 3) as int, 12)
    }
}

fn push_spec(specs: &mut Vec<BufferSpec>, name: &str, num_elements: usize, element_size: usize)
    ensures
        final(specs)@.map_values(|s: BufferSpec| buffer_spec_view(s)) == old(specs)@.map_values(
            |s: BufferSpec| buffer_spec_view(s),
        ).push((name@, num_elements as int, element_size as int)),
{
    specs.push(BufferSpec { name: String::from_str(name), num_elements, element_size });
    assert(specs@.map_values(|s: BufferSpec| buffer_spec_view(s)) =~= old(specs)@.map_values(
        |s: BufferSpec| buffer_spec_view(s),
    ).push((name@, num_elements as int, element_size as int)));
}

/// The buffer specs a mesh's vertex data is uploaded with.
pub fn vertex_buffer_specs(vd: &HdStMeshVertexData) -> (specs: Vec<BufferSpec>)
    ensures
        specs@.map_values(|s: BufferSpec| buffer_spec_view(s)) == spec_vertex_buffer_specs(*vd),
{
    let mut specs: Vec<BufferSpec> = Vec::new();
    let n = vd.positions.len() / 3;
    if n == 0 {
        assert(specs@.map_values(|s: BufferSpec| buffer_spec_view(s)) =~= Seq::<(Seq<char>, int, int)>::empty());
        return specs;
    }
    push_spec(&mut specs, "points", n, 12);
    let ghost s0 = specs@.map_values(|s: BufferSpec| buffer_spec_view(s));
    assert(s0 =~= seq![("points"@, n as int, 12int)]);
    if vd.normals.len() > 0 {
        push_spec(&mut specs, "normals", vd.normals.len() / 3, 12);
    }
    let ghost s1 = specs@.map_values(|s: BufferSpec| buffer_spec_view(s));
    assert(s1 =~= s0 + spec_if(vd.normals@.len() > 0, "normals"@, (vd.normals@.len() / 3) as int, 12));
    if vd.uvs.len() > 0 {
        push_spec(&mut specs, "st", vd.uvs.len() / 2, 8);
    }
    let ghost s2 = specs@.map_values(|s: BufferSpec| buffer_spec_view(s));
    assert(s2 =~= s1 + spec_if(vd.uvs@.len() > 0, "st"@, (vd.uvs@.len() / 2) as int, 8));
    if vd.colors.len() > 0 {
        push_spec(&mut specs, "displayColor", vd.colors.len() / 3, 12);
    }
    let ghost s3 = specs@.map_values(|s: BufferSpec| buffer_spec_view(s));
    assert(s3 =~= s2 + spec_if(vd.colors@.len() > 0, "displayColor"@, (vd.colors@.len() / 3) as int, 12));
    specs
}

/// The data of one buffer of a buffer array: its name, its little-endian
/// bytes, its element count and the byte size of one element.
#[derive(Debug, Clone)]
pub struct BufferSourceData {
    pub name: String,
    pub bytes: Vec<u8>,
    pub num_elements: usize,
    pub element_size: usize,
}

/// One channel, or none when `present` is false.
pub open spec fn channel_if(present: bool, ch: Seq<u32>) -> Seq<Seq<u32>> {
    if present {
        seq![ch]
    } else {
        Seq::empty()
    }
}

/// The channels behind the vertex buffers, in the order of their specs.
pub open spec fn spec_vertex_buffer_channels(vd: HdStMeshVertexData) -> Seq<Seq<u32>> {
    if vd.positions@.len() / 3 == 0 {
        Seq::empty()
    } else {
        seq![vd.positions@] + channel_if(vd.normals@.len() > 0, vd.normals@) + channel_if(
            vd.uvs@.len() > 0,
            vd.uvs@,
        ) + channel_if(vd.colors@.len() > 0, vd.colors@)
    }
}

/// A source holds a buffer spec's name, count and size and the bytes of a
/// channel.
pub open spec fn source_matches(src: BufferSourceData, spec: (Seq<char>, int, int), ch: Seq<u32>) -> bool {
    &&& (src.name@, src.num_elements as int, src.element_size as int) == spec
    &&& src.bytes@ == words_bytes(ch)
}

/// The sources a mesh's vertex data is uploaded from: for each vertex
/// buffer, its spec and the little-endian bytes of its channel.
pub fn vertex_buffer_sources(vd: &HdStMeshVertexData) -> (sources: Vec<BufferSourceData>)
    ensures
        sources@.len() == spec_vertex_buffer_specs(*vd).len(),
        forall|i: int|
            0 <= i < sources@.len() ==> source_matches(
                #[trigger] sources@[i],
                spec_vertex_buffer_specs(*vd)[i],
                spec_vertex_buffer_channels(*vd)[i],
            ),
{
    let specs = vertex_buffer_specs(vd);
    let ghost sv = specs@.map_values(|s: BufferSpec| buffer_spec_view(s));
    let ghost chans = spec_vertex_buffer_channels(*vd);
    let mut channels: Vec<&Vec<u32>> = Vec::new();
    if vd.positions.len() / 3 > 0 {
        channels.push(&vd.positions);
        if vd.normals.len() > 0 {
            channels.push(&vd.normals);
        }
        if vd.uvs.len() > 0 {
            channels.push(&vd.uvs);
        }
        if vd.colors.len() > 0 {
            channels.push(&vd.colors);
        }
    }
    assert(channels@.len() == chans.len());
    assert forall|i: int| 0 <= i < channels@.len() implies (#[trigger] channels@[i])@ == chans[i] by {
        if vd.positions@.len() / 3 > 0 {
            assert(chans =~= seq![vd.positions@] + channel_if(vd.normals@.len() > 0, vd.normals@)
                + channel_if(vd.uvs@.len() > 0, vd.uvs@) + channel_if(vd.colors@.len() > 0, vd.colors@));
        }
    }
    let mut sources: Vec<BufferSourceData> = Vec::new();
    let mut i: usize = 0;
    while i < specs.len()
        invariant
            i <= specs@.len(),
            sv == specs@.map_values(|s: BufferSpec| buffer_spec_view(s)),
            sv == spec_vertex_buffer_specs(*vd),
            channels@.len() == chans.len(),
            chans == spec_vertex_buffer_channels(*vd),
            chans.len() == sv.len(),
            forall|j: int| 0 <= j < channels@.len() ==> (#[trigger] channels@[j])@ == chans[j],
            sources@.len() == i,
            forall|j: int|
                0 <= j < i ==> {
                    &&& (sources@[j].name@, sources@[j].num_elements as int, sources@[j].element_size as int)
                        == #[trigger] sv[j]
                    &&& sources@[j].bytes@ == words_bytes(chans[j])
                },
        decreases specs.len() - i,
    {
        let bytes = encode_f32_slice_le(channels[i].as_slice());
        assert(buffer_spec_view(specs@[i as int]) == sv[i as int]);
        sources.push(
            BufferSourceData {
                name: specs[i].name.clone(),
                bytes,
                num_elements: specs[i].num_elements,
                element_size: specs[i].element_size,
            },
        );
        i = i + 1;
    }
    assert forall|j: int| 0 <= j < sources@.len() implies source_matches(
        #[trigger] sources@[j],
        spec_vertex_buffer_specs(*vd)[j],
        spec_vertex_buffer_channels(*vd)[j],
    ) by {
        assert(sv[j] == spec_vertex_buffer_specs(*vd)[j]);
        assert((sources@[j].name@, sources@[j].num_elements as int, sources@[j].element_size as int) == sv[j]);
    }
    sources
}

/// Face-varying primvars of a mesh, kept apart from its vertex primvars,
/// every float as its bit pattern: normals and colors (three per
/// face-vertex), texture coordinates (two) and opacity (one).
#[derive(Debug, Clone)]
pub struct FaceVaryingPrimvars {
    pub normals: Vec<u32>,
    pub uvs: Vec<u32>,
    pub colors: Vec<u32>,
    pub opacity: Vec<u32>,
}

/// Some face-varying channel holds data.
pub open spec fn fvar_has_any(f: FaceVaryingPrimvars) -> bool {
    f.normals@.len() > 0 || f.uvs@.len() > 0 || f.colors@.len() > 0 || f.opacity@.len() > 0
}

/// A channel expanded along the triangulated face-varying index map: one
/// tuple per index, or nothing for an empty channel.
pub open spec fn fvar_channel(ch: Seq<u32>, components: int, indices: Seq<u32>) -> Seq<u32> {
    if ch.len() == 0 {
        Seq::empty()
    } else {
        tuples_by_indices(ch, components, indices)
    }
}

/// A header word: the channel's offset in words, or `u32::MAX` for a
/// channel that packed nothing.
pub open spec fn fvar_header_word(channel: Seq<u32>, offset: nat) -> u32 {
    if channel.len() > 0 {
        offset as u32
    } else {
        u32::MAX
    }
}

/// The packed face-varying buffer: a header of four words giving the
/// offset of the normals, texture coordinates, colors and opacity (or
/// `u32::MAX` for one that packed nothing), then each channel expanded along
/// the index map, in that order. Nothing when no channel packed anything.
pub open spec fn spec_packed_fvar_words(f: FaceVaryingPrimvars, indices: Seq<u32>) -> Option<Seq<u32>> {
    let e0 = fvar_channel(f.normals@, 3, indices);
    let e1 = fvar_channel(f.uvs@, 2, indices);
    let e2 = fvar_channel(f.colors@, 3, indices);
    let e3 = fvar_channel(f.opacity@, 1, indices);
    let payload = e0 + e1 + e2 + e3;
    if payload.len() == 0 {
        None
    } else {
        Some(
            seq![
                fvar_header_word(e0, 4),
                fvar_header_word(e1, 4 + e0.len()),
                fvar_header_word(e2, 4 + e0.len() + e1.len()),
                fvar_header_word(e3, 4 + e0.len() + e1.len() + e2.len()),
            ] + payload,
        )
    }
}

fn expand_channel(ch: &Vec<u32>, components: usize, indices: &[u32]) -> (out: Vec<u32>)
    requires
        1 <= components <= 3,
        forall|k: int| 0 <= k < indices.len() ==> (#[trigger] indices[k]) * 3 + 3 <= usize::MAX,
    ensures
        out@ == fvar_channel(ch@, components as int, indices@),
{
    if ch.len() == 0 {
        Vec::new()
    } else {
        assert forall|k: int| 0 <= k < indices.len() implies (#[trigger] indices[k]) * components
            + components <= usize::MAX by {
            assert(indices[k] * components <= indices[k] * 3) by (nonlinear_arith)
                requires
                    components <= 3,
            ;
        }
        expand_f32_components_by_indices(ch.as_slice(), components, indices)
    }
}

/// Packs the face-varying primvars into one word buffer along the
/// triangulated face-varying index map.
pub fn pack_face_varying_words(fvar: &FaceVaryingPrimvars, tri_fvar_indices: &[u32]) -> (w: Option<
    Vec<u32>,
>)
    requires
        forall|k: int|
            0 <= k < tri_fvar_indices.len() ==> (#[trigger] tri_fvar_indices[k]) * 3 + 3 <= usize::MAX,
    ensures
        match w {
            Some(v) => spec_packed_fvar_words(*fvar, tri_fvar_indices@) == Some(v@),
            None => spec_packed_fvar_words(*fvar, tri_fvar_indices@) is None,
        },
{
    let e0 = expand_channel(&fvar.normals, 3, tri_fvar_indices);
    let e1 = expand_channel(&fvar.uvs, 2, tri_fvar_indices);
    let e2 = expand_channel(&fvar.colors, 3, tri_fvar_indices);
    let e3 = expand_channel(&fvar.opacity, 1, tri_fvar_indices);
    let mut header: Vec<u32> = Vec::new();
    let mut payload: Vec<u32> = Vec::new();
    let channels = [&e0, &e1, &e2, &e3];
    let mut i: usize = 0;
    while i < 4
        invariant
            i <= 4,
            channels@ == seq![&e0, &e1, &e2, &e3],
            header@.len() == i,
            i >= 1 ==> header@[0] == fvar_header_word(e0@, 4),
            i >= 2 ==> header@[1] == fvar_header_word(e1@, 4 + e0@.len()),
            i >= 3 ==> header@[2] == fvar_header_word(e2@, 4 + e0@.len() + e1@.len()),
            i >= 4 ==> header@[3] == fvar_header_word(e3@, 4 + e0@.len() + e1@.len() + e2@.len()),
            i == 0 ==> payload@ == Seq::<u32>::empty(),
            i == 1 ==> payload@ == e0@,
            i == 2 ==> payload@ == e0@ + e1@,
            i == 3 ==> payload@ == e0@ + e1@ + e2@,
            i == 4 ==> payload@ == e0@ + e1@ + e2@ + e3@,
        decreases 4 - i,
    {
        let ch = channels[i];
        if ch.len() > 0 {
            let l = payload.len();
            let w: u32 = (l as u32).wrapping_add(4);
            assert(w == ((l + 4) as u32)) by (bit_vector)
                requires
                    w == (if (l as u32) + 4 > u32::MAX {
                        ((l as u32) + 4 - 0x1_0000_0000) as u32
                    } else {
                        ((l as u32) + 4) as u32
                    }),
            ;
            header.push(w);
            let mut j: usize = 0;
            let ghost before = payload@;
            while j < ch.len()
                invariant
                    j <= ch.len(),
                    payload@ == before + ch@.take(j as int),
                decreases ch.len() - j,
            {
                payload.push(ch[j]);
                assert(ch@.take(j as int + 1) =~= ch@.take(j as int).push(ch@[j as int]));
                j = j + 1;
            }
            assert(ch@.take(ch.len() as int) =~= ch@);
        } else {
            header.push(u32::MAX);
            assert(payload@ + ch@ =~= payload@);
        }
        i = i + 1;
    }
    if payload.len() == 0 {
        return None;
    }
    let mut words = header;
    let ghost h = words@;
    let mut j: usize = 0;
    while j < payload.len()
        invariant
            j <= payload.len(),
            words@ == h + payload@.take(j as int),
        decreases payload.len() - j,
    {
        words.push(payload[j]);
        assert(payload@.take(j as int + 1) =~= payload@.take(j as int).push(payload@[j as int]));
        j = j + 1;
    }
    assert(payload@.take(payload.len() as int) =~= payload@);
    assert(h =~= seq![
        fvar_header_word(e0@, 4),
        fvar_header_word(e1@, 4 + e0@.len()),
        fvar_header_word(e2@, 4 + e0@.len() + e1@.len()),
        fvar_header_word(e3@, 4 + e0@.len() + e1@.len() + e2@.len()),
    ]);
    Some(words)
}


/// Rprim dirty bit: the display style (refinement level) changed.
pub const RPRIM_DIRTY_DISPLAY_STYLE: u32 = 16;

/// Rprim dirty bit: the points changed.
pub const RPRIM_DIRTY_POINTS: u32 = 32;

/// Rprim dirty bit: some primvar changed.
pub const RPRIM_DIRTY_PRIMVAR: u32 = 64;

/// Rprim dirty bit: the topology changed.
pub const RPRIM_DIRTY_TOPOLOGY: u32 = 256;

/// Rprim dirty bit: the transform changed.
pub const RPRIM_DIRTY_TRANSFORM: u32 = 512;

/// Rprim dirty bit: the visibility changed.
pub const RPRIM_DIRTY_VISIBILITY: u32 = 1024;

/// Every scene dirty bit of an rprim: the bits below `1 << 23`.
pub const RPRIM_ALL_SCENE_DIRTY_BITS: u32 = 0x7f_ffff;

/// The face-varying topology a list of primvars is read through.
#[derive(Debug, Clone)]
pub struct TopologyToPrimvarEntry {
    pub topology: Vec<i32>,
    pub primvars: Vec<String>,
}

/// What a mesh prim holds between syncs: its topology, its vertex data as
/// drawn and as authored, its display opacity as drawn and as authored, its
/// face-varying primvars and the face-varying topology they are read
/// through, its visibility, whether its topology varies over time, what
/// needs processing again (topology, vertices, constant primvars), its
/// refinement level and its world transform (the bits of `f64` values).
#[derive(Debug, Clone)]
pub struct HdStMeshState {
    pub topology: HdStMeshTopology,
    pub vertex_data: HdStMeshVertexData,
    pub authored_vertex_data: HdStMeshVertexData,
    pub display_opacity: Vec<u32>,
    pub authored_display_opacity: Vec<u32>,
    pub face_varying_primvars: FaceVaryingPrimvars,
    pub fvar_topology_to_primvar_vector: Vec<TopologyToPrimvarEntry>,
    pub visible: bool,
    pub has_varying_topology: bool,
    pub topology_dirty: bool,
    pub vertex_dirty: bool,
    pub constant_primvars_dirty: bool,
    pub refine_level: u32,
    pub world_transform: [u64; 16],
}

/// The topology a scene delegate gives a mesh.
#[derive(Debug, Clone)]
pub struct MeshTopologyValues {
    pub face_vertex_counts: Vec<i32>,
    pub face_vertex_indices: Vec<i32>,
    pub hole_indices: Vec<i32>,
    pub orientation: String,
    pub scheme: String,
}

/// A primvar as the scene delegate gives it: not authored on the mesh,
/// authored but not an array of the expected type, or its values (the bits
/// of its `f32` components, flattened) with its indices when it is indexed.
#[derive(Debug, Clone)]
pub enum PrimvarRead {
    NotAuthored,
    Unreadable,
    Values { values: Vec<u32>, indices: Option<Vec<i32>> },
}

/// What a scene delegate gives a mesh prim for a sync: visibility,
/// topology, refinement level of its display style, transform (bits of
/// `f64` values), points (flattened `f32` bits, when they are a point
/// array), normals, display opacity, display color and the texture
/// coordinate primvar. Each is read only where its dirty bit asks for it.
#[derive(Debug, Clone)]
pub struct MeshDelegateValues {
    pub visible: bool,
    pub topology: MeshTopologyValues,
    pub refine_level: i32,
    pub transform: [u64; 16],
    pub points: Option<Vec<u32>>,
    pub normals: PrimvarRead,
    pub display_opacity: PrimvarRead,
    pub display_color: PrimvarRead,
    pub uvs: PrimvarRead,
}

/// The tuple of `c` values an index selects, or zeros for an index that is
/// negative or past the last whole tuple.
pub open spec fn indexed_tuple(values: Seq<u32>, c: int, i: i32) -> Seq<u32> {
    if 0 <= i && i < (values.len() as int) / c {
        values.subrange(i * c, i * c + c)
    } else {
        Seq::new(c as nat, |j: int| 0u32)
    }
}

/// The tuples a list of indices selects, in order.
pub open spec fn indexed_tuples(values: Seq<u32>, c: int, indices: Seq<i32>) -> Seq<u32>
    decreases indices.len(),
{
    if indices.len() == 0 {
        Seq::empty()
    } else {
        indexed_tuples(values, c, indices.drop_last()) + indexed_tuple(values, c, indices.last())
    }
}

/// A primvar's values expanded through its indices, when it has them.
pub open spec fn expanded_values(values: Seq<u32>, c: int, indices: Option<Vec<i32>>) -> Seq<u32> {
    match indices {
        Some(idx) => indexed_tuples(values, c, idx@),
        None => values,
    }
}

/// The expanded values of a read primvar, nothing for one not read.
pub open spec fn read_expanded(read: PrimvarRead, c: int) -> Seq<u32> {
    match read {
        PrimvarRead::Values { values, indices } => expanded_values(values@, c, indices),
        _ => Seq::empty(),
    }
}

/// When a read changes a channel: a primvar that is not authored clears it;
/// one read as values sets it, where normals always do, opacity and color
/// only when the expansion is not empty (`rule` 1), and texture coordinates
/// only when the values are not empty (`rule` 2); an unreadable one leaves
/// it.
pub open spec fn read_takes_effect(read: PrimvarRead, c: int, rule: int) -> bool {
    match read {
        PrimvarRead::NotAuthored => true,
        PrimvarRead::Unreadable => false,
        PrimvarRead::Values { values, indices } => rule == 0 || (rule == 1 && expanded_values(
            values@,
            c,
            indices,
        ).len() > 0) || (rule == 2 && values@.len() > 0),
    }
}

/// Authored data of `count` entries is face-varying: non-empty, not the
/// vertex count and the face-varying count.
pub open spec fn spec_is_face_varying(count: int, vertex_count: int, face_varying_count: int) -> bool {
    count > 0 && count != vertex_count && count == face_varying_count
}

/// A read primvar is face-varying for the mesh.
pub open spec fn read_is_face_varying(read: PrimvarRead, c: int, vertex_count: int, fv_count: int) -> bool {
    read is Values && spec_is_face_varying((read_expanded(read, c).len() as int) / c, vertex_count, fv_count)
}

/// A face-varying channel after a primvar read.
pub open spec fn read_fvar(read: PrimvarRead, c: int, rule: int, vc: int, fvc: int) -> Seq<u32> {
    if read_takes_effect(read, c, rule) && read_is_face_varying(read, c, vc, fvc) {
        read_expanded(read, c)
    } else {
        Seq::empty()
    }
}

/// A vertex channel after a primvar read.
pub open spec fn read_vertex(read: PrimvarRead, c: int, rule: int, vc: int, fvc: int, old: Seq<u32>) -> Seq<u32> {
    if !read_takes_effect(read, c, rule) {
        old
    } else if read_is_face_varying(read, c, vc, fvc) {
        Seq::empty()
    } else {
        read_expanded(read, c)
    }
}

/// The names of the face-varying channels that hold data, in slot order.
pub open spec fn fvar_primvar_names(f: FaceVaryingPrimvars) -> Seq<Seq<char>> {
    (if f.normals@.len() > 0 { seq!["normals"@] } else { Seq::empty() })
        + (if f.uvs@.len() > 0 { seq!["st"@] } else { Seq::empty() })
        + (if f.colors@.len() > 0 { seq!["displayColor"@] } else { Seq::empty() })
        + (if f.opacity@.len() > 0 { seq!["displayOpacity"@] } else { Seq::empty() })
}

/// The face-varying topology metadata of a mesh: with face-varying data and
/// indices, one entry reading the named channels through the face-vertex
/// indices; nothing otherwise.
pub open spec fn fvar_metadata_ok(
    v: Seq<TopologyToPrimvarEntry>,
    f: FaceVaryingPrimvars,
    indices: Seq<i32>,
) -> bool {
    if fvar_has_any(f) && indices.len() > 0 {
        &&& v.len() == 1
        &&& v[0].topology@ == indices
        &&& v[0].primvars@.map_values(|s: String| s@) == fvar_primvar_names(f)
    } else {
        v.len() == 0
    }
}

impl HdStMeshState {
    /// The point count the topology holds after the topology and points
    /// reads of a sync.
    pub open spec fn synced_num_points(&self, bits: u32, values: MeshDelegateValues) -> int {
        if bits & (RPRIM_DIRTY_PRIMVAR | RPRIM_DIRTY_POINTS) != 0 && values.points is Some {
            (values.points->0@.len() / 3) as int
        } else if bits & RPRIM_DIRTY_TOPOLOGY != 0 {
            (self.authored_vertex_data.positions@.len() / 3) as int
        } else {
            self.topology.num_points as int
        }
    }

    /// The face-vertex indices after the topology read of a sync.
    pub open spec fn synced_indices(&self, bits: u32, values: MeshDelegateValues) -> Seq<i32> {
        if bits & RPRIM_DIRTY_TOPOLOGY != 0 {
            values.topology.face_vertex_indices@
        } else {
            self.topology.face_vertex_indices@
        }
    }

    /// The vertex count primvars are classified against: the point count,
    /// or one more than the largest index without one.
    pub open spec fn synced_vertex_count(&self, bits: u32, values: MeshDelegateValues) -> int {
        let np = self.synced_num_points(bits, values);
        if np > 0 {
            np
        } else {
            let idx = self.synced_indices(bits, values);
            max_index_plus_one(idx, idx.len() as int)
        }
    }

    /// The refinement level a display style asks for: clamped to 0..=8.
    pub open spec fn clamped_refine_level(level: i32) -> u32 {
        if level < 0 {
            0
        } else if level > 8 {
            8
        } else {
            level as u32
        }
    }
}

/// Copies a list of words.
fn copy_words(v: &[u32]) -> (r: Vec<u32>)
    ensures
        r@ == v@,
{
    let mut r: Vec<u32> = Vec::new();
    let mut i: usize = 0;
    while i < v.len()
        invariant
            i <= v.len(),
            r@ == v@.take(i as int),
        decreases v.len() - i,
    {
        r.push(v[i]);
        assert(v@.take(i as int + 1) =~= v@.take(i as int).push(v@[i as int]));
        i = i + 1;
    }
    assert(v@.take(v.len() as int) =~= v@);
    r
}

/// Expands a primvar (tuples of `c` values) through its indices: one tuple
/// per index, zeros for an index that selects no whole tuple; without
/// indices, the values themselves.
pub fn expand_indexed_tuples(values: &[u32], c: usize, indices: Option<&[i32]>) -> (out: Vec<u32>)
    requires
        1 <= c <= 3,
    ensures
        out@ == match indices {
            Some(idx) => indexed_tuples(values@, c as int, idx@),
            None => values@,
        },
{
    match indices {
        None => copy_words(values),
        Some(idx) => {
            let mut out: Vec<u32> = Vec::new();
            let n = values.len() / c;
            let mut k: usize = 0;
            while k < idx.len()
                invariant
                    1 <= c <= 3,
                    n == (values@.len() as int) / (c as int),
                    k <= idx.len(),
                    out@ == indexed_tuples(values@, c as int, idx@.take(k as int)),
                decreases idx.len() - k,
            {
                let ghost before = out@;
                let i = idx[k];
                if 0 <= i && (i as usize) < n {
                    assert((i as usize) * c + c <= values@.len()) by (nonlinear_arith)
                        requires
                            (i as usize) < n,
                            n == (values@.len() as int) / (c as int),
                            c >= 1,
                    {
                        assert(n * c <= values@.len());
                    }
                    let len = values.len();
                    assert((i as usize) * c <= len);
                    let base = (i as usize) * c;
                    let mut j: usize = 0;
                    while j < c
                        invariant
                            j <= c,
                            base + c <= values.len(),
                            out@ == before + values@.subrange(base as int, base + j),
                        decreases c - j,
                    {
                        out.push(values[base + j]);
                        assert(values@.subrange(base as int, base + j + 1) =~= values@.subrange(
                            base as int,
                            base + j,
                        ).push(values@[base + j]));
                        j = j + 1;
                    }
                } else {
                    let mut j: usize = 0;
                    while j < c
                        invariant
                            j <= c,
                            out@ == before + Seq::new(j as nat, |q: int| 0u32),
                        decreases c - j,
                    {
                        out.push(0);
                        assert(Seq::new((j + 1) as nat, |q: int| 0u32) =~= Seq::new(j as nat, |q: int| 0u32).push(0u32));
                        j = j + 1;
                    }
                }
                proof {
                    let t = idx@.take(k as int + 1);
                    assert(t.drop_last() =~= idx@.take(k as int));
                    assert(t.last() == i);
                }
                k = k + 1;
            }
            assert(idx@.take(idx.len() as int) =~= idx@);
            out
        },
    }
}

/// Applies a primvar read to a face-varying channel (cleared before) and
/// to the vertex channel as drawn and as authored.
fn apply_read(
    read: &PrimvarRead,
    c: usize,
    rule: u8,
    vertex_count: usize,
    fv_count: usize,
    fvar: &mut Vec<u32>,
    vertex: &mut Vec<u32>,
    authored: &mut Vec<u32>,
)
    requires
        1 <= c <= 3,
        rule <= 2,
        old(fvar)@.len() == 0,
    ensures
        final(fvar)@ == read_fvar(*read, c as int, rule as int, vertex_count as int, fv_count as int),
        final(vertex)@ == read_vertex(
            *read,
            c as int,
            rule as int,
            vertex_count as int,
            fv_count as int,
            old(vertex)@,
        ),
        final(authored)@ == read_vertex(
            *read,
            c as int,
            rule as int,
            vertex_count as int,
            fv_count as int,
            old(authored)@,
        ),
{
    match read {
        PrimvarRead::NotAuthored => {
            *vertex = Vec::new();
            *authored = Vec::new();
        },
        PrimvarRead::Unreadable => {},
        PrimvarRead::Values { values, indices } => {
            let expanded = match indices {
                Some(idx) => expand_indexed_tuples(values.as_slice(), c, Some(idx.as_slice())),
                None => expand_indexed_tuples(values.as_slice(), c, None),
            };
            assert(expanded@ == read_expanded(*read, c as int));
            let applies = rule == 0 || (rule == 1 && expanded.len() > 0) || (rule == 2 && values.len()
                > 0);
            if applies {
                if is_face_varying_channel(expanded.len() / c, vertex_count, fv_count) {
                    *fvar = expanded;
                    *vertex = Vec::new();
                    *authored = Vec::new();
                } else {
                    *vertex = copy_words(expanded.as_slice());
                    *authored = expanded;
                }
            }
        },
    }
}

/// The face-varying topology metadata of the face-varying primvars.
fn gather_fvar_metadata(f: &FaceVaryingPrimvars, indices: &Vec<i32>) -> (v: Vec<TopologyToPrimvarEntry>)
    ensures
        fvar_metadata_ok(v@, *f, indices@),
{
    let has_any = f.normals.len() > 0 || f.uvs.len() > 0 || f.colors.len() > 0 || f.opacity.len() > 0;
    if !has_any || indices.len() == 0 {
        return Vec::new();
    }
    let mut names: Vec<String> = Vec::new();
    let ghost e: Seq<Seq<char>> = Seq::empty();
    if f.normals.len() > 0 {
        names.push(String::from_str("normals"));
    }
    assert(names@.map_values(|s: String| s@) =~= (if f.normals@.len() > 0 { seq!["normals"@] } else { e }));
    let ghost n0 = names@.map_values(|s: String| s@);
    if f.uvs.len() > 0 {
        names.push(String::from_str("st"));
    }
    assert(names@.map_values(|s: String| s@) =~= n0 + (if f.uvs@.len() > 0 { seq!["st"@] } else { e }));
    let ghost n1 = names@.map_values(|s: String| s@);
    if f.colors.len() > 0 {
        names.push(String::from_str("displayColor"));
    }
    assert(names@.map_values(|s: String| s@) =~= n1 + (if f.colors@.len() > 0 { seq!["displayColor"@] } else { e }));
    let ghost n2 = names@.map_values(|s: String| s@);
    if f.opacity.len() > 0 {
        names.push(String::from_str("displayOpacity"));
    }
    assert(names@.map_values(|s: String| s@) =~= n2 + (if f.opacity@.len() > 0 {
        seq!["displayOpacity"@]
    } else {
        e
    }));
    let mut topology: Vec<i32> = Vec::new();
    let mut i: usize = 0;
    while i < indices.len()
        invariant
            i <= indices.len(),
            topology@ == indices@.take(i as int),
        decreases indices.len() - i,
    {
        topology.push(indices[i]);
        assert(indices@.take(i as int + 1) =~= indices@.take(i as int).push(indices@[i as int]));
        i = i + 1;
    }
    assert(indices@.take(indices.len() as int) =~= indices@);
    let mut v: Vec<TopologyToPrimvarEntry> = Vec::new();
    v.push(TopologyToPrimvarEntry { topology, primvars: names });
    v
}

/// The vertex count of a topology: its point count, or one more than its
/// largest index without one.
fn topology_vertex_count(t: &HdStMeshTopology) -> (n: usize)
    requires
        t.num_points == 0 ==> forall|k: int|
            0 <= k < t.face_vertex_indices@.len() ==> (#[trigger] t.face_vertex_indices@[k] as usize)
                < usize::MAX,
    ensures
        n == (if t.num_points > 0 {
            t.num_points as int
        } else {
            max_index_plus_one(t.face_vertex_indices@, t.face_vertex_indices@.len() as int)
        }),
{
    t.get_vertex_count()
}

/// The vertex count primvars are classified against for a topology.
pub open spec fn spec_topology_vertex_count(t: HdStMeshTopology) -> int {
    if t.num_points > 0 {
        t.num_points as int
    } else {
        max_index_plus_one(t.face_vertex_indices@, t.face_vertex_indices@.len() as int)
    }
}

/// Reads the normals, display opacity, display color and texture
/// coordinates into the face-varying channels (cleared before) or the
/// vertex channels, against the topology's vertex and face-vertex counts.
fn read_primvars(
    topology: &HdStMeshTopology,
    fvar: &mut FaceVaryingPrimvars,
    vd: &mut HdStMeshVertexData,
    avd: &mut HdStMeshVertexData,
    opacity: &mut Vec<u32>,
    authored_opacity: &mut Vec<u32>,
    normals: &PrimvarRead,
    display_opacity: &PrimvarRead,
    display_color: &PrimvarRead,
    uvs: &PrimvarRead,
)
    requires
        !fvar_has_any(*old(fvar)),
        topology.num_points == 0 ==> forall|k: int|
            0 <= k < topology.face_vertex_indices@.len() ==> (
            #[trigger] topology.face_vertex_indices@[k] as usize) < usize::MAX,
    ensures
        ({
            let vc = spec_topology_vertex_count(*topology);
            let fvc = topology.face_vertex_indices@.len() as int;
            &&& final(fvar).normals@ == read_fvar(*normals, 3, 0, vc, fvc)
            &&& final(fvar).uvs@ == read_fvar(*uvs, 2, 2, vc, fvc)
            &&& final(fvar).colors@ == read_fvar(*display_color, 3, 1, vc, fvc)
            &&& final(fvar).opacity@ == read_fvar(*display_opacity, 1, 1, vc, fvc)
            &&& final(vd).normals@ == read_vertex(*normals, 3, 0, vc, fvc, old(vd).normals@)
            &&& final(avd).normals@ == read_vertex(*normals, 3, 0, vc, fvc, old(avd).normals@)
            &&& final(vd).uvs@ == read_vertex(*uvs, 2, 2, vc, fvc, old(vd).uvs@)
            &&& final(avd).uvs@ == read_vertex(*uvs, 2, 2, vc, fvc, old(avd).uvs@)
            &&& final(vd).colors@ == read_vertex(*display_color, 3, 1, vc, fvc, old(vd).colors@)
            &&& final(avd).colors@ == read_vertex(*display_color, 3, 1, vc, fvc, old(avd).colors@)
            &&& final(opacity)@ == read_vertex(*display_opacity, 1, 1, vc, fvc, old(opacity)@)
            &&& final(authored_opacity)@ == read_vertex(
                *display_opacity,
                1,
                1,
                vc,
                fvc,
                old(authored_opacity)@,
            )
        }),
        final(vd).positions@ == old(vd).positions@,
        final(vd).prev_positions@ == old(vd).prev_positions@,
        final(avd).positions@ == old(avd).positions@,
        final(avd).prev_positions@ == old(avd).prev_positions@,
{
    let vertex_count = topology_vertex_count(topology);
    let fv_count = topology.face_vertex_indices.len();
    apply_read(normals, 3, 0, vertex_count, fv_count, &mut fvar.normals, &mut vd.normals, &mut avd.normals);
    apply_read(display_opacity, 1, 1, vertex_count, fv_count, &mut fvar.opacity, opacity, authored_opacity);
    apply_read(display_color, 3, 1, vertex_count, fv_count, &mut fvar.colors, &mut vd.colors, &mut avd.colors);
    apply_read(uvs, 2, 2, vertex_count, fv_count, &mut fvar.uvs, &mut vd.uvs, &mut avd.uvs);
}

/// The visibility, topology, refinement level and transform reads of a
/// mesh sync, each under its dirty bit.
fn read_scene_fields(
    state: &mut HdStMeshState,
    bits: u32,
    visible: bool,
    topology: MeshTopologyValues,
    refine_level: i32,
    transform: [u64; 16],
)
    ensures
        final(state).visible == if bits & RPRIM_DIRTY_VISIBILITY != 0 {
            visible
        } else {
            old(state).visible
        },
        bits & RPRIM_DIRTY_TOPOLOGY != 0 ==> {
            &&& final(state).topology.face_vertex_counts@ == topology.face_vertex_counts@
            &&& final(state).topology.face_vertex_indices@ == topology.face_vertex_indices@
            &&& final(state).topology.hole_indices@ == topology.hole_indices@
            &&& final(state).topology.right_handed == (topology.orientation@ != "leftHanded"@)
            &&& final(state).topology.subdivision_scheme@ == topology.scheme@
            &&& final(state).topology.num_points == old(state).authored_vertex_data.positions@.len() / 3
        },
        bits & RPRIM_DIRTY_TOPOLOGY == 0 ==> final(state).topology == old(state).topology,
        final(state).has_varying_topology == (old(state).has_varying_topology || (bits
            & RPRIM_DIRTY_TOPOLOGY != 0 && old(state).topology.face_vertex_counts@.len() > 0
            && old(state).topology.face_vertex_counts@.len() != topology.face_vertex_counts@.len())),
        final(state).refine_level == if bits & (RPRIM_DIRTY_DISPLAY_STYLE | RPRIM_DIRTY_TOPOLOGY) != 0 {
            HdStMeshState::clamped_refine_level(refine_level)
        } else {
            old(state).refine_level
        },
        final(state).topology_dirty == (old(state).topology_dirty || bits & RPRIM_DIRTY_TOPOLOGY != 0
            || (bits & (RPRIM_DIRTY_DISPLAY_STYLE | RPRIM_DIRTY_TOPOLOGY) != 0
            && HdStMeshState::clamped_refine_level(refine_level) != old(state).refine_level)),
        final(state).world_transform == if bits & RPRIM_DIRTY_TRANSFORM != 0 {
            transform
        } else {
            old(state).world_transform
        },
        final(state).constant_primvars_dirty == (old(state).constant_primvars_dirty || bits
            & RPRIM_DIRTY_TRANSFORM != 0),
        final(state).vertex_data == old(state).vertex_data,
        final(state).authored_vertex_data == old(state).authored_vertex_data,
        final(state).display_opacity == old(state).display_opacity,
        final(state).authored_display_opacity == old(state).authored_display_opacity,
        final(state).face_varying_primvars == old(state).face_varying_primvars,
        final(state).fvar_topology_to_primvar_vector == old(state).fvar_topology_to_primvar_vector,
        final(state).vertex_dirty == old(state).vertex_dirty,
{
    if bits & RPRIM_DIRTY_VISIBILITY != 0 {
        state.visible = visible;
    }
    if bits & RPRIM_DIRTY_TOPOLOGY != 0 {
        let MeshTopologyValues { face_vertex_counts, face_vertex_indices, hole_indices, orientation, scheme } =
            topology;
        let right_handed = !str_eq(orientation.as_str(), "leftHanded");
        let old_face_count = state.topology.face_vertex_counts.len();
        let new_face_count = face_vertex_counts.len();
        state.topology = HdStMeshTopology {
            face_vertex_counts,
            face_vertex_indices,
            hole_indices,
            right_handed,
            subdivision_scheme: scheme,
            num_points: state.authored_vertex_data.positions.len() / 3,
        };
        if old_face_count > 0 && old_face_count != new_face_count {
            state.has_varying_topology = true;
        }
        state.topology_dirty = true;
    }
    if bits & (RPRIM_DIRTY_DISPLAY_STYLE | RPRIM_DIRTY_TOPOLOGY) != 0 {
        let new_level: u32 = if refine_level < 0 {
            0
        } else if refine_level > 8 {
            8
        } else {
            refine_level as u32
        };
        if state.refine_level != new_level {
            state.refine_level = new_level;
            state.topology_dirty = true;
        }
    }
    if bits & RPRIM_DIRTY_TRANSFORM != 0 {
        state.world_transform = transform;
        state.constant_primvars_dirty = true;
    }
}

/// The sync step of a mesh prim: for each dirty bit, the part the scene
/// delegate gave is taken over. Visibility, topology (with its orientation
/// and scheme, the point count kept), the refinement level of the display
/// style (clamped to 0..=8; topology dirty when it changes), the transform,
/// and the points with the primvars are each read under their bits. A
/// primvar with as many entries as face-vertices (and not as many as
/// vertices) is face-varying and kept apart from the vertex data; with the
/// topology or any primvar dirty, the face-varying channels are cleared
/// before and their topology metadata rebuilt after. The scene dirty bits
/// are then cleared.
#[verifier::rlimit(100)]
#[verifier::spinoff_prover]
pub fn sync_mesh_step(state: &mut HdStMeshState, dirty_bits: &mut u32, values: MeshDelegateValues)
    requires
        *old(dirty_bits) & RPRIM_DIRTY_PRIMVAR != 0 && old(state).synced_num_points(
            *old(dirty_bits),
            values,
        ) == 0 ==> forall|k: int|
            0 <= k < old(state).synced_indices(*old(dirty_bits), values).len() ==> (
            #[trigger] old(state).synced_indices(*old(dirty_bits), values)[k] as usize)
                < usize::MAX,
    ensures
        *final(dirty_bits) == *old(dirty_bits) & !RPRIM_ALL_SCENE_DIRTY_BITS,
        final(state).visible == if *old(dirty_bits) & RPRIM_DIRTY_VISIBILITY != 0 {
            values.visible
        } else {
            old(state).visible
        },
        *old(dirty_bits) & RPRIM_DIRTY_TOPOLOGY != 0 ==> {
            &&& final(state).topology.face_vertex_counts@ == values.topology.face_vertex_counts@
            &&& final(state).topology.face_vertex_indices@ == values.topology.face_vertex_indices@
            &&& final(state).topology.hole_indices@ == values.topology.hole_indices@
            &&& final(state).topology.right_handed == (values.topology.orientation@ != "leftHanded"@)
            &&& final(state).topology.subdivision_scheme@ == values.topology.scheme@
        },
        *old(dirty_bits) & RPRIM_DIRTY_TOPOLOGY == 0 ==> {
            &&& final(state).topology.face_vertex_counts@ == old(state).topology.face_vertex_counts@
            &&& final(state).topology.face_vertex_indices@ == old(state).topology.face_vertex_indices@
            &&& final(state).topology.hole_indices@ == old(state).topology.hole_indices@
            &&& final(state).topology.right_handed == old(state).topology.right_handed
            &&& final(state).topology.subdivision_scheme@ == old(state).topology.subdivision_scheme@
        },
        final(state).topology.num_points == old(state).synced_num_points(*old(dirty_bits), values),
        final(state).has_varying_topology == (old(state).has_varying_topology || (*old(dirty_bits)
            & RPRIM_DIRTY_TOPOLOGY != 0 && old(state).topology.face_vertex_counts@.len() > 0
            && old(state).topology.face_vertex_counts@.len()
            != values.topology.face_vertex_counts@.len())),
        final(state).refine_level == if *old(dirty_bits) & (RPRIM_DIRTY_DISPLAY_STYLE
            | RPRIM_DIRTY_TOPOLOGY) != 0 {
            HdStMeshState::clamped_refine_level(values.refine_level)
        } else {
            old(state).refine_level
        },
        final(state).topology_dirty == (old(state).topology_dirty || *old(dirty_bits)
            & RPRIM_DIRTY_TOPOLOGY != 0 || (*old(dirty_bits) & (RPRIM_DIRTY_DISPLAY_STYLE
            | RPRIM_DIRTY_TOPOLOGY) != 0 && HdStMeshState::clamped_refine_level(values.refine_level)
            != old(state).refine_level)),
        final(state).world_transform == if *old(dirty_bits) & RPRIM_DIRTY_TRANSFORM != 0 {
            values.transform
        } else {
            old(state).world_transform
        },
        final(state).constant_primvars_dirty == (old(state).constant_primvars_dirty || *old(
            dirty_bits,
        ) & RPRIM_DIRTY_TRANSFORM != 0),
        (*old(dirty_bits) & (RPRIM_DIRTY_PRIMVAR | RPRIM_DIRTY_POINTS) != 0 && values.points
            is Some) ==> {
            &&& final(state).vertex_data.positions@ == values.points->0@
            &&& final(state).authored_vertex_data.positions@ == values.points->0@
        },
        !(*old(dirty_bits) & (RPRIM_DIRTY_PRIMVAR | RPRIM_DIRTY_POINTS) != 0 && values.points
            is Some) ==> {
            &&& final(state).vertex_data.positions@ == old(state).vertex_data.positions@
            &&& final(state).authored_vertex_data.positions@ == old(state).authored_vertex_data.positions@
        },
        *old(dirty_bits) & (RPRIM_DIRTY_PRIMVAR | RPRIM_DIRTY_POINTS) != 0 ==> {
            &&& final(state).vertex_data.prev_positions@.len() == 0
            &&& final(state).authored_vertex_data.prev_positions@.len() == 0
        },
        *old(dirty_bits) & (RPRIM_DIRTY_PRIMVAR | RPRIM_DIRTY_POINTS) == 0 ==> {
            &&& final(state).vertex_data.prev_positions@ == old(state).vertex_data.prev_positions@
            &&& final(state).authored_vertex_data.prev_positions@
                == old(state).authored_vertex_data.prev_positions@
        },
        final(state).vertex_dirty == (old(state).vertex_dirty || *old(dirty_bits)
            & RPRIM_DIRTY_PRIMVAR != 0 || (*old(dirty_bits) & (RPRIM_DIRTY_PRIMVAR
            | RPRIM_DIRTY_POINTS) != 0 && values.points is Some)),
        ({
            let b = *old(dirty_bits);
            let vc = old(state).synced_vertex_count(b, values);
            let fvc = old(state).synced_indices(b, values).len() as int;
            let f = final(state).face_varying_primvars;
            let s = *final(state);
            let o = *old(state);
            if b & RPRIM_DIRTY_PRIMVAR != 0 {
                &&& f.normals@ == read_fvar(values.normals, 3, 0, vc, fvc)
                &&& f.uvs@ == read_fvar(values.uvs, 2, 2, vc, fvc)
                &&& f.colors@ == read_fvar(values.display_color, 3, 1, vc, fvc)
                &&& f.opacity@ == read_fvar(values.display_opacity, 1, 1, vc, fvc)
                &&& s.vertex_data.normals@ == read_vertex(values.normals, 3, 0, vc, fvc, o.vertex_data.normals@)
                &&& s.authored_vertex_data.normals@ == read_vertex(
                    values.normals,
                    3,
                    0,
                    vc,
                    fvc,
                    o.authored_vertex_data.normals@,
                )
                &&& s.vertex_data.uvs@ == read_vertex(values.uvs, 2, 2, vc, fvc, o.vertex_data.uvs@)
                &&& s.authored_vertex_data.uvs@ == read_vertex(
                    values.uvs,
                    2,
                    2,
                    vc,
                    fvc,
                    o.authored_vertex_data.uvs@,
                )
                &&& s.vertex_data.colors@ == read_vertex(
                    values.display_color,
                    3,
                    1,
                    vc,
                    fvc,
                    o.vertex_data.colors@,
                )
                &&& s.authored_vertex_data.colors@ == read_vertex(
                    values.display_color,
                    3,
                    1,
                    vc,
                    fvc,
                    o.authored_vertex_data.colors@,
                )
                &&& s.display_opacity@ == read_vertex(
                    values.display_opacity,
                    1,
                    1,
                    vc,
                    fvc,
                    o.display_opacity@,
                )
                &&& s.authored_display_opacity@ == read_vertex(
                    values.display_opacity,
                    1,
                    1,
                    vc,
                    fvc,
                    o.authored_display_opacity@,
                )
            } else {
                &&& s.vertex_data.normals@ == o.vertex_data.normals@
                &&& s.authored_vertex_data.normals@ == o.authored_vertex_data.normals@
                &&& s.vertex_data.uvs@ == o.vertex_data.uvs@
                &&& s.authored_vertex_data.uvs@ == o.authored_vertex_data.uvs@
                &&& s.vertex_data.colors@ == o.vertex_data.colors@
                &&& s.authored_vertex_data.colors@ == o.authored_vertex_data.colors@
                &&& s.display_opacity@ == o.display_opacity@
                &&& s.authored_display_opacity@ == o.authored_display_opacity@
                &&& if b & RPRIM_DIRTY_TOPOLOGY != 0 {
                    !fvar_has_any(f)
                } else {
                    &&& f.normals@ == o.face_varying_primvars.normals@
                    &&& f.uvs@ == o.face_varying_primvars.uvs@
                    &&& f.colors@ == o.face_varying_primvars.colors@
                    &&& f.opacity@ == o.face_varying_primvars.opacity@
                }
            }
        }),
        *old(dirty_bits) & (RPRIM_DIRTY_TOPOLOGY | RPRIM_DIRTY_PRIMVAR) != 0 ==> fvar_metadata_ok(
            final(state).fvar_topology_to_primvar_vector@,
            final(state).face_varying_primvars,
            final(state).topology.face_vertex_indices@,
        ),
        *old(dirty_bits) & (RPRIM_DIRTY_TOPOLOGY | RPRIM_DIRTY_PRIMVAR) == 0
            ==> final(state).fvar_topology_to_primvar_vector@
            == old(state).fvar_topology_to_primvar_vector@,
{
    let bits = *dirty_bits;
    let primvar_value_dirty = bits & RPRIM_DIRTY_PRIMVAR != 0;
    let primvar_or_points_dirty = bits & (RPRIM_DIRTY_PRIMVAR | RPRIM_DIRTY_POINTS) != 0;
    let topo_or_primvar_dirty = bits & (RPRIM_DIRTY_TOPOLOGY | RPRIM_DIRTY_PRIMVAR) != 0;
    assert(primvar_value_dirty ==> topo_or_primvar_dirty) by (bit_vector)
        requires
            primvar_value_dirty == (bits & 64u32 != 0),
            topo_or_primvar_dirty == (bits & (256u32 | 64u32) != 0),
    ;
    assert(primvar_value_dirty ==> primvar_or_points_dirty) by (bit_vector)
        requires
            primvar_value_dirty == (bits & 64u32 != 0),
            primvar_or_points_dirty == (bits & (64u32 | 32u32) != 0),
    ;
    assert((bits & RPRIM_DIRTY_POINTS != 0) ==> primvar_or_points_dirty) by (bit_vector)
        requires
            primvar_or_points_dirty == (bits & (64u32 | 32u32) != 0),
    ;
    assert(topo_or_primvar_dirty == (bits & RPRIM_DIRTY_TOPOLOGY != 0 || bits & RPRIM_DIRTY_PRIMVAR
        != 0)) by (bit_vector)
        requires
            topo_or_primvar_dirty == (bits & (256u32 | 64u32) != 0),
    ;
    let ghost old_state = *state;
    let ghost vals = values;
    let MeshDelegateValues {
        visible,
        topology,
        refine_level,
        transform,
        points,
        normals,
        display_opacity,
        display_color,
        uvs,
    } = values;
    if topo_or_primvar_dirty {
        state.face_varying_primvars = FaceVaryingPrimvars {
            normals: Vec::new(),
            uvs: Vec::new(),
            colors: Vec::new(),
            opacity: Vec::new(),
        };
    }
    read_scene_fields(state, bits, visible, topology, refine_level, transform);
    if primvar_or_points_dirty {
        match points {
            Some(p) => {
                state.vertex_data.positions = copy_words(p.as_slice());
                state.topology.num_points = p.len() / 3;
                state.authored_vertex_data.positions = p;
                state.vertex_dirty = true;
            },
            None => {},
        }
        state.vertex_data.prev_positions = Vec::new();
        state.authored_vertex_data.prev_positions = Vec::new();
        assert(state.topology.num_points == old_state.synced_num_points(bits, vals));
        assert(state.topology.face_vertex_indices@ == old_state.synced_indices(bits, vals));
        if primvar_value_dirty {
            assert(spec_topology_vertex_count(state.topology) == old_state.synced_vertex_count(bits, vals));
            assert(!fvar_has_any(state.face_varying_primvars));
            read_primvars(
                &state.topology,
                &mut state.face_varying_primvars,
                &mut state.vertex_data,
                &mut state.authored_vertex_data,
                &mut state.display_opacity,
                &mut state.authored_display_opacity,
                &normals,
                &display_opacity,
                &display_color,
                &uvs,
            );
            state.vertex_dirty = true;
        }
    }
    if topo_or_primvar_dirty {
        state.fvar_topology_to_primvar_vector = gather_fvar_metadata(
            &state.face_varying_primvars,
            &state.topology.face_vertex_indices,
        );
    }
    *dirty_bits = bits & !RPRIM_ALL_SCENE_DIRTY_BITS;
}

} // verus!
