//! The render object: the mesh interchange arrays turned into de-duplicated
//! vertex and index lists, packed into staged GPU buffers, with the object's
//! texture, colour uniform and descriptor pools.
//!
//! De-duplication is keyed by exact equality of position, colour and texture
//! coordinates: two occurrences of bit-identical attributes share one vertex.

use vstd::prelude::*;

use crate::buffer::{
    BufferState, MemoryType, RenderError, PROP_DEVICE_LOCAL, USAGE_INDEX, USAGE_TRANSFER_DST,
    USAGE_TRANSFER_SRC, USAGE_VERTEX,
};
use crate::desc::{
    DescSetLayout, DescriptorPool, DescriptorType, LayoutBinding, STAGE_FRAGMENT,
};
use crate::image::{ImageOp, ImageState, spec_texture_upload_plan, floor_log2};
use crate::model::{
    le_bytes32, spec_apply_channel, spec_color_bytes, color_bytes, Color, RgbaValue, Uniform,
    VertexKey,
};

verus! {

/// The nine 32-bit attribute words of one packed vertex, in buffer order.
pub open spec fn vertex_words(v: VertexKey) -> Seq<u32> {
    seq![v.pos_x, v.pos_y, v.pos_z, v.col_r, v.col_g, v.col_b, v.col_a, v.uv_u, v.uv_v]
}

/// The attribute words of a whole vertex list, in order.
pub open spec fn spec_words_of_vertices(vs: Seq<VertexKey>) -> Seq<u32>
    decreases vs.len(),
{
    if vs.len() == 0 {
        Seq::empty()
    } else {
        vertex_words(vs[0]) + spec_words_of_vertices(vs.drop_first())
    }
}

/// The little-endian bytes of a word list, in order: what a staged vertex or
/// index buffer holds.
pub open spec fn spec_pack_u32s(ws: Seq<u32>) -> Seq<u8>
    decreases ws.len(),
{
    if ws.len() == 0 {
        Seq::empty()
    } else {
        le_bytes32(ws[0]) + spec_pack_u32s(ws.drop_first())
    }
}

/// Packing one more word appends its four bytes.
proof fn lemma_pack_u32s_push(ws: Seq<u32>, w: u32)
    ensures
        spec_pack_u32s(ws.push(w)) == spec_pack_u32s(ws) + le_bytes32(w),
    decreases ws.len(),
{
    if ws.len() == 0 {
        assert(ws =~= Seq::<u32>::empty());
        assert(ws.push(w)[0] == w);
        assert(ws.push(w).drop_first() =~= Seq::<u32>::empty());
        assert(spec_pack_u32s(Seq::<u32>::empty()) == Seq::<u8>::empty());
        assert(spec_pack_u32s(ws.push(w)) =~= spec_pack_u32s(ws) + le_bytes32(w));
    } else {
        assert(ws.push(w)[0] == ws[0]);
        assert(ws.push(w).drop_first() =~= ws.drop_first().push(w));
        lemma_pack_u32s_push(ws.drop_first(), w);
        assert(spec_pack_u32s(ws.push(w)) =~= spec_pack_u32s(ws) + le_bytes32(w));
    }
}

/// One more vertex appends its nine words.
proof fn lemma_words_push(vs: Seq<VertexKey>, v: VertexKey)
    ensures
        spec_words_of_vertices(vs.push(v)) == spec_words_of_vertices(vs) + vertex_words(v),
    decreases vs.len(),
{
    if vs.len() == 0 {
        assert(vs =~= Seq::<VertexKey>::empty());
        assert(vs.push(v)[0] == v);
        assert(vs.push(v).drop_first() =~= Seq::<VertexKey>::empty());
        assert(spec_words_of_vertices(Seq::<VertexKey>::empty()) == Seq::<u32>::empty());
        assert(spec_words_of_vertices(vs.push(v)) =~= spec_words_of_vertices(vs) + vertex_words(
            v,
        ));
    } else {
        assert(vs.push(v)[0] == vs[0]);
        assert(vs.push(v).drop_first() =~= vs.drop_first().push(v));
        lemma_words_push(vs.drop_first(), v);
        assert(spec_words_of_vertices(vs.push(v)) =~= spec_words_of_vertices(vs) + vertex_words(
            v,
        ));
    }
}

/// Packs a word list little-endian.
pub fn pack_u32s(ws: &Vec<u32>) -> (r: Vec<u8>)
    requires
        ws@.len() * 4 <= usize::MAX,
    ensures
        r@ == spec_pack_u32s(ws@),
        r@.len() == ws@.len() * 4,
{
    let mut out: Vec<u8> = Vec::new();
    let mut i: usize = 0;
    proof {
        assert(ws@.take(0) =~= Seq::<u32>::empty());
    }
    while i < ws.len()
        invariant
            i <= ws@.len(),
            ws@.len() * 4 <= usize::MAX,
            out@ == spec_pack_u32s(ws@.take(i as int)),
            out@.len() == i * 4,
        decreases ws@.len() - i,
    {
        crate::model::push_le32(&mut out, ws[i]);
        proof {
            assert(ws@.take(i + 1) =~= ws@.take(i as int).push(ws@[i as int]));
            lemma_pack_u32s_push(ws@.take(i as int), ws@[i as int]);
        }
        i = i + 1;
    }
    proof {
        assert(ws@.take(ws@.len() as int) =~= ws@);
    }
    out
}

/// Flattens a vertex list into its attribute words.
pub fn vertices_to_words(vs: &Vec<VertexKey>) -> (r: Vec<u32>)
    requires
        vs@.len() * 9 <= usize::MAX,
    ensures
        r@ == spec_words_of_vertices(vs@),
        r@.len() == vs@.len() * 9,
{
    let mut out: Vec<u32> = Vec::new();
    let mut i: usize = 0;
    proof {
        assert(vs@.take(0) =~= Seq::<VertexKey>::empty());
    }
    while i < vs.len()
        invariant
            i <= vs@.len(),
            vs@.len() * 9 <= usize::MAX,
            out@ == spec_words_of_vertices(vs@.take(i as int)),
            out@.len() == i * 9,
        decreases vs@.len() - i,
    {
        let v = vs[i];
        let ghost pre = out@;
        out.push(v.pos_x);
        out.push(v.pos_y);
        out.push(v.pos_z);
        out.push(v.col_r);
        out.push(v.col_g);
        out.push(v.col_b);
        out.push(v.col_a);
        out.push(v.uv_u);
        out.push(v.uv_v);
        proof {
            assert(out@ =~= pre + vertex_words(v));
            assert(vs@.take(i + 1) =~= vs@.take(i as int).push(vs@[i as int]));
            lemma_words_push(vs@.take(i as int), vs@[i as int]);
        }
        i = i + 1;
    }
    proof {
        assert(vs@.take(vs@.len() as int) =~= vs@);
    }
    out
}

/// The vertex a mesh index names: its position triple and texture coordinate
/// pair gathered from the interchange arrays, with the fill colour.
pub open spec fn spec_vertex_at(
    positions: Seq<u32>,
    texcoords: Seq<u32>,
    vertex_color: (u32, u32, u32, u32),
    idx: int,
) -> VertexKey {
    VertexKey {
        pos_x: positions[3 * idx],
        pos_y: positions[3 * idx + 1],
        pos_z: positions[3 * idx + 2],
        col_r: vertex_color.0,
        col_g: vertex_color.1,
        col_b: vertex_color.2,
        col_a: vertex_color.3,
        uv_u: texcoords[2 * idx],
        uv_v: texcoords[2 * idx + 1],
    }
}

/// A mesh index names attributes inside both arrays.
pub open spec fn spec_index_in_range(
    positions: Seq<u32>,
    texcoords: Seq<u32>,
    idx: int,
) -> bool {
    3 * idx + 2 < positions.len() && 2 * idx + 1 < texcoords.len()
}

/// The vertex the mesh's `k`-th index names: the gathered vertex stream.
pub open spec fn spec_stream_vertex(
    mesh_indices: Seq<u32>,
    positions: Seq<u32>,
    texcoords: Seq<u32>,
    vertex_color: (u32, u32, u32, u32),
    k: int,
) -> VertexKey {
    spec_vertex_at(positions, texcoords, vertex_color, mesh_indices[k] as int)
}

/// Position `k` of the gathered stream is the first occurrence of its
/// vertex: no earlier position carries the same attributes.
pub open spec fn spec_first_occurrence(
    mesh_indices: Seq<u32>,
    positions: Seq<u32>,
    texcoords: Seq<u32>,
    vertex_color: (u32, u32, u32, u32),
    k: int,
) -> bool {
    forall|j: int|
        0 <= j < k ==> spec_stream_vertex(mesh_indices, positions, texcoords, vertex_color, j)
            != spec_stream_vertex(mesh_indices, positions, texcoords, vertex_color, k)
}

/// How many distinct vertices the gathered stream holds before position `k`:
/// the position a vertex first seen at `k` is stored at.
pub open spec fn spec_distinct_prefix(
    mesh_indices: Seq<u32>,
    positions: Seq<u32>,
    texcoords: Seq<u32>,
    vertex_color: (u32, u32, u32, u32),
    k: int,
) -> nat
    decreases k,
{
    if k <= 0 {
        0
    } else if exists|j: int|
        0 <= j < k - 1 && #[trigger] spec_stream_vertex(
            mesh_indices,
            positions,
            texcoords,
            vertex_color,
            j,
        ) == spec_stream_vertex(mesh_indices, positions, texcoords, vertex_color, k - 1) {
        spec_distinct_prefix(mesh_indices, positions, texcoords, vertex_color, k - 1)
    } else {
        spec_distinct_prefix(mesh_indices, positions, texcoords, vertex_color, k - 1) + 1
    }
}

/// Finds a vertex in the list, first match.
fn find_vertex(vs: &Vec<VertexKey>, v: &VertexKey) -> (r: Option<usize>)
    ensures
        match r {
            Some(i) => i < vs@.len() && vs@[i as int] == *v,
            None => forall|j: int| 0 <= j < vs@.len() ==> vs@[j] != *v,
        },
{
    let mut j: usize = 0;
    while j < vs.len()
        invariant
            j <= vs@.len(),
            forall|jj: int| 0 <= jj < j ==> vs@[jj] != *v,
        decreases vs@.len() - j,
    {
        if vs[j] == *v {
            return Some(j);
        }
        j = j + 1;
    }
    None
}

/// A de-duplicated mesh: unique vertices and indices into them.
pub struct MeshData {
    pub vertices: Vec<VertexKey>,
    pub indices: Vec<u32>,
}

/// Walks the mesh's index list, gathers each named vertex from the position
/// and texture-coordinate arrays, and de-duplicates by exact attribute
/// equality: the result has one entry per distinct vertex, every index in
/// bounds, and index `k` still naming exactly the vertex the mesh's `k`-th
/// index named. An index naming attributes outside the arrays is reported
/// rather than read.
pub fn build_mesh(
    mesh_indices: &Vec<u32>,
    positions: &Vec<u32>,
    texcoords: &Vec<u32>,
    vertex_color: (u32, u32, u32, u32),
) -> (r: Result<MeshData, RenderError>)
    requires
        mesh_indices@.len() < u32::MAX,
    ensures
        match r {
            Ok(m) => {
                &&& m.indices@.len() == mesh_indices@.len()
                &&& m.vertices@.len() <= mesh_indices@.len()
                &&& forall|k: int|
                    0 <= k < m.indices@.len() ==> (#[trigger] m.indices@[k]) < m.vertices@.len()
                &&& forall|k: int|
                    0 <= k < mesh_indices@.len() ==> spec_index_in_range(
                        positions@,
                        texcoords@,
                        (#[trigger] mesh_indices@[k]) as int,
                    )
                &&& forall|k: int|
                    0 <= k < m.indices@.len() ==> m.vertices@[(#[trigger] m.indices@[k]) as int]
                        == spec_vertex_at(
                        positions@,
                        texcoords@,
                        vertex_color,
                        mesh_indices@[k] as int,
                    )
                &&& forall|i: int, j: int|
                    0 <= i < j < m.vertices@.len() ==> m.vertices@[i] != m.vertices@[j]
                &&& m.vertices@.len() == spec_distinct_prefix(
                    mesh_indices@,
                    positions@,
                    texcoords@,
                    vertex_color,
                    mesh_indices@.len() as int,
                )
                &&& forall|k: int|
                    0 <= k < m.indices@.len() && spec_first_occurrence(
                        mesh_indices@,
                        positions@,
                        texcoords@,
                        vertex_color,
                        k,
                    ) ==> (#[trigger] m.indices@[k]) == spec_distinct_prefix(
                        mesh_indices@,
                        positions@,
                        texcoords@,
                        vertex_color,
                        k,
                    )
            },
            Err(e) => {
                &&& e == RenderError::IndexOutOfRange
                &&& exists|k: int|
                    0 <= k < mesh_indices@.len() && !spec_index_in_range(
                        positions@,
                        texcoords@,
                        (#[trigger] mesh_indices@[k]) as int,
                    )
            },
        },
{
    let mut vertices: Vec<VertexKey> = Vec::new();
    let mut indices: Vec<u32> = Vec::new();
    let mut k: usize = 0;
    while k < mesh_indices.len()
        invariant
            k <= mesh_indices@.len(),
            mesh_indices@.len() < u32::MAX,
            indices@.len() == k,
            vertices@.len() <= k,
            forall|kk: int| 0 <= kk < k ==> (#[trigger] indices@[kk]) < vertices@.len(),
            forall|kk: int|
                0 <= kk < k ==> spec_index_in_range(
                    positions@,
                    texcoords@,
                    (#[trigger] mesh_indices@[kk]) as int,
                ),
            forall|kk: int|
                0 <= kk < k ==> vertices@[(#[trigger] indices@[kk]) as int] == spec_vertex_at(
                    positions@,
                    texcoords@,
                    vertex_color,
                    mesh_indices@[kk] as int,
                ),
            forall|i: int, j: int| 0 <= i < j < vertices@.len() ==> vertices@[i] != vertices@[j],
            vertices@.len() == spec_distinct_prefix(
                mesh_indices@,
                positions@,
                texcoords@,
                vertex_color,
                k as int,
            ),
            forall|kk: int|
                0 <= kk < k && spec_first_occurrence(
                    mesh_indices@,
                    positions@,
                    texcoords@,
                    vertex_color,
                    kk,
                ) ==> (#[trigger] indices@[kk]) == spec_distinct_prefix(
                    mesh_indices@,
                    positions@,
                    texcoords@,
                    vertex_color,
                    kk,
                ),
            forall|v: int|
                0 <= v < vertices@.len() ==> exists|j: int|
                    0 <= j < k && spec_stream_vertex(
                        mesh_indices@,
                        positions@,
                        texcoords@,
                        vertex_color,
                        j,
                    ) == #[trigger] vertices@[v],
        decreases mesh_indices@.len() - k,
    {
        let index = mesh_indices[k];
        let index64 = index as u64;
        if index64 * 3 + 2 >= positions.len() as u64 || index64 * 2 + 1 >= texcoords.len() as u64 {
            return Err(RenderError::IndexOutOfRange);
        }
        let idx = index as usize;
        let vertex = VertexKey {
            pos_x: positions[idx * 3],
            pos_y: positions[idx * 3 + 1],
            pos_z: positions[idx * 3 + 2],
            col_r: vertex_color.0,
            col_g: vertex_color.1,
            col_b: vertex_color.2,
            col_a: vertex_color.3,
            uv_u: texcoords[idx * 2],
            uv_v: texcoords[idx * 2 + 1],
        };
        proof {
            assert(vertex == spec_stream_vertex(
                mesh_indices@,
                positions@,
                texcoords@,
                vertex_color,
                k as int,
            ));
        }
        match find_vertex(&vertices, &vertex) {
            Some(existing) => {
                indices.push(existing as u32);
                proof {
                    // the found vertex came from an earlier stream position:
                    // this is a repeat, and the distinct count stays put
                    let j0 = choose|j: int|
                        0 <= j < k && spec_stream_vertex(
                            mesh_indices@,
                            positions@,
                            texcoords@,
                            vertex_color,
                            j,
                        ) == vertices@[existing as int];
                    assert(spec_stream_vertex(
                        mesh_indices@,
                        positions@,
                        texcoords@,
                        vertex_color,
                        j0,
                    ) == spec_stream_vertex(
                        mesh_indices@,
                        positions@,
                        texcoords@,
                        vertex_color,
                        k as int,
                    ));
                    assert(spec_distinct_prefix(
                        mesh_indices@,
                        positions@,
                        texcoords@,
                        vertex_color,
                        k + 1,
                    ) == spec_distinct_prefix(
                        mesh_indices@,
                        positions@,
                        texcoords@,
                        vertex_color,
                        k as int,
                    ));
                }
            },
            None => {
                let fresh = vertices.len();
                vertices.push(vertex);
                indices.push(fresh as u32);
                proof {
                    // no earlier stream position carries these attributes:
                    // a first occurrence, stored at the next free position
                    assert forall|j: int| 0 <= j < k implies spec_stream_vertex(
                        mesh_indices@,
                        positions@,
                        texcoords@,
                        vertex_color,
                        j,
                    ) != spec_stream_vertex(
                        mesh_indices@,
                        positions@,
                        texcoords@,
                        vertex_color,
                        k as int,
                    ) by {
                        assert(vertices@.take(fresh as int)[indices@[j] as int]
                            == spec_stream_vertex(
                            mesh_indices@,
                            positions@,
                            texcoords@,
                            vertex_color,
                            j,
                        ));
                    }
                    assert(spec_first_occurrence(
                        mesh_indices@,
                        positions@,
                        texcoords@,
                        vertex_color,
                        k as int,
                    ));
                    assert(spec_distinct_prefix(
                        mesh_indices@,
                        positions@,
                        texcoords@,
                        vertex_color,
                        k + 1,
                    ) == spec_distinct_prefix(
                        mesh_indices@,
                        positions@,
                        texcoords@,
                        vertex_color,
                        k as int,
                    ) + 1);
                }
            },
        }
        k = k + 1;
    }
    Ok(MeshData { vertices, indices })
}

/// A loaded render object: the de-duplicated mesh, its staged vertex and
/// index buffers, the sampled texture with its upload fence, the colour
/// uniform, and the two descriptor pools the object's sets come from.
pub struct RenderObject {
    pub color_desc_pool: DescriptorPool,
    pub texture_desc_pool: DescriptorPool,
    pub vertices: Vec<VertexKey>,
    pub indices: Vec<u32>,
    pub color: RgbaValue,
    pub image: ImageState,
    pub color_uniform: Uniform,
    pub vertex_buffer: BufferState,
    pub index_buffer: Option<BufferState>,
}

impl RenderObject {
    /// The object's buffers and sets are usable: live buffers of the right
    /// shape, an allocated colour set over a sixteen-byte host-visible
    /// uniform, and the texture in a waitable state.
    pub open spec fn wf(&self) -> bool {
        &&& self.vertex_buffer.wf()
        &&& self.vertex_buffer.ready
        &&& match self.index_buffer {
            Some(b) => b.wf() && b.ready,
            None => true,
        }
        &&& self.color_uniform.buffer is Some
        &&& self.color_uniform.buffer.unwrap().wf()
        &&& self.color_uniform.buffer.unwrap().ready
        &&& self.color_uniform.buffer.unwrap().host_visible()
        &&& self.color_uniform.buffer.unwrap().size == 16
        &&& self.color_uniform.desc is Some
        &&& self.color_uniform.desc.unwrap().allocated
        &&& self.color_uniform.desc.unwrap().layout.live
        &&& self.image.wf()
        &&& self.image.transfered_image_fence.live
        &&& self.indices@.len() <= u32::MAX
    }

    /// Builds the object from its de-duplicated mesh and decoded texture:
    /// descriptor layouts and pools for the texture and colour sets, the
    /// texture upload, the staged vertex and index buffers, and the colour
    /// uniform, initialised white. The texture upload is waited on before
    /// returning, so the one-shot staging pool can be destroyed.
    pub fn new_from_vertices(
        vertices: Vec<VertexKey>,
        indices: Vec<u32>,
        img_pixels: &[u8],
        tex_width: u32,
        tex_height: u32,
        pitch_alignment: u32,
        memory_types: &Vec<MemoryType>,
        type_mask: u32,
        linear_filter_supported: bool,
    ) -> (r: Result<(RenderObject, Vec<ImageOp>), RenderError>)
        requires
            memory_types@.len() <= 32,
            tex_width >= 1,
            tex_height >= 1,
            img_pixels@.len() == tex_width * tex_height * 4,
            pitch_alignment >= 1,
            pitch_alignment & ((pitch_alignment - 1) as u32) == 0,
            tex_width * 4 + pitch_alignment <= u32::MAX,
            tex_height * (tex_width * 4 + pitch_alignment) <= usize::MAX,
            vertices@.len() * 9 * 4 <= usize::MAX,
            indices@.len() * 4 <= usize::MAX,
            indices@.len() <= u32::MAX,
        ensures
            match r {
                Ok((o, plan)) => {
                    &&& o.wf()
                    &&& o.vertices@ == vertices@
                    &&& o.indices@ == indices@
                    &&& o.vertex_buffer@ == spec_pack_u32s(spec_words_of_vertices(vertices@))
                    &&& o.vertex_buffer.usage == USAGE_TRANSFER_DST | USAGE_VERTEX
                    &&& o.vertex_buffer.properties == PROP_DEVICE_LOCAL
                    &&& (indices@.len() > 0 <==> o.index_buffer is Some)
                    &&& indices@.len() > 0 ==> {
                        &&& o.index_buffer.unwrap()@ == spec_pack_u32s(indices@)
                        &&& o.index_buffer.unwrap().usage == USAGE_TRANSFER_DST | USAGE_INDEX
                        &&& o.index_buffer.unwrap().properties == PROP_DEVICE_LOCAL
                    }
                    &&& o.color == (RgbaValue { r: 255u32, g: 25u32, b: 25u32, a: 255u32 })
                    &&& o.color_uniform.buffer.unwrap()@ == spec_color_bytes(
                        RgbaValue { r: 255u32, g: 255u32, b: 255u32, a: 255u32 },
                    )
                    &&& o.image.transfered_image_fence.signaled
                    &&& match o.image.buffer {
                        Some(b) => !b.gpu_pending,
                        None => false,
                    }
                    &&& o.texture_desc_pool.live
                    &&& o.texture_desc_pool.allocated == 1
                    &&& o.color_desc_pool.live
                    &&& o.color_desc_pool.allocated == 1
                    &&& (tex_width >= tex_height ==> o.image.mip_levels == floor_log2(
                        tex_width as nat,
                    ) + 1)
                    &&& (tex_height > tex_width ==> o.image.mip_levels == floor_log2(
                        tex_height as nat,
                    ) + 1)
                    &&& plan@ == spec_texture_upload_plan(
                        tex_width as nat,
                        tex_height as nat,
                        o.image.mip_levels as nat,
                        (o.image.buffer.unwrap().size as int / tex_height as int / 4) as nat,
                        linear_filter_supported,
                    )
                },
                Err(e) => {
                    &&& e == RenderError::NoSuitableMemoryType
                    &&& (crate::buffer::no_suitable_memory_type(
                        memory_types@,
                        type_mask,
                        crate::buffer::PROP_CPU_VISIBLE | crate::buffer::PROP_COHERENT,
                    ) || crate::buffer::no_suitable_memory_type(
                        memory_types@,
                        type_mask,
                        PROP_DEVICE_LOCAL,
                    ))
                },
            },
    {
        let mut texture_bindings: Vec<LayoutBinding> = Vec::new();
        texture_bindings.push(LayoutBinding {
            binding: 0,
            ty: DescriptorType::SampledImage,
            count: 1,
            stage_flags: STAGE_FRAGMENT,
        });
        texture_bindings.push(LayoutBinding {
            binding: 1,
            ty: DescriptorType::Sampler,
            count: 1,
            stage_flags: STAGE_FRAGMENT,
        });
        let texture_desc = DescSetLayout::new(texture_bindings);
        let mut color_bindings: Vec<LayoutBinding> = Vec::new();
        color_bindings.push(LayoutBinding {
            binding: 0,
            ty: DescriptorType::UniformBuffer,
            count: 1,
            stage_flags: STAGE_FRAGMENT,
        });
        let color_desc = DescSetLayout::new(color_bindings);

        let mut texture_desc_pool = DescriptorPool::new(1);
        let mut color_desc_pool = DescriptorPool::new(1);

        let texture_desc = match texture_desc.create_desc_set(&mut texture_desc_pool) {
            Ok(set) => set,
            Err(e) => {
                // a fresh pool with room for one set cannot be exhausted
                proof {
                    assert(false);
                }
                return Err(e);
            },
        };
        let color_desc = match color_desc.create_desc_set(&mut color_desc_pool) {
            Ok(set) => set,
            Err(e) => {
                // a fresh pool with room for one set cannot be exhausted
                proof {
                    assert(false);
                }
                return Err(e);
            },
        };

        let (mut image, plan) = match ImageState::new_texture(
            texture_desc,
            img_pixels,
            tex_width,
            tex_height,
            pitch_alignment,
            memory_types,
            USAGE_TRANSFER_SRC,
            type_mask,
            linear_filter_supported,
        ) {
            Ok(t) => t,
            Err(e) => {
                return Err(e);
            },
        };

        let vertex_words = vertices_to_words(&vertices);
        let vertex_bytes = pack_u32s(&vertex_words);
        let vertex_buffer = match BufferState::new_vertex_buffer(
            vertex_bytes.as_slice(),
            memory_types,
            type_mask,
        ) {
            Ok(b) => b,
            Err(e) => {
                return Err(e);
            },
        };

        let index_buffer = if indices.len() > 0 {
            let index_bytes = pack_u32s(&indices);
            match BufferState::new_index_buffer(index_bytes.as_slice(), memory_types, type_mask) {
                Ok(b) => Some(b),
                Err(e) => {
                    return Err(e);
                },
            }
        } else {
            None
        };

        let white = RgbaValue { r: 255, g: 255, b: 255, a: 255 };
        let white_bytes = color_bytes(white);
        let color_uniform = match Uniform::new(
            white_bytes.as_slice(),
            color_desc,
            0,
            memory_types,
            type_mask,
        ) {
            Ok(u) => u,
            Err(e) => {
                return Err(e);
            },
        };

        // block until the texture transfer is done, so the one-shot staging
        // pool can be destroyed before the object is used
        image.wait_for_transfer_completion();

        Ok((
            RenderObject {
                color_desc_pool,
                texture_desc_pool,
                vertices,
                indices,
                color: RgbaValue { r: 255, g: 25, b: 25, a: 255 },
                image,
                color_uniform,
                vertex_buffer,
                index_buffer,
            },
            plan,
        ))
    }

    /// Appends the object's buffer bindings to a frame's command plan: the
    /// vertex buffer at the given binding index, and the index buffer when
    /// the object has one. Returns the next free binding index.
    pub fn bind_buffers(&self, cmd: &mut Vec<crate::model::RenderCommand>, offset: u32) -> (r: u32)
        requires
            offset < u32::MAX,
        ensures
            r == offset + 1,
            final(cmd)@ == old(cmd)@ + seq![
                crate::model::RenderCommand::BindVertexBuffer { binding: offset },
            ] + (if self.index_buffer is Some {
                seq![crate::model::RenderCommand::BindIndexBuffer]
            } else {
                Seq::empty()
            }),
    {
        let ghost pre = cmd@;
        cmd.push(crate::model::RenderCommand::BindVertexBuffer { binding: offset });
        if self.index_buffer.is_some() {
            cmd.push(crate::model::RenderCommand::BindIndexBuffer);
            proof {
                assert(cmd@ =~= pre + seq![
                    crate::model::RenderCommand::BindVertexBuffer { binding: offset },
                ] + seq![crate::model::RenderCommand::BindIndexBuffer]);
            }
        } else {
            proof {
                assert(cmd@ =~= pre + seq![
                    crate::model::RenderCommand::BindVertexBuffer { binding: offset },
                ] + Seq::<crate::model::RenderCommand>::empty());
            }
        }
        offset + 1
    }

    /// The object's current colour.
    pub fn get_color(&self) -> (r: RgbaValue)
        ensures
            r == self.color,
    {
        self.color
    }

    /// Sets one channel of the object's colour to `value` and writes the
    /// whole colour into the uniform buffer the colour set reads.
    pub fn update_color(&mut self, color: &Color, value: u32)
        requires
            old(self).wf(),
        ensures
            final(self).wf(),
            final(self).color == spec_apply_channel(old(self).color, *color, value),
            final(self).color_uniform.buffer.unwrap()@ == spec_color_bytes(final(self).color),
            final(self).vertices@ == old(self).vertices@,
            final(self).indices@ == old(self).indices@,
            final(self).vertex_buffer == old(self).vertex_buffer,
            final(self).index_buffer == old(self).index_buffer,
            final(self).image == old(self).image,
    {
        match color {
            Color::Red => {
                self.color.r = value;
            },
            Color::Green => {
                self.color.g = value;
            },
            Color::Blue => {
                self.color.b = value;
            },
            Color::Alpha => {
                self.color.a = value;
            },
        }
        let bytes = color_bytes(self.color);
        match &mut self.color_uniform.buffer {
            Some(b) => {
                let res = b.update_data(0, bytes.as_slice());
                proof {
                    assert(res is Ok);
                    assert(b@ =~= spec_color_bytes(self.color));
                }
            },
            None => {
                proof {
                    assert(false);
                }
            },
        }
    }
}

} // verus!
