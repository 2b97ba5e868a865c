//! Plain value types shared by the resource managers: extents, the colour
//! channel selector driven by keyboard input, and the vertex layout metadata
//! the pipeline is built against.

use vstd::prelude::*;

use crate::buffer::{BufferState, MemoryType, RenderError, USAGE_UNIFORM, PROP_CPU_VISIBLE, PROP_COHERENT, no_suitable_memory_type};
use crate::desc::{DescSet, DescSetWrite, DescriptorType};

verus! {

/// A two-dimensional extent (window, image or mip level).
#[derive(Clone, Copy, PartialEq, Eq, Structural, Debug)]
pub struct Dimensions<T> {
    pub width: T,
    pub height: T,
}

/// The colour channel currently selected for keyboard-driven updates.
#[derive(Clone, Copy, PartialEq, Eq, Structural, Debug)]
pub enum Color {
    Red,
    Green,
    Blue,
    Alpha,
}

/// One vertex as the mesh loader hands it over: every field carries the raw
/// bit pattern of one 32-bit vertex attribute scalar, so that equality of two
/// `VertexKey`s is exactly bit equality of the attributes, which is the key
/// the de-duplication of loaded meshes is defined over.
#[derive(Clone, Copy, PartialEq, Eq, Structural, Debug)]
pub struct VertexKey {
    pub pos_x: u32,
    pub pos_y: u32,
    pub pos_z: u32,
    pub col_r: u32,
    pub col_g: u32,
    pub col_b: u32,
    pub col_a: u32,
    pub uv_u: u32,
    pub uv_v: u32,
}

/// Byte offset of the colour attribute inside one packed vertex.
pub const VERTEX_COLOR_OFFSET: u32 = 12;

/// Byte offset of the texture-coordinate attribute inside one packed vertex.
pub const VERTEX_UV_OFFSET: u32 = 28;

/// Byte stride of one packed vertex: three position, four colour and two
/// texture-coordinate scalars of four bytes each.
pub const VERTEX_STRIDE: u32 = 36;

/// Attribute formats, as surface format codes of the attribute's scalar shape.
pub const ATTR_FORMAT_RGB32: u32 = 106;

pub const ATTR_FORMAT_RGBA32: u32 = 109;

pub const ATTR_FORMAT_RG32: u32 = 103;

/// One vertex attribute of the pipeline's vertex input layout.
#[derive(Clone, Copy, PartialEq, Eq, Structural, Debug)]
pub struct AttributeInfo {
    pub binding: u32,
    pub location: u32,
    pub format: u32,
    pub offset: u32,
}

/// Description of the single vertex buffer binding the pipeline reads.
#[derive(Clone, Copy, PartialEq, Eq, Structural, Debug)]
pub struct VertexBufferInfo {
    pub binding: u32,
    pub stride: u32,
}

/// A colour as four channel numerators over 255: channel value `v` stands
/// for the intensity `v / 255`.
#[derive(Clone, Copy, PartialEq, Eq, Structural, Debug)]
pub struct RgbaValue {
    pub r: u32,
    pub g: u32,
    pub b: u32,
    pub a: u32,
}

/// The four little-endian bytes of one 32-bit word, as buffer memory holds
/// them.
pub open spec fn le_bytes32(x: u32) -> Seq<u8> {
    seq![
        (x & 0xff) as u8,
        ((x >> 8u32) & 0xff) as u8,
        ((x >> 16u32) & 0xff) as u8,
        ((x >> 24u32) & 0xff) as u8,
    ]
}

/// Appends one 32-bit word to a byte buffer, little-endian.
pub fn push_le32(out: &mut Vec<u8>, x: u32)
    ensures
        final(out)@ == old(out)@ + le_bytes32(x),
{
    let ghost pre = out@;
    out.push((x & 0xff) as u8);
    out.push(((x >> 8u32) & 0xff) as u8);
    out.push(((x >> 16u32) & 0xff) as u8);
    out.push(((x >> 24u32) & 0xff) as u8);
    proof {
        assert(out@ =~= pre + le_bytes32(x));
    }
}

/// The sixteen bytes a colour occupies in a uniform buffer: its four channel
/// words, little-endian each.
pub open spec fn spec_color_bytes(c: RgbaValue) -> Seq<u8> {
    le_bytes32(c.r) + le_bytes32(c.g) + le_bytes32(c.b) + le_bytes32(c.a)
}

/// Packs a colour for its uniform buffer.
pub fn color_bytes(c: RgbaValue) -> (r: Vec<u8>)
    ensures
        r@ == spec_color_bytes(c),
        r@.len() == 16,
{
    let mut out: Vec<u8> = Vec::new();
    push_le32(&mut out, c.r);
    push_le32(&mut out, c.g);
    push_le32(&mut out, c.b);
    push_le32(&mut out, c.a);
    proof {
        assert(out@ =~= spec_color_bytes(c));
    }
    out
}

/// The channel of `c` named by `color` replaced with `value`.
pub open spec fn spec_apply_channel(c: RgbaValue, color: Color, value: u32) -> RgbaValue {
    match color {
        Color::Red => RgbaValue { r: value, ..c },
        Color::Green => RgbaValue { g: value, ..c },
        Color::Blue => RgbaValue { b: value, ..c },
        Color::Alpha => RgbaValue { a: value, ..c },
    }
}

/// A uniform buffer together with the descriptor set it is bound into.
pub struct Uniform {
    pub buffer: Option<BufferState>,
    pub desc: Option<DescSet>,
}

impl Uniform {
    /// Creates the uniform's host-visible buffer holding `data` and writes
    /// the buffer binding into the set.
    pub fn new(
        data: &[u8],
        mut desc: DescSet,
        binding: u32,
        memory_types: &Vec<MemoryType>,
        type_mask: u32,
    ) -> (r: Result<Uniform, RenderError>)
        requires
            desc.allocated,
            desc.layout.live,
            memory_types@.len() <= 32,
        ensures
            match r {
                Ok(u) => {
                    &&& u.buffer is Some
                    &&& u.buffer.unwrap().wf()
                    &&& u.buffer.unwrap().ready
                    &&& !u.buffer.unwrap().gpu_pending
                    &&& u.buffer.unwrap().host_visible()
                    &&& u.buffer.unwrap().size == data@.len()
                    &&& u.buffer.unwrap().usage == USAGE_UNIFORM
                    &&& u.buffer.unwrap()@ == data@
                    &&& u.desc is Some
                    &&& u.desc.unwrap().allocated
                    &&& u.desc.unwrap().layout.live
                    &&& u.desc.unwrap().layout.bindings@ == desc.layout.bindings@
                    &&& u.desc.unwrap().writes@ == desc.writes@ + seq![
                        DescSetWrite {
                            binding: binding,
                            array_offset: 0u32,
                            kind: DescriptorType::UniformBuffer,
                            resource_ready: true,
                        },
                    ]
                },
                Err(e) => {
                    &&& e == RenderError::NoSuitableMemoryType
                    &&& no_suitable_memory_type(
                        memory_types@,
                        type_mask,
                        PROP_CPU_VISIBLE | PROP_COHERENT,
                    )
                },
            },
    {
        proof {
            assert((PROP_CPU_VISIBLE | PROP_COHERENT) & PROP_CPU_VISIBLE != 0) by (bit_vector);
        }
        let buffer = match BufferState::new(
            data,
            USAGE_UNIFORM,
            memory_types,
            PROP_CPU_VISIBLE | PROP_COHERENT,
            type_mask,
        ) {
            Ok(b) => b,
            Err(e) => {
                return Err(e);
            },
        };
        let mut writes: Vec<DescSetWrite> = Vec::new();
        writes.push(DescSetWrite {
            binding,
            array_offset: 0,
            kind: DescriptorType::UniformBuffer,
            resource_ready: true,
        });
        desc.write_to_state(writes);
        Ok(Uniform { buffer: Some(buffer), desc: Some(desc) })
    }
}

/// The viewport and scissor rectangle a frame is recorded with.
#[derive(Clone, Copy, PartialEq, Eq, Structural, Debug)]
pub struct ViewportRect {
    pub x: i16,
    pub y: i16,
    pub w: i16,
    pub h: i16,
}

/// One recorded command of a frame, in the order the command buffer carries
/// them.
#[derive(Clone, Copy, PartialEq, Eq, Structural, Debug)]
pub enum RenderCommand {
    /// Begin the one-time-submit command buffer.
    BeginCommandBuffer,
    SetViewport { rect: ViewportRect },
    SetScissor { rect: ViewportRect },
    BindGraphicsPipeline,
    /// Begin the render pass, clearing colour to the background and, when a
    /// depth attachment exists, depth to its far value.
    BeginRenderPass { bg: RgbaValue, with_depth_clear: bool },
    BindVertexBuffer { binding: u32 },
    BindIndexBuffer,
    /// The camera set is bound first,
    BindCameraDescriptorSet,
    /// then the object's texture set,
    BindObjectTextureDescriptorSet,
    /// then the object's colour set.
    BindObjectColorDescriptorSet,
    DrawIndexed { index_count: u32 },
    EndRenderPass,
    FinishCommandBuffer,
}

/// The vertex buffer description the pipeline is built with: one binding of
/// packed vertices.
pub fn get_vertex_buffer_description() -> (r: VertexBufferInfo)
    ensures
        r == (VertexBufferInfo { binding: 0u32, stride: VERTEX_STRIDE }),
{
    VertexBufferInfo { binding: 0, stride: VERTEX_STRIDE }
}

/// The three vertex attributes (position, colour, texture coordinates) with
/// their exact byte offsets inside one packed vertex.
pub fn get_attribute_description() -> (r: Vec<AttributeInfo>)
    ensures
        r@.len() == 3,
        r@[0] == (AttributeInfo { binding: 0u32, location: 0u32, format: ATTR_FORMAT_RGB32, offset: 0u32 }),
        r@[1] == (AttributeInfo {
            binding: 0u32,
            location: 1u32,
            format: ATTR_FORMAT_RGBA32,
            offset: VERTEX_COLOR_OFFSET,
        }),
        r@[2] == (AttributeInfo {
            binding: 0u32,
            location: 2u32,
            format: ATTR_FORMAT_RG32,
            offset: VERTEX_UV_OFFSET,
        }),
{
    let mut attrs: Vec<AttributeInfo> = Vec::new();
    attrs.push(AttributeInfo { binding: 0, location: 0, format: ATTR_FORMAT_RGB32, offset: 0 });
    attrs.push(AttributeInfo {
        binding: 0,
        location: 1,
        format: ATTR_FORMAT_RGBA32,
        offset: VERTEX_COLOR_OFFSET,
    });
    attrs.push(AttributeInfo {
        binding: 0,
        location: 2,
        format: ATTR_FORMAT_RG32,
        offset: VERTEX_UV_OFFSET,
    });
    attrs
}

} // verus!
