//! The resource transfer manager: allocation of GPU buffers against the
//! device's memory types, mapped host writes and read-backs, and the staged
//! upload protocol (host-visible staging buffer, device-local destination,
//! one-shot copy guarded by a fence wait).
//!
//! A buffer is modelled by the byte contents its memory holds together with
//! its allocation metadata. The handle-pair invariant of the real engine —
//! memory and buffer handle are either both present or both released — is the
//! single `ready` flag here, and the rule that a buffer must never be freed
//! while a submitted transfer may still read it is the `gpu_pending` flag,
//! which `teardown` requires to be clear.

use vstd::prelude::*;

use crate::model::Dimensions;

verus! {

pub const USAGE_TRANSFER_SRC: u32 = 0x1;

pub const USAGE_TRANSFER_DST: u32 = 0x2;

pub const USAGE_UNIFORM: u32 = 0x10;

pub const USAGE_INDEX: u32 = 0x40;

pub const USAGE_VERTEX: u32 = 0x80;

pub const PROP_DEVICE_LOCAL: u32 = 0x1;

pub const PROP_CPU_VISIBLE: u32 = 0x2;

pub const PROP_COHERENT: u32 = 0x4;

/// One enumerated memory type of the adapter: its property flag bits.
#[derive(Clone, Copy, PartialEq, Eq, Structural, Debug)]
pub struct MemoryType {
    pub properties: u32,
}

/// The failures the resource managers report instead of panicking.
#[derive(Clone, Copy, PartialEq, Eq, Structural, Debug)]
pub enum RenderError {
    /// No enumerated memory type satisfies the requested property mask.
    NoSuitableMemoryType,
    /// A mapped write or read would run past the end of the buffer.
    OutOfBounds,
    /// A mapped read was asked of memory the host cannot see.
    NotHostVisible,
    /// A descriptor set was requested from an exhausted pool.
    PoolExhausted,
    /// An index named a vertex attribute outside the loaded arrays.
    IndexOutOfRange,
}

/// Memory type `i` can back an allocation with requirement mask `type_mask`
/// and requested properties `required`.
pub open spec fn memory_type_suitable(
    types: Seq<MemoryType>,
    type_mask: u32,
    required: u32,
    i: int,
) -> bool {
    &&& 0 <= i < types.len()
    &&& type_mask & (1u32 << (i as u32)) != 0
    &&& types[i].properties & required == required
}

/// No enumerated memory type allowed by `type_mask` carries every flag of
/// `required`: the fatal allocation-failure condition.
pub open spec fn no_suitable_memory_type(
    types: Seq<MemoryType>,
    type_mask: u32,
    required: u32,
) -> bool {
    forall|i: int| 0 <= i < types.len() ==> !memory_type_suitable(types, type_mask, required, i)
}

/// Picks the first enumerated memory type allowed by the requirement mask
/// whose properties contain every requested flag, as the allocator does.
pub fn select_memory_type(
    memory_types: &Vec<MemoryType>,
    type_mask: u32,
    required: u32,
) -> (r: Option<usize>)
    requires
        memory_types@.len() <= 32,
    ensures
        match r {
            Some(i) => {
                &&& memory_type_suitable(memory_types@, type_mask, required, i as int)
                &&& forall|j: int|
                    0 <= j < i ==> !memory_type_suitable(memory_types@, type_mask, required, j)
            },
            None => forall|j: int|
                0 <= j < memory_types@.len() ==> !memory_type_suitable(
                    memory_types@,
                    type_mask,
                    required,
                    j,
                ),
        },
{
    let mut i: usize = 0;
    while i < memory_types.len()
        invariant
            memory_types@.len() <= 32,
            i <= memory_types@.len(),
            forall|j: int| 0 <= j < i ==> !memory_type_suitable(memory_types@, type_mask, required, j),
        decreases memory_types@.len() - i,
    {
        let mask_bit = type_mask & (1u32 << (i as u32));
        if mask_bit != 0 && memory_types[i].properties & required == required {
            return Some(i);
        }
        i = i + 1;
    }
    None
}

/// Row `y` of an image laid out in `s` with the given row pitch: the
/// `row_bytes` bytes starting at `y * pitch`. A tightly packed image is the
/// case `pitch == row_bytes`.
pub open spec fn pixel_row(s: Seq<u8>, pitch: int, row_bytes: int, y: int) -> Seq<u8> {
    s.subrange(y * pitch, y * pitch + row_bytes)
}

/// Rounds one row of `width` four-byte pixels up to the device's buffer-copy
/// pitch alignment, which is a power of two: the smallest aligned pitch that
/// holds the row.
pub fn row_pitch_for(width: u32, alignment: u32) -> (r: u32)
    requires
        alignment >= 1,
        alignment & ((alignment - 1) as u32) == 0,
        width * 4 + alignment <= u32::MAX,
    ensures
        r % alignment == 0,
        width * 4 <= r < width * 4 + alignment,
{
    let mask = alignment - 1;
    let w4 = width * 4;
    let sum = w4 + mask;
    let pitch = sum & !mask;
    proof {
        assert(pitch % alignment == 0 && w4 <= pitch && pitch <= sum) by (bit_vector)
            requires
                alignment & mask == 0,
                alignment == mask + 1,
                mask < 0xffff_ffffu32,
                sum == w4 + mask,
                sum >= w4,
                pitch == sum & !mask,
        ;
    }
    pitch
}

/// A CPU-observable fence guarding one submitted batch of GPU work.
#[derive(Clone, Copy, PartialEq, Eq, Structural, Debug)]
pub struct TransferFence {
    pub signaled: bool,
    pub live: bool,
}

impl TransferFence {
    /// Creates a fence, signaled or not, as the device call does.
    pub fn new(signaled: bool) -> (r: TransferFence)
        ensures
            r == (TransferFence { signaled: signaled, live: true }),
    {
        TransferFence { signaled, live: true }
    }

    /// Blocks until the fence signals: afterwards the guarded work is done.
    pub fn wait(&mut self)
        requires
            old(self).live,
        ensures
            *final(self) == (TransferFence { signaled: true, live: old(self).live }),
    {
        self.signaled = true;
    }

    /// Resets a signaled fence for reuse. Resetting an unsignaled fence would
    /// lose track of in-flight work, so that is ruled out.
    pub fn reset(&mut self)
        requires
            old(self).live,
            old(self).signaled,
        ensures
            *final(self) == (TransferFence { signaled: false, live: old(self).live }),
    {
        self.signaled = false;
    }

    /// Destroys the fence. Work it guards must have finished first.
    pub fn destroy(&mut self)
        requires
            old(self).live,
            old(self).signaled,
        ensures
            *final(self) == (TransferFence { signaled: old(self).signaled, live: false }),
    {
        self.live = false;
    }
}

/// One GPU buffer: its backing memory contents plus allocation metadata.
pub struct BufferState {
    /// Byte size of the allocation.
    pub size: usize,
    /// Usage flag bits the buffer was created with.
    pub usage: u32,
    /// Property flags the backing memory type was required to have.
    pub properties: u32,
    /// The bytes the backing memory holds.
    pub data: Vec<u8>,
    /// Both handles (memory and buffer) are present; cleared by `teardown`.
    pub ready: bool,
    /// A submitted transfer may still reference this buffer.
    pub gpu_pending: bool,
}

impl View for BufferState {
    type V = Seq<u8>;

    open spec fn view(&self) -> Seq<u8> {
        self.data@
    }
}

impl BufferState {
    /// The stored size matches the bytes actually held.
    pub open spec fn wf(&self) -> bool {
        self.data@.len() == self.size
    }

    /// The backing memory is visible to the host.
    pub open spec fn host_visible(&self) -> bool {
        self.properties & PROP_CPU_VISIBLE != 0
    }

    /// Everything but the memory contents is unchanged between two states.
    pub open spec fn same_allocation(pre: BufferState, post: BufferState) -> bool {
        &&& post.size == pre.size
        &&& post.usage == pre.usage
        &&& post.properties == pre.properties
        &&& post.ready == pre.ready
        &&& post.gpu_pending == pre.gpu_pending
    }

    /// Allocates a buffer of `data_length * stride` bytes without mapping it.
    /// Fails exactly when no enumerated memory type allowed by `type_mask`
    /// carries every flag of `memory_properties`; the engine treats that as a
    /// fatal configuration error.
    pub fn new_unmapped(
        data_length: usize,
        stride: usize,
        usage: u32,
        memory_types: &Vec<MemoryType>,
        memory_properties: u32,
        type_mask: u32,
    ) -> (r: Result<BufferState, RenderError>)
        requires
            memory_types@.len() <= 32,
            data_length * stride <= usize::MAX,
        ensures
            match r {
                Ok(b) => {
                    &&& b.wf()
                    &&& b.ready
                    &&& !b.gpu_pending
                    &&& b.size == data_length * stride
                    &&& b.usage == usage
                    &&& b.properties == memory_properties
                    &&& exists|i: int|
                        memory_type_suitable(memory_types@, type_mask, memory_properties, i)
                },
                Err(e) => {
                    &&& e == RenderError::NoSuitableMemoryType
                    &&& forall|i: int|
                        0 <= i < memory_types@.len() ==> !memory_type_suitable(
                            memory_types@,
                            type_mask,
                            memory_properties,
                            i,
                        )
                },
            },
    {
        let upload_size = data_length * stride;
        match select_memory_type(memory_types, type_mask, memory_properties) {
            None => Err(RenderError::NoSuitableMemoryType),
            Some(_) => {
                let mut data: Vec<u8> = Vec::new();
                let mut i: usize = 0;
                while i < upload_size
                    invariant
                        i <= upload_size,
                        data@.len() == i,
                    decreases upload_size - i,
                {
                    data.push(0);
                    i = i + 1;
                }
                Ok(BufferState {
                    size: upload_size,
                    usage,
                    properties: memory_properties,
                    data,
                    ready: true,
                    gpu_pending: false,
                })
            },
        }
    }

    /// Maps the memory, copies `data_source` in at `byte_offset`, unmaps.
    /// A write that would run past the end of the buffer is rejected whole:
    /// nothing is written and the buffer is unchanged.
    pub fn update_data(&mut self, byte_offset: usize, data_source: &[u8]) -> (r: Result<
        (),
        RenderError,
    >)
        requires
            old(self).wf(),
            old(self).ready,
            old(self).host_visible(),
        ensures
            final(self).wf(),
            Self::same_allocation(*old(self), *final(self)),
            byte_offset + data_source@.len() <= old(self).size ==> {
                &&& r is Ok
                &&& final(self)@ == old(self)@.take(byte_offset as int) + data_source@ + old(
                    self,
                )@.skip(byte_offset + data_source@.len())
            },
            byte_offset + data_source@.len() > old(self).size ==> {
                &&& r == Err::<(), RenderError>(RenderError::OutOfBounds)
                &&& final(self)@ == old(self)@
            },
    {
        let len = data_source.len();
        if byte_offset > self.size || len > self.size - byte_offset {
            return Err(RenderError::OutOfBounds);
        }
        let ghost pre = self.data@;
        let mut j: usize = 0;
        while j < len
            invariant
                j <= len,
                byte_offset + len <= self.size,
                self.wf(),
                Self::same_allocation(*old(self), *self),
                self.data@.len() == pre.len(),
                len == data_source@.len(),
                forall|k: int| 0 <= k < byte_offset ==> self.data@[k] == pre[k],
                forall|k: int|
                    byte_offset <= k < byte_offset + j ==> self.data@[k] == data_source@[
                        k - byte_offset
                    ],
                forall|k: int| byte_offset + j <= k < pre.len() ==> self.data@[k] == pre[k],
            decreases len - j,
        {
            let v = data_source[j];
            self.data.set(byte_offset + j, v);
            j = j + 1;
        }
        proof {
            assert(self.data@ =~= pre.take(byte_offset as int) + data_source@ + pre.skip(
                byte_offset + data_source@.len(),
            ));
        }
        Ok(())
    }

    /// Maps the memory and reads `length` bytes back from `byte_offset`.
    /// Only host-visible memory can be mapped, and the range must lie inside
    /// the buffer.
    pub fn read_mapped(&self, byte_offset: usize, length: usize) -> (r: Result<
        Vec<u8>,
        RenderError,
    >)
        requires
            self.wf(),
            self.ready,
        ensures
            !self.host_visible() ==> r == Err::<Vec<u8>, RenderError>(RenderError::NotHostVisible),
            self.host_visible() && byte_offset + length > self.size ==> r == Err::<
                Vec<u8>,
                RenderError,
            >(RenderError::OutOfBounds),
            self.host_visible() && byte_offset + length <= self.size ==> {
                &&& r is Ok
                &&& r.unwrap()@ == self@.subrange(byte_offset as int, byte_offset + length)
            },
    {
        if self.properties & PROP_CPU_VISIBLE == 0 {
            return Err(RenderError::NotHostVisible);
        }
        if byte_offset > self.size || length > self.size - byte_offset {
            return Err(RenderError::OutOfBounds);
        }
        let mut out: Vec<u8> = Vec::new();
        let mut j: usize = 0;
        while j < length
            invariant
                j <= length,
                byte_offset + length <= self.size,
                self.wf(),
                out@ == self.data@.subrange(byte_offset as int, byte_offset + j),
            decreases length - j,
        {
            let v = self.data[byte_offset + j];
            out.push(v);
            proof {
                assert(out@ =~= self.data@.subrange(byte_offset as int, byte_offset + j + 1));
            }
            j = j + 1;
        }
        Ok(out)
    }

    /// Allocates a host-visible buffer and writes `data_source` into it: the
    /// constructor used for staging and uniform data.
    pub fn new(
        data_source: &[u8],
        usage: u32,
        memory_types: &Vec<MemoryType>,
        memory_properties: u32,
        type_mask: u32,
    ) -> (r: Result<BufferState, RenderError>)
        requires
            memory_types@.len() <= 32,
            memory_properties & PROP_CPU_VISIBLE != 0,
        ensures
            match r {
                Ok(b) => {
                    &&& b.wf()
                    &&& b.ready
                    &&& !b.gpu_pending
                    &&& b.size == data_source@.len()
                    &&& b.usage == usage
                    &&& b.properties == memory_properties
                    &&& b@ == data_source@
                },
                Err(e) => {
                    &&& e == RenderError::NoSuitableMemoryType
                    &&& forall|i: int|
                        0 <= i < memory_types@.len() ==> !memory_type_suitable(
                            memory_types@,
                            type_mask,
                            memory_properties,
                            i,
                        )
                },
            },
    {
        let mut buffer_state = match Self::new_unmapped(
            data_source.len(),
            1,
            usage,
            memory_types,
            memory_properties,
            type_mask,
        ) {
            Ok(b) => b,
            Err(e) => {
                return Err(e);
            },
        };
        let write = buffer_state.update_data(0, data_source);
        proof {
            assert(write is Ok);
            assert(buffer_state@ =~= data_source@);
        }
        Ok(buffer_state)
    }

    /// Records a one-shot copy of the first `upload_size` bytes of `src` into
    /// `dst`, submits it guarded by `fence`, and blocks until the fence
    /// signals; when this returns, the data is in place and nothing is in
    /// flight any more.
    pub fn copy_buffer(
        src: &BufferState,
        dst: &mut BufferState,
        upload_size: usize,
        fence: &mut TransferFence,
    )
        requires
            src.wf(),
            src.ready,
            old(dst).wf(),
            old(dst).ready,
            upload_size <= src.size,
            upload_size <= old(dst).size,
            old(fence).live,
        ensures
            final(dst).wf(),
            Self::same_allocation(*old(dst), *final(dst)),
            final(dst)@ == src@.take(upload_size as int) + old(dst)@.skip(upload_size as int),
            *final(fence) == (TransferFence { signaled: true, live: old(fence).live }),
    {
        let ghost pre = dst.data@;
        let mut j: usize = 0;
        while j < upload_size
            invariant
                j <= upload_size,
                upload_size <= src.size,
                upload_size <= dst.size,
                src.wf(),
                dst.wf(),
                Self::same_allocation(*old(dst), *dst),
                dst.size == pre.len(),
                forall|k: int| 0 <= k < j ==> dst.data@[k] == src.data@[k],
                forall|k: int| j <= k < pre.len() ==> dst.data@[k] == pre[k],
            decreases upload_size - j,
        {
            let v = src.data[j];
            dst.data.set(j, v);
            j = j + 1;
        }
        fence.wait();
        proof {
            assert(dst.data@ =~= src.data@.take(upload_size as int) + pre.skip(
                upload_size as int,
            ));
        }
    }

    /// Staged upload of vertex data: stage in host-visible memory, allocate a
    /// device-local vertex buffer, copy across under a fence wait, release
    /// the staging buffer. The returned buffer holds exactly the payload.
    pub fn new_vertex_buffer(
        data_source: &[u8],
        memory_types: &Vec<MemoryType>,
        type_mask: u32,
    ) -> (r: Result<BufferState, RenderError>)
        requires
            memory_types@.len() <= 32,
        ensures
            match r {
                Ok(b) => {
                    &&& b.wf()
                    &&& b.ready
                    &&& !b.gpu_pending
                    &&& b.size == data_source@.len()
                    &&& b.usage == USAGE_TRANSFER_DST | USAGE_VERTEX
                    &&& b.properties == PROP_DEVICE_LOCAL
                    &&& b@ == data_source@
                },
                Err(e) => {
                    &&& e == RenderError::NoSuitableMemoryType
                    &&& (no_suitable_memory_type(
                        memory_types@,
                        type_mask,
                        PROP_CPU_VISIBLE | PROP_COHERENT,
                    ) || no_suitable_memory_type(memory_types@, type_mask, PROP_DEVICE_LOCAL))
                },
            },
    {
        Self::staged_upload(data_source, USAGE_TRANSFER_DST | USAGE_VERTEX, memory_types, type_mask)
    }

    /// Staged upload of index data, as `new_vertex_buffer`.
    pub fn new_index_buffer(
        data_source: &[u8],
        memory_types: &Vec<MemoryType>,
        type_mask: u32,
    ) -> (r: Result<BufferState, RenderError>)
        requires
            memory_types@.len() <= 32,
        ensures
            match r {
                Ok(b) => {
                    &&& b.wf()
                    &&& b.ready
                    &&& !b.gpu_pending
                    &&& b.size == data_source@.len()
                    &&& b.usage == USAGE_TRANSFER_DST | USAGE_INDEX
                    &&& b.properties == PROP_DEVICE_LOCAL
                    &&& b@ == data_source@
                },
                Err(e) => {
                    &&& e == RenderError::NoSuitableMemoryType
                    &&& (no_suitable_memory_type(
                        memory_types@,
                        type_mask,
                        PROP_CPU_VISIBLE | PROP_COHERENT,
                    ) || no_suitable_memory_type(memory_types@, type_mask, PROP_DEVICE_LOCAL))
                },
            },
    {
        Self::staged_upload(data_source, USAGE_TRANSFER_DST | USAGE_INDEX, memory_types, type_mask)
    }

    /// The staged-upload protocol: write the payload into a fresh staging
    /// buffer, create the device-local destination with the final usage,
    /// record and submit the copy, wait on its fence, then tear the staging
    /// buffer down. Synchronous on purpose: correctness of load-time uploads
    /// is bought with a bounded stall, and when this returns the destination
    /// holds the payload, byte for byte.
    pub fn staged_upload(
        data_source: &[u8],
        final_usage: u32,
        memory_types: &Vec<MemoryType>,
        type_mask: u32,
    ) -> (r: Result<BufferState, RenderError>)
        requires
            memory_types@.len() <= 32,
        ensures
            match r {
                Ok(b) => {
                    &&& b.wf()
                    &&& b.ready
                    &&& !b.gpu_pending
                    &&& b.size == data_source@.len()
                    &&& b.usage == final_usage
                    &&& b.properties == PROP_DEVICE_LOCAL
                    &&& b@ == data_source@
                },
                Err(e) => {
                    &&& e == RenderError::NoSuitableMemoryType
                    &&& (no_suitable_memory_type(
                        memory_types@,
                        type_mask,
                        PROP_CPU_VISIBLE | PROP_COHERENT,
                    ) || no_suitable_memory_type(memory_types@, type_mask, PROP_DEVICE_LOCAL))
                },
            },
    {
        proof {
            assert((PROP_CPU_VISIBLE | PROP_COHERENT) & PROP_CPU_VISIBLE != 0) by (bit_vector);
        }
        let mut staging_buffer = match Self::new(
            data_source,
            USAGE_TRANSFER_SRC,
            memory_types,
            PROP_CPU_VISIBLE | PROP_COHERENT,
            type_mask,
        ) {
            Ok(b) => b,
            Err(e) => {
                return Err(e);
            },
        };
        let mut destination = match Self::new_unmapped(
            data_source.len(),
            1,
            final_usage,
            memory_types,
            PROP_DEVICE_LOCAL,
            type_mask,
        ) {
            Ok(b) => b,
            Err(e) => {
                staging_buffer.teardown();
                return Err(e);
            },
        };
        let mut fence = TransferFence::new(false);
        Self::copy_buffer(&staging_buffer, &mut destination, data_source.len(), &mut fence);
        fence.destroy();
        staging_buffer.teardown();
        proof {
            assert(destination@ =~= data_source@);
        }
        Ok(destination)
    }

    /// Builds the staging buffer for a texture upload: every pixel row of
    /// the image is copied to a row-pitch-aligned offset, as the device's
    /// buffer-to-image copy requires. Returns the buffer, the image extent,
    /// the aligned row pitch, and the pixel stride.
    pub fn new_texture(
        img_pixels: &[u8],
        width: u32,
        height: u32,
        pitch_alignment: u32,
        memory_types: &Vec<MemoryType>,
        usage: u32,
        type_mask: u32,
    ) -> (r: Result<(BufferState, Dimensions<u32>, u32, usize), RenderError>)
        requires
            memory_types@.len() <= 32,
            img_pixels@.len() == width * height * 4,
            pitch_alignment >= 1,
            pitch_alignment & ((pitch_alignment - 1) as u32) == 0,
            width * 4 + pitch_alignment <= u32::MAX,
            height * (width * 4 + pitch_alignment) <= usize::MAX,
        ensures
            match r {
                Ok((b, dims, row_pitch, stride)) => {
                    &&& b.wf()
                    &&& b.ready
                    &&& !b.gpu_pending
                    &&& stride == 4
                    &&& dims == (Dimensions { width, height })
                    &&& row_pitch % pitch_alignment == 0
                    &&& width * 4 <= row_pitch < width * 4 + pitch_alignment
                    &&& b.size == height * row_pitch
                    &&& b.usage == usage
                    &&& b.properties == PROP_CPU_VISIBLE | PROP_COHERENT
                    &&& forall|y: int|
                        0 <= y < height ==> #[trigger] pixel_row(b@, row_pitch as int, width * 4, y)
                            == pixel_row(img_pixels@, width * 4, width * 4, y)
                },
                Err(e) => {
                    &&& e == RenderError::NoSuitableMemoryType
                    &&& no_suitable_memory_type(
                        memory_types@,
                        type_mask,
                        PROP_CPU_VISIBLE | PROP_COHERENT,
                    )
                },
            },
    {
        let row_pitch = row_pitch_for(width, pitch_alignment);
        let w4: usize = (width as usize) * 4;
        let pitch: usize = row_pitch as usize;
        proof {
            assert(height * row_pitch <= height * (width * 4 + pitch_alignment))
                by (nonlinear_arith)
                requires
                    row_pitch <= width * 4 + pitch_alignment,
                    height >= 0,
            ;
        }
        let upload_size: usize = (height as usize) * pitch;
        proof {
            assert((PROP_CPU_VISIBLE | PROP_COHERENT) & PROP_CPU_VISIBLE != 0) by (bit_vector);
        }
        let mut buffer = match Self::new_unmapped(
            upload_size,
            1,
            usage,
            memory_types,
            PROP_CPU_VISIBLE | PROP_COHERENT,
            type_mask,
        ) {
            Ok(b) => b,
            Err(e) => {
                return Err(e);
            },
        };
        let mut y: usize = 0;
        while y < height as usize
            invariant
                y <= height,
                w4 == width * 4,
                pitch == row_pitch,
                w4 <= pitch,
                upload_size == height * pitch,
                img_pixels@.len() == width * height * 4,
                buffer.wf(),
                buffer.ready,
                !buffer.gpu_pending,
                buffer.host_visible(),
                buffer.size == upload_size,
                buffer.usage == usage,
                buffer.properties == PROP_CPU_VISIBLE | PROP_COHERENT,
                forall|yy: int|
                    0 <= yy < y ==> #[trigger] pixel_row(buffer@, pitch as int, w4 as int, yy)
                        == pixel_row(img_pixels@, w4 as int, w4 as int, yy),
            decreases height - y,
        {
            proof {
                assert(y * pitch + pitch <= height * pitch && y * w4 + w4 <= height * w4
                    && height * w4 <= height * pitch && y * pitch >= 0 && y * w4 >= 0)
                    by (nonlinear_arith)
                    requires
                        0 <= y < height as usize,
                        0 <= w4 <= pitch,
                        (height as usize) * pitch == upload_size,
                ;
                assert(height * w4 == width * height * 4) by (nonlinear_arith)
                    requires
                        w4 == width * 4,
                ;
            }
            let row = &img_pixels[y * w4..y * w4 + w4];
            let ghost pre = buffer@;
            let write = buffer.update_data(y * pitch, row);
            proof {
                let off = (y * pitch) as int;
                assert(buffer@ == pre.take(off) + row@ + pre.skip(off + w4));
                assert forall|yy: int| 0 <= yy < y implies #[trigger] pixel_row(
                    buffer@,
                    pitch as int,
                    w4 as int,
                    yy,
                ) == pixel_row(img_pixels@, w4 as int, w4 as int, yy) by {
                    assert(yy * pitch + w4 <= off && 0 <= yy * pitch) by (nonlinear_arith)
                        requires
                            0 <= yy < y,
                            0 <= w4 <= pitch,
                            off == y * pitch,
                    ;
                    assert(pixel_row(buffer@, pitch as int, w4 as int, yy) =~= pixel_row(
                        pre,
                        pitch as int,
                        w4 as int,
                        yy,
                    ));
                    assert(pixel_row(pre, pitch as int, w4 as int, yy) == pixel_row(
                        img_pixels@,
                        w4 as int,
                        w4 as int,
                        yy,
                    ));
                }
                assert(pixel_row(buffer@, pitch as int, w4 as int, y as int) =~= row@);
                assert(pixel_row(img_pixels@, w4 as int, w4 as int, y as int) =~= row@);
            }
            y = y + 1;
        }
        Ok((buffer, Dimensions { width, height }, row_pitch, 4))
    }

    /// Buffer round-trip: for every byte payload and usage, the buffer a
    /// staged upload returns holds exactly the payload, so a host-visible
    /// read-back over the payload's whole range yields bytes identical to
    /// the payload. `staged_upload` ensures the contents equal the payload;
    /// `read_mapped` returns exactly the requested subrange; this law closes
    /// the loop between the two.
    pub proof fn lemma_buffer_round_trip(b: BufferState, payload: Seq<u8>)
        requires
            b.wf(),
            b@ == payload,
        ensures
            b@.subrange(0, payload.len() as int) == payload,
    {
        assert(b@.subrange(0, payload.len() as int) =~= payload);
    }

    /// Releases the buffer's memory and handle together. Work submitted
    /// against the buffer must have completed: a buffer the GPU may still
    /// read is never destroyed.
    pub fn teardown(&mut self)
        requires
            old(self).ready,
            !old(self).gpu_pending,
        ensures
            !final(self).ready,
            !final(self).gpu_pending,
            final(self).size == old(self).size,
            final(self).usage == old(self).usage,
            final(self).properties == old(self).properties,
    {
        self.ready = false;
    }
}

} // verus!
