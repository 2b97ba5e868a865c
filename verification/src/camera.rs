//! The camera's GPU-side state: one uniform buffer per frame slot, all bound
//! into one descriptor set, and the dirty flag that says whether the host
//! has new matrix data to push. The matrix arithmetic itself lives with the
//! math collaborator; what is managed here is where its bytes go and when.

use vstd::prelude::*;

use crate::buffer::{
    no_suitable_memory_type, BufferState, MemoryType, RenderError, PROP_COHERENT, PROP_CPU_VISIBLE,
    USAGE_UNIFORM,
};
use crate::desc::{
    DescSet, DescSetLayout, DescSetWrite, DescriptorPool, DescriptorType, LayoutBinding,
    STAGE_VERTEX,
};

verus! {

/// Byte size of one camera uniform block: three four-by-four matrices of
/// four-byte scalars (model, view, projection).
pub const UBO_BYTE_SIZE: usize = 192;

/// The camera's per-slot uniform buffers and their descriptor set.
pub struct CameraState {
    pub buffers: Vec<BufferState>,
    pub desc: DescSet,
    pub camera_desc_pool: DescriptorPool,
    pub has_updated_ubo: bool,
}

impl CameraState {
    /// One usable uniform buffer per frame slot and an allocated set.
    pub open spec fn wf(&self) -> bool {
        &&& forall|i: int|
            0 <= i < self.buffers@.len() ==> {
                &&& (#[trigger] self.buffers@[i]).wf()
                &&& self.buffers@[i].ready
                &&& self.buffers@[i].host_visible()
                &&& self.buffers@[i].size == UBO_BYTE_SIZE
            }
        &&& self.desc.allocated
        &&& self.desc.layout.live
    }

    /// Creates the camera state for `size` frame slots: the set layout with
    /// its single vertex-stage uniform binding, a pool sized for the set,
    /// one uniform buffer per slot, and one descriptor write per buffer.
    #[verifier::loop_isolation(false)]
    pub fn new(size: usize, memory_types: &Vec<MemoryType>, type_mask: u32) -> (r: Result<
        CameraState,
        RenderError,
    >)
        requires
            size >= 1,
            memory_types@.len() <= 32,
        ensures
            match r {
                Ok(c) => {
                    &&& c.wf()
                    &&& c.buffers@.len() == size
                    &&& forall|i: int|
                        0 <= i < size ==> {
                            &&& (#[trigger] c.buffers@[i]).usage == USAGE_UNIFORM
                            &&& c.buffers@[i].properties == PROP_CPU_VISIBLE | PROP_COHERENT
                        }
                    &&& c.desc.layout.bindings@ == seq![
                        LayoutBinding {
                            binding: 0u32,
                            ty: DescriptorType::UniformBuffer,
                            count: 1u32,
                            stage_flags: STAGE_VERTEX,
                        },
                    ]
                    &&& c.desc.writes@.len() == size
                    &&& forall|k: int|
                        0 <= k < size ==> #[trigger] c.desc.writes@[k] == (DescSetWrite {
                            binding: 0u32,
                            array_offset: 0u32,
                            kind: DescriptorType::UniformBuffer,
                            resource_ready: true,
                        })
                    &&& c.camera_desc_pool.live
                    &&& c.camera_desc_pool.max_sets == size
                    &&& c.camera_desc_pool.allocated == 1
                    &&& !c.has_updated_ubo
                },
                Err(e) => {
                    &&& e == RenderError::NoSuitableMemoryType
                    &&& no_suitable_memory_type(
                        memory_types@,
                        type_mask,
                        PROP_CPU_VISIBLE | PROP_COHERENT,
                    )
                },
            },
    {
        let mut bindings: Vec<LayoutBinding> = Vec::new();
        bindings.push(LayoutBinding {
            binding: 0,
            ty: DescriptorType::UniformBuffer,
            count: 1,
            stage_flags: STAGE_VERTEX,
        });
        let camera_desc = DescSetLayout::new(bindings);
        let mut camera_desc_pool = DescriptorPool::new(size);
        let mut camera_desc = match camera_desc.create_desc_set(&mut camera_desc_pool) {
            Ok(set) => set,
            Err(_) => {
                // a fresh pool with room for at least one set
                proof {
                    assert(false);
                }
                return Err(RenderError::PoolExhausted);
            },
        };

        proof {
            assert((PROP_CPU_VISIBLE | PROP_COHERENT) & PROP_CPU_VISIBLE != 0) by (bit_vector);
        }
        let mut buffers: Vec<BufferState> = Vec::new();
        let mut i: usize = 0;
        while i < size
            invariant
                i <= size,
                memory_types@.len() <= 32,
                buffers@.len() == i,
                forall|j: int|
                    0 <= j < i ==> {
                        &&& (#[trigger] buffers@[j]).wf()
                        &&& buffers@[j].ready
                        &&& buffers@[j].host_visible()
                        &&& buffers@[j].size == UBO_BYTE_SIZE
                        &&& buffers@[j].usage == USAGE_UNIFORM
                        &&& buffers@[j].properties == PROP_CPU_VISIBLE | PROP_COHERENT
                    },
            decreases size - i,
        {
            let buffer = match BufferState::new_unmapped(
                UBO_BYTE_SIZE,
                1,
                USAGE_UNIFORM,
                memory_types,
                PROP_CPU_VISIBLE | PROP_COHERENT,
                type_mask,
            ) {
                Ok(b) => b,
                Err(e) => {
                    return Err(e);
                },
            };
            buffers.push(buffer);
            i = i + 1;
        }

        let mut desc_set_write: Vec<DescSetWrite> = Vec::new();
        let mut j: usize = 0;
        while j < size
            invariant
                j <= size,
                desc_set_write@.len() == j,
                forall|k: int|
                    0 <= k < j ==> #[trigger] desc_set_write@[k] == (DescSetWrite {
                        binding: 0u32,
                        array_offset: 0u32,
                        kind: DescriptorType::UniformBuffer,
                        resource_ready: true,
                    }),
            decreases size - j,
        {
            desc_set_write.push(DescSetWrite {
                binding: 0,
                array_offset: 0,
                kind: DescriptorType::UniformBuffer,
                resource_ready: true,
            });
            j = j + 1;
        }
        camera_desc.write_to_state(desc_set_write);
        proof {
            assert(camera_desc.layout.bindings@ =~= seq![
                LayoutBinding {
                    binding: 0u32,
                    ty: DescriptorType::UniformBuffer,
                    count: 1u32,
                    stage_flags: STAGE_VERTEX,
                },
            ]);
            assert(camera_desc.writes@ =~= desc_set_write@);
        }

        Ok(CameraState {
            buffers,
            desc: camera_desc,
            camera_desc_pool,
            has_updated_ubo: false,
        })
    }

    /// Marks the host-side camera block dirty: a matrix was changed and the
    /// per-slot buffers must be refreshed before their next use.
    pub fn mark_updated(&mut self)
        ensures
            *final(self) == (CameraState { has_updated_ubo: true, ..*old(self) }),
    {
        self.has_updated_ubo = true;
    }

    /// Writes the packed camera block into the buffer of one frame slot,
    /// when the block is dirty; a clean block writes nothing.
    pub fn update_buffer(&mut self, idx: usize, data: &[u8])
        requires
            old(self).wf(),
            idx < old(self).buffers@.len(),
            data@.len() <= UBO_BYTE_SIZE,
        ensures
            final(self).wf(),
            final(self).buffers@.len() == old(self).buffers@.len(),
            final(self).has_updated_ubo == old(self).has_updated_ubo,
            final(self).desc.writes@ == old(self).desc.writes@,
            old(self).has_updated_ubo ==> final(self).buffers@ == old(self).buffers@.update(
                idx as int,
                final(self).buffers@[idx as int],
            ) && final(self).buffers@[idx as int]@ == old(self).buffers@[idx as int]@.take(0)
                + data@ + old(self).buffers@[idx as int]@.skip(data@.len() as int),
            !old(self).has_updated_ubo ==> final(self).buffers@ == old(self).buffers@,
            forall|i: int|
                0 <= i < old(self).buffers@.len() && i != idx ==> final(self).buffers@[i] == old(
                    self,
                ).buffers@[i],
    {
        if self.has_updated_ubo {
            let mut buffer = self.buffers.remove(idx);
            let res = buffer.update_data(0, data);
            proof {
                assert(res is Ok);
            }
            self.buffers.insert(idx, buffer);
            proof {
                assert(self.buffers@ =~= old(self).buffers@.update(
                    idx as int,
                    self.buffers@[idx as int],
                ));
            }
        }
    }

    /// Whether the camera block is dirty.
    pub fn ubo_dirty(&self) -> (r: bool)
        ensures
            r == self.has_updated_ubo,
    {
        self.has_updated_ubo
    }
}

} // verus!
