//! The per-frame-slot resources: one command pool, one recycle list of
//! previously recorded command buffers, one present semaphore and one fence
//! per presentable image. The fence guards reuse: a slot's pool is reset
//! only after the fence guarding its previous submission has signaled, which
//! bounds how far the CPU can run ahead of the GPU.

use vstd::prelude::*;

use crate::buffer::TransferFence;

verus! {

/// The resources of one frame slot.
#[derive(Clone, Copy, PartialEq, Eq, Structural, Debug)]
pub struct FrameSlot {
    /// The slot's command pool handle is live.
    pub pool_live: bool,
    /// Command buffers waiting in the recycle list.
    pub recycled_buffers: u32,
    /// Command buffers ever allocated from this slot's pool.
    pub allocated_buffers: u32,
    /// The slot's present semaphore handle is live.
    pub present_semaphore_live: bool,
    /// Guards reuse of the slot: signaled when the GPU has finished the
    /// slot's previous submission.
    pub fence: TransferFence,
}

impl FrameSlot {
    /// A slot as creation leaves it: live handles, empty recycle list, fence
    /// created signaled so that the first use does not wait.
    pub open spec fn initial() -> FrameSlot {
        FrameSlot {
            pool_live: true,
            recycled_buffers: 0,
            allocated_buffers: 0,
            present_semaphore_live: true,
            fence: TransferFence { signaled: true, live: true },
        }
    }

    /// The slot's handles are all live.
    pub open spec fn live(&self) -> bool {
        self.pool_live && self.present_semaphore_live && self.fence.live
    }
}

/// The per-frame resources of every slot of the current swapchain
/// generation: exactly one slot per presentable image.
pub struct FramebufferState {
    pub slots: Vec<FrameSlot>,
    /// Rotating index handing out acquire/present semaphore pairs.
    pub last_ref: usize,
    pub live: bool,
}

impl FramebufferState {
    /// Every slot is live.
    pub open spec fn wf(&self) -> bool {
        forall|i: int| 0 <= i < self.slots@.len() ==> (#[trigger] self.slots@[i]).live()
    }

    /// Creates the per-frame resources: one command pool, one empty command
    /// buffer list, one present semaphore and one signaled fence per frame.
    pub fn new(num_frames: u32) -> (r: FramebufferState)
        ensures
            r.slots@.len() == num_frames,
            forall|i: int| 0 <= i < num_frames ==> #[trigger] r.slots@[i] == FrameSlot::initial(),
            r.wf(),
            r.live,
            r.last_ref == 0,
    {
        let mut slots: Vec<FrameSlot> = Vec::new();
        let mut i: u32 = 0;
        while i < num_frames
            invariant
                i <= num_frames,
                slots@.len() == i,
                forall|j: int| 0 <= j < i ==> #[trigger] slots@[j] == FrameSlot::initial(),
            decreases num_frames - i,
        {
            slots.push(FrameSlot {
                pool_live: true,
                recycled_buffers: 0,
                allocated_buffers: 0,
                present_semaphore_live: true,
                fence: TransferFence::new(true),
            });
            i = i + 1;
        }
        FramebufferState { slots, last_ref: 0, live: true }
    }

    /// How many frame slots exist.
    pub fn slot_count(&self) -> (r: usize)
        ensures
            r == self.slots@.len(),
    {
        self.slots.len()
    }

    /// Reads one slot's state.
    pub fn slot(&self, idx: usize) -> (r: FrameSlot)
        requires
            idx < self.slots@.len(),
        ensures
            r == self.slots@[idx as int],
    {
        self.slots[idx]
    }

    /// The rotating acquire/present semaphore pair index: wraps to zero when
    /// it has walked past the last slot.
    pub fn next_acq_pre_pair_index(&mut self) -> (r: usize)
        requires
            old(self).slots@.len() > 0,
        ensures
            r == (if old(self).last_ref >= old(self).slots@.len() {
                0int
            } else {
                old(self).last_ref as int
            }),
            r < old(self).slots@.len(),
            final(self).last_ref == r + 1,
            final(self).slots@ == old(self).slots@,
            final(self).live == old(self).live,
    {
        if self.last_ref >= self.slots.len() {
            self.last_ref = 0;
        }
        let ret = self.last_ref;
        self.last_ref = self.last_ref + 1;
        ret
    }

    /// Blocks until slot `idx`'s fence signals: the GPU is done with the
    /// slot's previous submission.
    pub fn wait_slot_fence(&mut self, idx: usize)
        requires
            idx < old(self).slots@.len(),
            old(self).slots@[idx as int].fence.live,
        ensures
            final(self).slots@ == old(self).slots@.update(
                idx as int,
                FrameSlot {
                    fence: TransferFence {
                        signaled: true,
                        live: old(self).slots@[idx as int].fence.live,
                    },
                    ..old(self).slots@[idx as int]
                },
            ),
            final(self).last_ref == old(self).last_ref,
            final(self).live == old(self).live,
    {
        let mut slot = self.slots[idx];
        slot.fence.wait();
        self.slots.set(idx, slot);
    }

    /// Resets slot `idx` for a new frame: resets its fence, resets its
    /// command pool, and takes a command buffer, from the recycle list when
    /// one is there, freshly allocated otherwise. The slot's fence must have
    /// signaled: a command pool is never reset while the fence guarding its
    /// previous submission is unsignaled.
    pub fn prepare_slot(&mut self, idx: usize)
        requires
            idx < old(self).slots@.len(),
            old(self).slots@[idx as int].live(),
            old(self).slots@[idx as int].fence.signaled,
            old(self).slots@[idx as int].allocated_buffers < u32::MAX,
        ensures
            final(self).slots@.len() == old(self).slots@.len(),
            final(self).slots@ == old(self).slots@.update(
                idx as int,
                final(self).slots@[idx as int],
            ),
            final(self).slots@[idx as int].live(),
            !final(self).slots@[idx as int].fence.signaled,
            old(self).slots@[idx as int].recycled_buffers > 0
                ==> final(self).slots@[idx as int] == (FrameSlot {
                recycled_buffers: (old(self).slots@[idx as int].recycled_buffers - 1) as u32,
                fence: TransferFence { signaled: false, live: true },
                ..old(self).slots@[idx as int]
            }),
            old(self).slots@[idx as int].recycled_buffers == 0
                ==> final(self).slots@[idx as int] == (FrameSlot {
                allocated_buffers: (old(self).slots@[idx as int].allocated_buffers + 1) as u32,
                fence: TransferFence { signaled: false, live: true },
                ..old(self).slots@[idx as int]
            }),
            final(self).last_ref == old(self).last_ref,
            final(self).live == old(self).live,
    {
        let mut slot = self.slots[idx];
        slot.fence.reset();
        if slot.recycled_buffers > 0 {
            slot.recycled_buffers = slot.recycled_buffers - 1;
        } else {
            slot.allocated_buffers = slot.allocated_buffers + 1;
        }
        self.slots.set(idx, slot);
    }

    /// Hands the recorded command buffer back to slot `idx`'s recycle list
    /// after the frame's submission, so the next frame reuses it instead of
    /// allocating.
    pub fn recycle_slot_buffer(&mut self, idx: usize)
        requires
            idx < old(self).slots@.len(),
            old(self).slots@[idx as int].recycled_buffers < u32::MAX,
        ensures
            final(self).slots@ == old(self).slots@.update(
                idx as int,
                FrameSlot {
                    recycled_buffers: (old(self).slots@[idx as int].recycled_buffers + 1) as u32,
                    ..old(self).slots@[idx as int]
                },
            ),
            final(self).last_ref == old(self).last_ref,
            final(self).live == old(self).live,
    {
        let mut slot = self.slots[idx];
        slot.recycled_buffers = slot.recycled_buffers + 1;
        self.slots.set(idx, slot);
    }

    /// Blocks until every slot's fence has signaled: the device-idle wait
    /// that must precede swapchain recreation, after which no in-flight GPU
    /// work references any per-frame resource.
    pub fn wait_all_fences(&mut self)
        requires
            old(self).wf(),
        ensures
            final(self).wf(),
            final(self).slots@.len() == old(self).slots@.len(),
            forall|i: int|
                0 <= i < old(self).slots@.len() ==> #[trigger] final(self).slots@[i] == (FrameSlot {
                    fence: TransferFence { signaled: true, live: true },
                    ..old(self).slots@[i]
                }),
            final(self).last_ref == old(self).last_ref,
            final(self).live == old(self).live,
    {
        let n = self.slots.len();
        let mut i: usize = 0;
        while i < n
            invariant
                i <= n,
                n == self.slots@.len(),
                n == old(self).slots@.len(),
                self.wf(),
                self.last_ref == old(self).last_ref,
                self.live == old(self).live,
                forall|j: int|
                    0 <= j < i ==> #[trigger] self.slots@[j] == (FrameSlot {
                        fence: TransferFence { signaled: true, live: true },
                        ..old(self).slots@[j]
                    }),
                forall|j: int| i <= j < n ==> #[trigger] self.slots@[j] == old(self).slots@[j],
            decreases n - i,
        {
            self.wait_slot_fence(i);
            i = i + 1;
        }
    }

    /// Tears every slot down, in reverse creation order: each fence is
    /// waited on before it and the slot's pool and semaphore are destroyed,
    /// so nothing the GPU may still touch is freed.
    pub fn teardown(&mut self)
        requires
            old(self).wf(),
            old(self).live,
        ensures
            final(self).slots@.len() == 0,
            !final(self).live,
    {
        let n = self.slots.len();
        let mut i: usize = 0;
        while i < n
            invariant
                i <= n,
                n == self.slots@.len(),
                forall|j: int| i <= j < n ==> (#[trigger] self.slots@[j]).live(),
            decreases n - i,
        {
            let mut slot = self.slots[i];
            // the fence wait that must precede any destruction
            slot.fence.wait();
            slot.fence.destroy();
            slot.pool_live = false;
            slot.present_semaphore_live = false;
            self.slots.set(i, slot);
            i = i + 1;
        }
        self.slots = Vec::new();
        self.live = false;
    }
}

} // verus!
