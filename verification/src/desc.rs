//! The descriptor manager: immutable set layouts, fixed-capacity descriptor
//! pools, and sets allocated from a pool against a layout and then written
//! with concrete resource bindings. A pool has a static capacity; asking for
//! more sets than it was sized for is the fatal pool-exhausted error. A set
//! may only be written against resources whose handles are stable.

use vstd::prelude::*;

use crate::buffer::RenderError;

verus! {

/// The kinds of resources a descriptor binding can name.
#[derive(Clone, Copy, PartialEq, Eq, Structural, Debug)]
pub enum DescriptorType {
    SampledImage,
    Sampler,
    UniformBuffer,
}

/// One binding slot of a set layout.
#[derive(Clone, Copy, PartialEq, Eq, Structural, Debug)]
pub struct LayoutBinding {
    pub binding: u32,
    pub ty: DescriptorType,
    pub count: u32,
    pub stage_flags: u32,
}

/// Shader stage bits a binding is visible to.
pub const STAGE_VERTEX: u32 = 0x1;

pub const STAGE_FRAGMENT: u32 = 0x10;

/// An immutable descriptor set layout.
pub struct DescSetLayout {
    pub bindings: Vec<LayoutBinding>,
    pub live: bool,
}

impl DescSetLayout {
    /// One call, immutable result.
    pub fn new(bindings: Vec<LayoutBinding>) -> (r: DescSetLayout)
        ensures
            r.bindings@ == bindings@,
            r.live,
    {
        DescSetLayout { bindings, live: true }
    }

    /// Allocates a set from `desc_pool` against this layout. Fails exactly
    /// when the pool is exhausted: pool sizing is a static contract.
    pub fn create_desc_set(self, desc_pool: &mut DescriptorPool) -> (r: Result<
        DescSet,
        RenderError,
    >)
        requires
            self.live,
            old(desc_pool).live,
        ensures
            final(desc_pool).live,
            final(desc_pool).max_sets == old(desc_pool).max_sets,
            old(desc_pool).allocated < old(desc_pool).max_sets ==> {
                &&& final(desc_pool).allocated == old(desc_pool).allocated + 1
                &&& match r {
                    Ok(set) => {
                        &&& set.layout.bindings@ == self.bindings@
                        &&& set.layout.live
                        &&& set.allocated
                        &&& set.writes@.len() == 0
                    },
                    Err(_) => false,
                }
            },
            old(desc_pool).allocated >= old(desc_pool).max_sets ==> {
                &&& final(desc_pool).allocated == old(desc_pool).allocated
                &&& r == Err::<DescSet, RenderError>(RenderError::PoolExhausted)
            },
    {
        if desc_pool.allocated >= desc_pool.max_sets {
            return Err(RenderError::PoolExhausted);
        }
        desc_pool.allocated = desc_pool.allocated + 1;
        Ok(DescSet { layout: self, writes: Vec::new(), allocated: true })
    }

    /// Destroys the layout object.
    pub fn teardown(&mut self)
        requires
            old(self).live,
        ensures
            !final(self).live,
            final(self).bindings@ == old(self).bindings@,
    {
        self.live = false;
    }
}

/// A descriptor pool with a fixed capacity of sets. It must outlive every
/// set allocated from it.
pub struct DescriptorPool {
    pub max_sets: usize,
    pub allocated: usize,
    pub live: bool,
}

impl DescriptorPool {
    /// Creates a pool sized for `max_sets` sets.
    pub fn new(max_sets: usize) -> (r: DescriptorPool)
        ensures
            r == (DescriptorPool { max_sets, allocated: 0, live: true }),
    {
        DescriptorPool { max_sets, allocated: 0, live: true }
    }

    /// Destroys the pool, and with it every set allocated from it.
    pub fn teardown(&mut self)
        requires
            old(self).live,
        ensures
            !final(self).live,
            final(self).max_sets == old(self).max_sets,
            final(self).allocated == old(self).allocated,
    {
        self.live = false;
    }
}

/// One descriptor write: which binding is filled, with what kind of
/// resource, and whether that resource currently has a stable live handle.
#[derive(Clone, Copy, PartialEq, Eq, Structural, Debug)]
pub struct DescSetWrite {
    pub binding: u32,
    pub array_offset: u32,
    pub kind: DescriptorType,
    pub resource_ready: bool,
}

/// A descriptor set allocated from a pool, with the writes pushed into it.
pub struct DescSet {
    pub layout: DescSetLayout,
    pub writes: Vec<DescSetWrite>,
    pub allocated: bool,
}

impl DescSet {
    /// Pushes resource bindings into the set. Every referenced resource must
    /// have a stable handle at this point: writing a binding against a dead
    /// or not-yet-created resource is ruled out here rather than left
    /// undefined.
    pub fn write_to_state(&mut self, write: Vec<DescSetWrite>)
        requires
            old(self).allocated,
            old(self).layout.live,
            forall|i: int| 0 <= i < write@.len() ==> (#[trigger] write@[i]).resource_ready,
        ensures
            final(self).allocated,
            final(self).layout.bindings@ == old(self).layout.bindings@,
            final(self).layout.live,
            final(self).writes@ == old(self).writes@ + write@,
    {
        let mut write = write;
        let mut i: usize = 0;
        let ghost pre = self.writes@;
        let ghost incoming = write@;
        while i < write.len()
            invariant
                i <= incoming.len(),
                write@ == incoming,
                self.allocated == old(self).allocated,
                self.layout.bindings@ == old(self).layout.bindings@,
                self.layout.live == old(self).layout.live,
                self.writes@ == pre + incoming.take(i as int),
            decreases incoming.len() - i,
        {
            let w = write[i];
            self.writes.push(w);
            proof {
                assert(pre + incoming.take(i as int) + seq![incoming[i as int]] =~= pre
                    + incoming.take(i + 1));
            }
            i = i + 1;
        }
        proof {
            assert(self.writes@ =~= pre + incoming);
        }
    }

    /// The layout this set was allocated against.
    pub fn get_layout(&self) -> (r: &DescSetLayout)
        ensures
            r == &self.layout,
    {
        &self.layout
    }
}

} // verus!
