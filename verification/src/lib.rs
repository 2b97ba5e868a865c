//! Runtime core of a real-time renderer: the frame lifecycle and GPU resource
//! synchronization engine, modelled over plain values so that every rule the
//! engine relies on (buffer bounds, fence choreography, frame-slot reuse,
//! swapchain recreation) is stated in contracts and machine-checked.

use vstd::prelude::*;

pub mod buffer;
pub mod camera;
pub mod desc;
pub mod device;
pub mod framebuffer;
pub mod image;
pub mod input;
pub mod model;
pub mod obj;
pub mod renderer;
pub mod swapchain;
pub mod time;

verus! {

/// The slot a frame counter lands in: frame `f` always uses slot `f mod n`.
pub fn frame_slot_index(frame_counter: u64, slot_count: u64) -> (r: u64)
    requires
        slot_count > 0,
    ensures
        r == frame_counter % slot_count,
        r < slot_count,
{
    frame_counter % slot_count
}

} // verus!
