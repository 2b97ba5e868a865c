use zeus_render::framebuffer::FramebufferState;

#[test]
fn simple_test() {
    let check = true;
    assert!(check);
}

#[test]
fn matrix_rotate_z_increment() {}

#[test]
fn matrix4_rotate_z_increment() {}

#[test]
fn frame_slots_start_with_signaled_fences() {
    let fb = FramebufferState::new(3);
    assert_eq!(fb.slots.len(), 3);
    for slot in fb.slots.iter() {
        assert!(slot.fence.signaled);
        assert!(slot.fence.live);
        assert!(slot.pool_live);
        assert!(slot.present_semaphore_live);
        assert_eq!(slot.recycled_buffers, 0);
        assert_eq!(slot.allocated_buffers, 0);
    }
}

#[test]
fn prepare_slot_recycles_command_buffers() {
    let mut fb = FramebufferState::new(2);
    // first use: nothing to recycle, a fresh buffer is allocated
    fb.prepare_slot(0);
    assert_eq!(fb.slots[0].allocated_buffers, 1);
    assert_eq!(fb.slots[0].recycled_buffers, 0);
    assert!(!fb.slots[0].fence.signaled);
    fb.recycle_slot_buffer(0);
    assert_eq!(fb.slots[0].recycled_buffers, 1);
    // the fence must signal before the slot is reused
    fb.wait_slot_fence(0);
    assert!(fb.slots[0].fence.signaled);
    // second use: the recycled buffer is taken, no new allocation
    fb.prepare_slot(0);
    assert_eq!(fb.slots[0].allocated_buffers, 1);
    assert_eq!(fb.slots[0].recycled_buffers, 0);
}

#[test]
fn semaphore_pair_index_wraps() {
    let mut fb = FramebufferState::new(2);
    assert_eq!(fb.next_acq_pre_pair_index(), 0);
    assert_eq!(fb.next_acq_pre_pair_index(), 1);
    assert_eq!(fb.next_acq_pre_pair_index(), 0);
}

#[test]
fn teardown_empties_the_slots() {
    let mut fb = FramebufferState::new(3);
    fb.teardown();
    assert_eq!(fb.slots.len(), 0);
    assert!(!fb.live);
}
