use zeus_render::buffer::{
    row_pitch_for, select_memory_type, BufferState, MemoryType, RenderError, TransferFence,
    PROP_COHERENT, PROP_CPU_VISIBLE, PROP_DEVICE_LOCAL, USAGE_INDEX, USAGE_TRANSFER_DST,
    USAGE_TRANSFER_SRC, USAGE_UNIFORM, USAGE_VERTEX,
};

fn all_purpose_memory() -> Vec<MemoryType> {
    vec![MemoryType { properties: PROP_CPU_VISIBLE | PROP_COHERENT | PROP_DEVICE_LOCAL }]
}

#[test]
fn staged_upload_round_trip() {
    let types = all_purpose_memory();
    let payload: Vec<u8> = vec![7, 3, 255, 0, 42, 1, 2, 3];
    let uploaded = BufferState::staged_upload(&payload, USAGE_VERTEX, &types, 1).unwrap();
    assert_eq!(uploaded.data, payload);
    assert_eq!(uploaded.size, payload.len());
    assert_eq!(uploaded.usage, USAGE_VERTEX);
    assert_eq!(uploaded.properties, PROP_DEVICE_LOCAL);
    assert!(uploaded.ready);
    assert!(!uploaded.gpu_pending);
}

#[test]
fn staged_upload_device_local_is_not_host_readable() {
    let types = all_purpose_memory();
    let payload: Vec<u8> = vec![1, 2, 3];
    let uploaded = BufferState::staged_upload(&payload, USAGE_INDEX, &types, 1).unwrap();
    // DEVICE_LOCAL alone carries no CPU_VISIBLE bit: mapping is refused
    assert_eq!(uploaded.read_mapped(0, 3), Err(RenderError::NotHostVisible));
}

#[test]
fn staging_buffer_reads_back_payload() {
    let types = all_purpose_memory();
    let payload: Vec<u8> = vec![9, 8, 7, 6];
    let staging = BufferState::new(
        &payload,
        USAGE_TRANSFER_SRC,
        &types,
        PROP_CPU_VISIBLE | PROP_COHERENT,
        1,
    )
    .unwrap();
    let read = staging.read_mapped(0, 4).unwrap();
    assert_eq!(read, payload);
    let middle = staging.read_mapped(1, 2).unwrap();
    assert_eq!(middle, vec![8, 7]);
}

#[test]
fn update_data_rejects_out_of_bounds() {
    let types = all_purpose_memory();
    let mut buffer = BufferState::new_unmapped(
        4,
        1,
        USAGE_UNIFORM,
        &types,
        PROP_CPU_VISIBLE | PROP_COHERENT,
        1,
    )
    .unwrap();
    // offset + length runs one byte past the end: rejected whole
    assert_eq!(buffer.update_data(1, &[1, 2, 3, 4]), Err(RenderError::OutOfBounds));
    assert_eq!(buffer.data, vec![0, 0, 0, 0]);
    // the same bytes fit at offset zero
    assert_eq!(buffer.update_data(0, &[1, 2, 3, 4]), Ok(()));
    assert_eq!(buffer.data, vec![1, 2, 3, 4]);
    // a partial write leaves the rest alone
    assert_eq!(buffer.update_data(2, &[9]), Ok(()));
    assert_eq!(buffer.data, vec![1, 2, 9, 4]);
}

#[test]
fn read_mapped_rejects_out_of_bounds() {
    let types = all_purpose_memory();
    let buffer = BufferState::new(
        &[5, 6],
        USAGE_UNIFORM,
        &types,
        PROP_CPU_VISIBLE | PROP_COHERENT,
        1,
    )
    .unwrap();
    assert_eq!(buffer.read_mapped(1, 2), Err(RenderError::OutOfBounds));
}

#[test]
fn allocation_fails_without_suitable_memory_type() {
    let types = vec![MemoryType { properties: PROP_DEVICE_LOCAL }];
    let r = BufferState::new_unmapped(
        8,
        1,
        USAGE_UNIFORM,
        &types,
        PROP_CPU_VISIBLE | PROP_COHERENT,
        1,
    );
    assert_eq!(r.err(), Some(RenderError::NoSuitableMemoryType));
    // the mask can also rule the only type out
    let visible = vec![MemoryType { properties: PROP_CPU_VISIBLE | PROP_COHERENT }];
    let r2 = BufferState::new_unmapped(8, 1, USAGE_UNIFORM, &visible, PROP_CPU_VISIBLE, 0);
    assert_eq!(r2.err(), Some(RenderError::NoSuitableMemoryType));
}

#[test]
fn staged_upload_fails_without_device_local_memory() {
    // a host-visible type alone cannot site the device-local destination
    let types = vec![MemoryType { properties: PROP_CPU_VISIBLE | PROP_COHERENT }];
    let r = BufferState::staged_upload(&[1, 2], USAGE_VERTEX, &types, 1);
    assert_eq!(r.err(), Some(RenderError::NoSuitableMemoryType));
}

#[test]
fn select_memory_type_takes_first_match() {
    let types = vec![
        MemoryType { properties: PROP_DEVICE_LOCAL },
        MemoryType { properties: PROP_CPU_VISIBLE | PROP_COHERENT },
        MemoryType { properties: PROP_CPU_VISIBLE | PROP_COHERENT },
    ];
    assert_eq!(select_memory_type(&types, 0b111, PROP_CPU_VISIBLE), Some(1));
    assert_eq!(select_memory_type(&types, 0b100, PROP_CPU_VISIBLE), Some(2));
    assert_eq!(select_memory_type(&types, 0b111, PROP_DEVICE_LOCAL), Some(0));
    assert_eq!(select_memory_type(&types, 0b001, PROP_CPU_VISIBLE), None);
}

#[test]
fn copy_buffer_moves_prefix_and_signals_fence() {
    let types = all_purpose_memory();
    let src = BufferState::new(
        &[1, 2, 3, 4],
        USAGE_TRANSFER_SRC,
        &types,
        PROP_CPU_VISIBLE | PROP_COHERENT,
        1,
    )
    .unwrap();
    let mut dst = BufferState::new_unmapped(
        4,
        1,
        USAGE_TRANSFER_DST | USAGE_VERTEX,
        &types,
        PROP_DEVICE_LOCAL,
        1,
    )
    .unwrap();
    let mut fence = TransferFence::new(false);
    BufferState::copy_buffer(&src, &mut dst, 3, &mut fence);
    assert!(fence.signaled);
    assert_eq!(dst.data, vec![1, 2, 3, 0]);
}

#[test]
fn row_pitch_rounds_up_to_alignment() {
    assert_eq!(row_pitch_for(3, 256), 256);
    assert_eq!(row_pitch_for(64, 256), 256);
    assert_eq!(row_pitch_for(65, 256), 512);
    assert_eq!(row_pitch_for(2, 1), 8);
    assert_eq!(row_pitch_for(2, 8), 8);
}

#[test]
fn texture_staging_is_row_pitch_aligned() {
    let types = all_purpose_memory();
    // a 2x2 image of distinct bytes, pitch alignment of 16 bytes
    let pixels: Vec<u8> = (1..=16).collect();
    let (buffer, dims, row_pitch, stride) =
        BufferState::new_texture(&pixels, 2, 2, 16, &types, USAGE_TRANSFER_SRC, 1).unwrap();
    assert_eq!(stride, 4);
    assert_eq!(dims.width, 2);
    assert_eq!(dims.height, 2);
    assert_eq!(row_pitch, 16);
    assert_eq!(buffer.size, 32);
    // each pixel row sits at its aligned offset, padding after it
    assert_eq!(&buffer.data[0..8], &pixels[0..8]);
    assert_eq!(&buffer.data[16..24], &pixels[8..16]);
    assert_eq!(&buffer.data[8..16], &[0u8; 8]);
}

#[test]
fn teardown_releases_handles() {
    let types = all_purpose_memory();
    let mut buffer = BufferState::new(
        &[1],
        USAGE_UNIFORM,
        &types,
        PROP_CPU_VISIBLE | PROP_COHERENT,
        1,
    )
    .unwrap();
    buffer.teardown();
    assert!(!buffer.ready);
}
