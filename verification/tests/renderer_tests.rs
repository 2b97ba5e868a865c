use zeus_render::buffer::{MemoryType, PROP_COHERENT, PROP_CPU_VISIBLE, PROP_DEVICE_LOCAL};
use zeus_render::frame_slot_index;
use zeus_render::image::FEATURE_DEPTH_STENCIL_ATTACHMENT;
use zeus_render::input::Key;
use zeus_render::model::{Color, Dimensions, RenderCommand, RgbaValue, ViewportRect};
use zeus_render::obj::RenderObject;
use zeus_render::renderer::{color_key_order, FrameGate, RendererState};
use zeus_render::swapchain::SurfaceFormat;

fn all_purpose_memory() -> Vec<MemoryType> {
    vec![MemoryType { properties: PROP_CPU_VISIBLE | PROP_COHERENT | PROP_DEVICE_LOCAL }]
}

fn srgb_formats() -> Option<Vec<SurfaceFormat>> {
    Some(vec![
        SurfaceFormat { code: 44, srgb: false },
        SurfaceFormat { code: 43, srgb: true },
    ])
}

fn small_object(types: &Vec<MemoryType>) -> RenderObject {
    let vertices = vec![
        zeus_render::model::VertexKey {
            pos_x: 1,
            pos_y: 2,
            pos_z: 3,
            col_r: 10,
            col_g: 11,
            col_b: 12,
            col_a: 13,
            uv_u: 20,
            uv_v: 21,
        },
        zeus_render::model::VertexKey {
            pos_x: 4,
            pos_y: 5,
            pos_z: 6,
            col_r: 10,
            col_g: 11,
            col_b: 12,
            col_a: 13,
            uv_u: 22,
            uv_v: 23,
        },
    ];
    let indices = vec![0, 1, 0];
    let pixels: Vec<u8> = vec![255, 0, 0, 255];
    let (object, _plan) =
        RenderObject::new_from_vertices(vertices, indices, &pixels, 1, 1, 4, types, 1, true)
            .unwrap();
    object
}

fn renderer_with_level(types: &Vec<MemoryType>) -> RendererState {
    let mut state = RendererState::new(
        Dimensions { width: 1024, height: 768 },
        srgb_formats(),
        true,
        FEATURE_DEPTH_STENCIL_ATTACHMENT,
        0,
        types,
        1,
    )
    .unwrap();
    let object = small_object(types);
    state
        .load_level(object, srgb_formats(), true, FEATURE_DEPTH_STENCIL_ATTACHMENT, 0, types, 1)
        .unwrap();
    state
}

#[test]
fn frame_slot_stays_in_bounds() {
    assert_eq!(frame_slot_index(0, 3), 0);
    assert_eq!(frame_slot_index(7, 3), 1);
    assert_eq!(frame_slot_index(u64::MAX, 3), u64::MAX % 3);
    for f in 0..50u64 {
        assert!(frame_slot_index(f, 3) < 3);
    }
}

#[test]
fn cold_start_draws_one_frame_without_recreation_request() {
    let types = all_purpose_memory();
    let mut state = renderer_with_level(&types);
    // the swapchain carries three images in the chosen SRGB format
    assert_eq!(state.swapchain.size, 3);
    assert_eq!(state.swapchain.format, SurfaceFormat { code: 43, srgb: true });
    assert_eq!(state.framebuffer.slots.len(), 3);
    assert!(state.pipeline.pipeline_live);
    // load_level already ran its recreation: the frame may proceed
    assert_eq!(state.begin_frame(16).unwrap(), FrameGate::Ready);
    let slot = state.on_acquire(true).unwrap();
    assert_eq!(slot, 0);
    let plan = state.record_and_submit(slot);
    assert_eq!(plan[0], RenderCommand::BeginCommandBuffer);
    assert_eq!(
        plan[1],
        RenderCommand::SetViewport { rect: ViewportRect { x: 0, y: 0, w: 1024, h: 768 } }
    );
    assert_eq!(plan[4], RenderCommand::BeginRenderPass {
        bg: RgbaValue { r: 0, g: 0, b: 0, a: 255 },
        with_depth_clear: true,
    });
    assert!(plan.contains(&RenderCommand::BindIndexBuffer));
    assert!(plan.contains(&RenderCommand::DrawIndexed { index_count: 3 }));
    assert_eq!(plan[plan.len() - 1], RenderCommand::FinishCommandBuffer);
    // the camera set is bound before the object's sets
    let cam = plan.iter().position(|c| *c == RenderCommand::BindCameraDescriptorSet).unwrap();
    let tex =
        plan.iter().position(|c| *c == RenderCommand::BindObjectTextureDescriptorSet).unwrap();
    assert!(cam < tex);
    state.on_present(true);
    assert!(!state.recreate_swapchain);
}

#[test]
fn resize_storm_runs_one_recreation_cycle() {
    let types = all_purpose_memory();
    let mut state = renderer_with_level(&types);
    // five resize events within one frame interval
    for w in [100u32, 200, 300, 400, 500] {
        state.update_window_dimensions(w, 500);
    }
    assert!(state.recreate_swapchain);
    assert_eq!(state.live_swapchains, 1);
    // the next frame honours the one pending request with one recreation
    assert_eq!(state.begin_frame(16).unwrap(), FrameGate::RecreateFirst);
    state
        .recreate_swapchain(srgb_formats(), true, FEATURE_DEPTH_STENCIL_ATTACHMENT, 0, &types, 1)
        .unwrap();
    assert!(!state.recreate_swapchain);
    assert_eq!(state.live_swapchains, 1);
    assert_eq!(state.live_render_passes, 1);
    assert_eq!(state.framebuffer.slots.len(), 3);
    assert_eq!(state.swapchain.extent, Dimensions { width: 500, height: 500 });
    // the frame after the recreation presents without another cycle
    assert_eq!(state.begin_frame(16).unwrap(), FrameGate::Ready);
    let slot = state.on_acquire(true).unwrap();
    let _plan = state.record_and_submit(slot);
    state.on_present(true);
    assert!(!state.recreate_swapchain);
}

#[test]
fn acquisition_loss_skips_frame_and_requests_recreation() {
    let types = all_purpose_memory();
    let mut state = renderer_with_level(&types);
    let frame_before = state.swapchain.frame_index;
    let r = state.on_acquire(false);
    assert_eq!(r, None);
    assert!(state.recreate_swapchain);
    // nothing was submitted: the counter did not move
    assert_eq!(state.swapchain.frame_index, frame_before);
    assert_eq!(state.begin_frame(16).unwrap(), FrameGate::RecreateFirst);
}

#[test]
fn recreating_twice_leaves_single_generation() {
    let types = all_purpose_memory();
    let mut state = renderer_with_level(&types);
    for _ in 0..2 {
        state
            .recreate_swapchain(
                srgb_formats(),
                true,
                FEATURE_DEPTH_STENCIL_ATTACHMENT,
                0,
                &types,
                1,
            )
            .unwrap();
    }
    assert_eq!(state.live_swapchains, 1);
    assert_eq!(state.live_render_passes, 1);
    assert_eq!(state.framebuffer.slots.len(), 3);
    for slot in state.framebuffer.slots.iter() {
        assert!(slot.pool_live);
        assert!(slot.present_semaphore_live);
        assert!(slot.fence.live);
    }
}

#[test]
fn frame_counter_survives_recreation() {
    let types = all_purpose_memory();
    let mut state = renderer_with_level(&types);
    let start = state.swapchain.frame_index;
    let slot_a = state.on_acquire(true).unwrap();
    let _ = state.record_and_submit(slot_a);
    state.on_present(true);
    assert_eq!(state.swapchain.frame_index, start + 1);
    state
        .recreate_swapchain(srgb_formats(), true, FEATURE_DEPTH_STENCIL_ATTACHMENT, 0, &types, 1)
        .unwrap();
    assert_eq!(state.swapchain.frame_index, start + 1);
}

#[test]
fn frame_slots_cycle_in_order() {
    let types = all_purpose_memory();
    let mut state = renderer_with_level(&types);
    let mut seen = Vec::new();
    for _ in 0..6 {
        let slot = state.on_acquire(true).unwrap();
        let _ = state.record_and_submit(slot);
        // the GPU finishes before the slot comes round again
        state.framebuffer.wait_slot_fence(slot);
        state.on_present(true);
        seen.push(slot);
    }
    assert_eq!(seen, vec![0, 1, 2, 0, 1, 2]);
}

#[test]
fn throttle_skips_fast_frames() {
    let types = all_purpose_memory();
    let state = renderer_with_level(&types);
    assert_eq!(state.begin_frame(0).unwrap(), FrameGate::Throttled);
    assert_eq!(state.begin_frame(1).unwrap(), FrameGate::Ready);
}

#[test]
fn draw_without_level_reports_error() {
    let types = all_purpose_memory();
    let state = RendererState::new(
        Dimensions { width: 640, height: 480 },
        None,
        false,
        0,
        0,
        &types,
        1,
    )
    .unwrap();
    assert!(state.depth_buffer.is_none());
    let err = state.begin_frame(16).unwrap_err();
    assert_eq!(err.message, "No level is loaded! Load a level before drawing the scene.");
}

#[test]
fn digit_keys_build_value_and_enter_confirms() {
    let types = all_purpose_memory();
    let mut state = renderer_with_level(&types);
    state.input(Key::Key1);
    state.input(Key::Key2);
    assert_eq!(state.cur_value, 12);
    state.input(Key::G);
    assert_eq!(state.cur_value, 0);
    assert_eq!(state.cur_color, Color::Green);
    state.input(Key::Key9);
    state.input(Key::Key9);
    state.input(Key::Return);
    assert_eq!(state.cur_value, 0);
    let object = state.object.as_ref().unwrap();
    assert_eq!(object.color, RgbaValue { r: 255, g: 99, b: 25, a: 255 });
    // the colour uniform holds the new colour, little-endian per channel
    let bytes = &object.color_uniform.buffer.as_ref().unwrap().data;
    assert_eq!(bytes[0..4], [255, 0, 0, 0]);
    assert_eq!(bytes[4..8], [99, 0, 0, 0]);
}

#[test]
fn background_keys_update_bg_but_never_alpha() {
    let types = all_purpose_memory();
    let mut state = renderer_with_level(&types);
    state.input(Key::B);
    state.input(Key::Key4);
    state.input(Key::Key2);
    state.input(Key::C);
    assert_eq!(state.bg_color, RgbaValue { r: 0, g: 0, b: 42, a: 255 });
    state.input(Key::V);
    state.input(Key::Key7);
    state.input(Key::C);
    // alpha is not a background channel
    assert_eq!(state.bg_color, RgbaValue { r: 0, g: 0, b: 42, a: 255 });
}

#[test]
fn arrow_keys_clamp_at_bounds() {
    let types = all_purpose_memory();
    let mut state = renderer_with_level(&types);
    state.input(Key::Down);
    assert_eq!(state.cur_value, 0);
    state.input(Key::Up);
    state.input(Key::Up);
    assert_eq!(state.cur_value, 2);
    assert_eq!(state.object.as_ref().unwrap().color.r, 2);
    state.input(Key::Right);
    assert_eq!(state.bg_color.r, 3);
    state.input(Key::Left);
    assert_eq!(state.bg_color.r, 2);
}

#[test]
fn movement_keys_leave_color_state_alone() {
    let types = all_purpose_memory();
    let mut state = renderer_with_level(&types);
    state.input(Key::W);
    state.input(Key::Q);
    assert_eq!(state.cur_value, 0);
    assert_eq!(state.cur_color, Color::Red);
}

#[test]
fn color_key_polling_order_is_fixed() {
    let order = color_key_order();
    assert_eq!(order.len(), 20);
    assert_eq!(order[0], Key::Key0);
    assert_eq!(order[10], Key::R);
    assert_eq!(order[14], Key::Return);
    assert_eq!(order[19], Key::Left);
}
