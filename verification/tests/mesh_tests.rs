use zeus_render::buffer::{MemoryType, RenderError, PROP_COHERENT, PROP_CPU_VISIBLE, PROP_DEVICE_LOCAL};
use zeus_render::desc::{DescSetLayout, DescriptorPool, DescriptorType, LayoutBinding, STAGE_FRAGMENT};
use zeus_render::model::{color_bytes, get_attribute_description, get_vertex_buffer_description, RgbaValue, VertexKey};
use zeus_render::obj::{build_mesh, pack_u32s, vertices_to_words, RenderObject};
use zeus_render::swapchain::{choose_present_mode, select_surface_format, fallback_format, PresentMode, SurfaceFormat, SwapchainState};
use zeus_render::model::Dimensions;

fn all_purpose_memory() -> Vec<MemoryType> {
    vec![MemoryType { properties: PROP_CPU_VISIBLE | PROP_COHERENT | PROP_DEVICE_LOCAL }]
}

#[test]
fn dedup_keys_on_exact_attribute_equality() {
    // two distinct vertices; the third index revisits the first
    let positions = vec![1, 2, 3, 4, 5, 6];
    let texcoords = vec![10, 11, 12, 13];
    let mesh_indices = vec![0, 1, 0, 1];
    let mesh = build_mesh(&mesh_indices, &positions, &texcoords, (7, 7, 7, 7)).unwrap();
    assert_eq!(mesh.vertices.len(), 2);
    assert_eq!(mesh.indices, vec![0, 1, 0, 1]);
    assert_eq!(mesh.vertices[0].pos_x, 1);
    assert_eq!(mesh.vertices[0].uv_v, 11);
    assert_eq!(mesh.vertices[1].pos_z, 6);
    assert_eq!(mesh.vertices[1].col_r, 7);
}

#[test]
fn dedup_collapses_identical_attributes() {
    // two mesh slots carrying bit-identical attributes become one vertex
    let positions = vec![9, 9, 9, 9, 9, 9];
    let texcoords = vec![5, 5, 5, 5];
    let mesh_indices = vec![0, 1];
    let mesh = build_mesh(&mesh_indices, &positions, &texcoords, (1, 1, 1, 1)).unwrap();
    assert_eq!(mesh.vertices.len(), 1);
    assert_eq!(mesh.indices, vec![0, 0]);
}

#[test]
fn dedup_stores_vertices_in_first_occurrence_order() {
    // stream: A, B, A, C — C is the third distinct vertex, stored at 2
    let positions = vec![1, 1, 1, 2, 2, 2, 3, 3, 3];
    let texcoords = vec![0, 0, 0, 0, 0, 0];
    let mesh_indices = vec![0, 1, 0, 2];
    let mesh = build_mesh(&mesh_indices, &positions, &texcoords, (0, 0, 0, 0)).unwrap();
    assert_eq!(mesh.indices, vec![0, 1, 0, 2]);
    assert_eq!(mesh.vertices.len(), 3);
    assert_eq!(mesh.vertices[0].pos_x, 1);
    assert_eq!(mesh.vertices[1].pos_x, 2);
    assert_eq!(mesh.vertices[2].pos_x, 3);
}

#[test]
fn mesh_index_out_of_range_is_reported() {
    let positions = vec![1, 2, 3];
    let texcoords = vec![10, 11];
    let mesh_indices = vec![1];
    let r = build_mesh(&mesh_indices, &positions, &texcoords, (0, 0, 0, 0));
    assert_eq!(r.err(), Some(RenderError::IndexOutOfRange));
}

#[test]
fn words_pack_little_endian() {
    assert_eq!(pack_u32s(&vec![0x0403_0201]), vec![1, 2, 3, 4]);
    assert_eq!(pack_u32s(&vec![1, 0x100]), vec![1, 0, 0, 0, 0, 1, 0, 0]);
    let v = VertexKey {
        pos_x: 1,
        pos_y: 2,
        pos_z: 3,
        col_r: 4,
        col_g: 5,
        col_b: 6,
        col_a: 7,
        uv_u: 8,
        uv_v: 9,
    };
    assert_eq!(vertices_to_words(&vec![v]), vec![1, 2, 3, 4, 5, 6, 7, 8, 9]);
}

#[test]
fn color_pack_is_four_channel_words() {
    let bytes = color_bytes(RgbaValue { r: 1, g: 2, b: 3, a: 260 });
    assert_eq!(bytes, vec![1, 0, 0, 0, 2, 0, 0, 0, 3, 0, 0, 0, 4, 1, 0, 0]);
}

#[test]
fn vertex_layout_matches_packing() {
    let buffer_desc = get_vertex_buffer_description();
    assert_eq!(buffer_desc.binding, 0);
    assert_eq!(buffer_desc.stride, 36);
    let attrs = get_attribute_description();
    assert_eq!(attrs.len(), 3);
    assert_eq!(attrs[0].offset, 0);
    assert_eq!(attrs[1].offset, 12);
    assert_eq!(attrs[2].offset, 28);
    assert_eq!(attrs[2].location, 2);
}

#[test]
fn render_object_stages_mesh_buffers() {
    let types = all_purpose_memory();
    let vertices = vec![VertexKey {
        pos_x: 0x0403_0201,
        pos_y: 2,
        pos_z: 3,
        col_r: 4,
        col_g: 5,
        col_b: 6,
        col_a: 7,
        uv_u: 8,
        uv_v: 9,
    }];
    let indices = vec![0, 0, 0];
    let pixels = vec![1, 2, 3, 4];
    let (object, plan) =
        RenderObject::new_from_vertices(vertices, indices, &pixels, 1, 1, 4, &types, 1, true)
            .unwrap();
    assert_eq!(object.vertex_buffer.size, 36);
    assert_eq!(&object.vertex_buffer.data[0..4], &[1, 2, 3, 4]);
    let index_buffer = object.index_buffer.as_ref().unwrap();
    assert_eq!(index_buffer.data, vec![0; 12]);
    // the upload completed before the constructor returned
    assert!(object.image.transfered_image_fence.signaled);
    assert!(!object.image.buffer.as_ref().unwrap().gpu_pending);
    // a one-texel texture has a single mip level and no blits
    assert_eq!(object.image.mip_levels, 1);
    assert_eq!(plan.len(), 3);
    // the initial colour uniform is white
    assert_eq!(object.color_uniform.buffer.as_ref().unwrap().data[0..4], [255, 0, 0, 0]);
}

#[test]
fn render_object_without_indices_has_no_index_buffer() {
    let types = all_purpose_memory();
    let vertices = vec![VertexKey {
        pos_x: 1,
        pos_y: 1,
        pos_z: 1,
        col_r: 1,
        col_g: 1,
        col_b: 1,
        col_a: 1,
        uv_u: 1,
        uv_v: 1,
    }];
    let (object, _plan) =
        RenderObject::new_from_vertices(vertices, Vec::new(), &vec![0, 0, 0, 0], 1, 1, 4, &types, 1, false)
            .unwrap();
    assert!(object.index_buffer.is_none());
}

#[test]
fn descriptor_pool_exhaustion_is_fatal_error() {
    let mut pool = DescriptorPool::new(1);
    let layout_a = DescSetLayout::new(vec![LayoutBinding {
        binding: 0,
        ty: DescriptorType::UniformBuffer,
        count: 1,
        stage_flags: STAGE_FRAGMENT,
    }]);
    let layout_b = DescSetLayout::new(vec![LayoutBinding {
        binding: 0,
        ty: DescriptorType::UniformBuffer,
        count: 1,
        stage_flags: STAGE_FRAGMENT,
    }]);
    let first = layout_a.create_desc_set(&mut pool);
    assert!(first.is_ok());
    let second = layout_b.create_desc_set(&mut pool);
    assert_eq!(second.err(), Some(RenderError::PoolExhausted));
}

#[test]
fn swapchain_picks_first_srgb_format() {
    let formats = Some(vec![
        SurfaceFormat { code: 50, srgb: false },
        SurfaceFormat { code: 43, srgb: true },
        SurfaceFormat { code: 57, srgb: true },
    ]);
    assert_eq!(select_surface_format(formats), SurfaceFormat { code: 43, srgb: true });
    let no_srgb = Some(vec![
        SurfaceFormat { code: 50, srgb: false },
        SurfaceFormat { code: 51, srgb: false },
    ]);
    assert_eq!(select_surface_format(no_srgb), SurfaceFormat { code: 50, srgb: false });
    assert_eq!(select_surface_format(None), fallback_format());
}

#[test]
fn present_mode_prefers_mailbox_falls_back_to_fifo() {
    assert_eq!(choose_present_mode(true), PresentMode::Mailbox);
    assert_eq!(choose_present_mode(false), PresentMode::Fifo);
}

#[test]
fn swapchain_configures_three_images_at_window_extent() {
    let (swapchain, mode) =
        SwapchainState::new(Dimensions { width: 800, height: 600 }, None, false);
    assert_eq!(swapchain.size, 3);
    assert_eq!(swapchain.frame_index, 3);
    assert_eq!(swapchain.extent, Dimensions { width: 800, height: 600 });
    assert!(swapchain.configured);
    assert_eq!(mode, PresentMode::Fifo);
}
