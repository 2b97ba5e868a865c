use zeus_render::image::{
    format_for_extension, format_for_path, extension_of, mip_extent_chain, mip_levels_for,
    stencil_support, texture_upload_plan, ImageContainerFormat, ImageOp,
    FEATURE_DEPTH_STENCIL_ATTACHMENT, FEATURE_SAMPLED_LINEAR,
};

#[test]
fn mip_count_formula() {
    // floor(log2(max(w, h))) + 1
    assert_eq!(mip_levels_for(1, 1), 1);
    assert_eq!(mip_levels_for(2, 1), 2);
    assert_eq!(mip_levels_for(3, 2), 2);
    assert_eq!(mip_levels_for(4, 4), 3);
    assert_eq!(mip_levels_for(1024, 768), 11);
    assert_eq!(mip_levels_for(768, 1024), 11);
    assert_eq!(mip_levels_for(1023, 1), 10);
}

#[test]
fn mip_chain_halves_and_clamps() {
    let chain = mip_extent_chain(4, 2);
    assert_eq!(chain.len(), 3);
    assert_eq!((chain[0].width, chain[0].height), (4, 2));
    assert_eq!((chain[1].width, chain[1].height), (2, 1));
    assert_eq!((chain[2].width, chain[2].height), (1, 1));
    for i in 1..chain.len() {
        let halved_w = if chain[i - 1].width > 1 { chain[i - 1].width / 2 } else { 1 };
        let halved_h = if chain[i - 1].height > 1 { chain[i - 1].height / 2 } else { 1 };
        assert_eq!(chain[i].width, halved_w);
        assert_eq!(chain[i].height, halved_h);
    }
}

#[test]
fn upload_plan_orders_blits_per_level() {
    let plan = texture_upload_plan(4, 2, 3, 4, true);
    assert_eq!(
        plan,
        vec![
            ImageOp::BarrierUndefinedToTransferDst { level_start: 0, level_count: 3 },
            ImageOp::CopyBufferToImage { buffer_row_texels: 4, width: 4, height: 2 },
            ImageOp::BarrierTransferDstToSrc { level: 0 },
            ImageOp::Blit {
                src_level: 0,
                dst_level: 1,
                src_width: 4,
                src_height: 2,
                dst_width: 2,
                dst_height: 1,
            },
            ImageOp::BarrierSrcToShaderRead { level: 0 },
            ImageOp::BarrierTransferDstToSrc { level: 1 },
            ImageOp::Blit {
                src_level: 1,
                dst_level: 2,
                src_width: 2,
                src_height: 1,
                dst_width: 1,
                dst_height: 1,
            },
            ImageOp::BarrierSrcToShaderRead { level: 1 },
            ImageOp::BarrierDstToShaderRead { level: 2 },
        ]
    );
}

#[test]
fn upload_plan_without_linear_filter_skips_mips() {
    let plan = texture_upload_plan(8, 8, 4, 8, false);
    assert_eq!(
        plan,
        vec![
            ImageOp::BarrierUndefinedToTransferDst { level_start: 0, level_count: 4 },
            ImageOp::CopyBufferToImage { buffer_row_texels: 8, width: 8, height: 8 },
            ImageOp::BarrierDstToShaderRead { level: 3 },
        ]
    );
}

#[test]
fn stencil_probe_reads_either_tiling() {
    assert!(stencil_support(FEATURE_DEPTH_STENCIL_ATTACHMENT, 0));
    assert!(stencil_support(0, FEATURE_DEPTH_STENCIL_ATTACHMENT));
    assert!(!stencil_support(0, 0));
    assert!(!stencil_support(FEATURE_SAMPLED_LINEAR, FEATURE_SAMPLED_LINEAR));
}

#[test]
fn extension_capture_finds_final_suffix() {
    assert_eq!(extension_of("./data/textures/viking_room.png").as_deref(), Some("png"));
    assert_eq!(extension_of("archive.tar.gz").as_deref(), Some("gz"));
    assert_eq!(extension_of("no_extension"), None);
    assert_eq!(extension_of("trailing.dot.123"), None);
}

#[test]
fn container_format_by_extension() {
    assert_eq!(format_for_extension(&"png".to_string()), ImageContainerFormat::Png);
    assert_eq!(format_for_extension(&"jpg".to_string()), ImageContainerFormat::Jpeg);
    assert_eq!(format_for_extension(&"jpeg".to_string()), ImageContainerFormat::Jpeg);
    assert_eq!(format_for_extension(&"gif".to_string()), ImageContainerFormat::Gif);
    assert_eq!(format_for_extension(&"ico".to_string()), ImageContainerFormat::Ico);
    assert_eq!(format_for_extension(&"bmp".to_string()), ImageContainerFormat::Png);
}

#[test]
fn container_format_by_path() {
    assert_eq!(format_for_path("tex.jpeg"), Some(ImageContainerFormat::Jpeg));
    assert_eq!(format_for_path("tex.ico"), Some(ImageContainerFormat::Ico));
    assert_eq!(format_for_path("tex"), None);
}
