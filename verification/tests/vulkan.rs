use fate::vulkan::{
    ACCESS_SHADER_READ, ACCESS_TRANSFER_WRITE, ASPECT_COLOR, ASPECT_DEPTH, ASPECT_STENCIL, BarrierMasks, FORMAT_D24_UNORM_S8_UINT, FORMAT_D32_SFLOAT, FORMAT_D32_SFLOAT_S8_UINT, FORMAT_FEATURE_DEPTH_STENCIL_ATTACHMENT, FormatProperties, ImageLayout, ImageTiling, LayoutTransitionError, MipBlit, STAGE_FRAGMENT_SHADER, STAGE_TOP_OF_PIPE, STAGE_TRANSFER, depth_format_candidates, get_supported_format, has_stencil_component, layout_transition_masks, mip_blits, transition_aspect_mask,
};

#[test]
fn upload_transitions_are_supported() {
    let m = layout_transition_masks(ImageLayout::Undefined, ImageLayout::TransferDstOptimal).unwrap();
    assert_eq!(m, BarrierMasks { src_access: 0, dst_access: ACCESS_TRANSFER_WRITE, src_stage: STAGE_TOP_OF_PIPE, dst_stage: STAGE_TRANSFER });
    let m = layout_transition_masks(ImageLayout::TransferDstOptimal, ImageLayout::ShaderReadOnlyOptimal).unwrap();
    assert_eq!(m.dst_access, ACCESS_SHADER_READ);
    assert_eq!(m.dst_stage, STAGE_FRAGMENT_SHADER);
}

#[test]
fn depth_transition_waits_on_early_tests() {
    let m = layout_transition_masks(ImageLayout::Undefined, ImageLayout::DepthStencilAttachmentOptimal).unwrap();
    assert_eq!(m.dst_access, 0x200 | 0x400);
    assert_eq!(m.src_stage, 0);
    assert_eq!(m.dst_stage, 0x100);
    let m = layout_transition_masks(ImageLayout::DepthStencilAttachmentOptimal, ImageLayout::ShaderReadOnlyOptimal).unwrap();
    assert_eq!(m.src_stage, 0x100 | 0x200);
}

#[test]
fn transfer_src_to_shader_read_keeps_write_access() {
    let m = layout_transition_masks(ImageLayout::TransferSrcOptimal, ImageLayout::ShaderReadOnlyOptimal).unwrap();
    assert_eq!(m.src_access, ACCESS_TRANSFER_WRITE);
}

#[test]
fn unknown_transition_is_refused() {
    assert_eq!(
        layout_transition_masks(ImageLayout::ShaderReadOnlyOptimal, ImageLayout::Undefined),
        Err(LayoutTransitionError::Unsupported)
    );
    assert_eq!(
        layout_transition_masks(ImageLayout::Other(1), ImageLayout::TransferDstOptimal),
        Err(LayoutTransitionError::Unsupported)
    );
}

#[test]
fn stencil_and_aspect() {
    assert!(has_stencil_component(FORMAT_D24_UNORM_S8_UINT));
    assert!(has_stencil_component(FORMAT_D32_SFLOAT_S8_UINT));
    assert!(!has_stencil_component(FORMAT_D32_SFLOAT));
    assert_eq!(transition_aspect_mask(FORMAT_D24_UNORM_S8_UINT, ImageLayout::Undefined, ImageLayout::DepthStencilAttachmentOptimal), ASPECT_DEPTH | ASPECT_STENCIL);
    assert_eq!(transition_aspect_mask(FORMAT_D32_SFLOAT, ImageLayout::DepthStencilAttachmentOptimal, ImageLayout::ShaderReadOnlyOptimal), ASPECT_DEPTH);
    assert_eq!(transition_aspect_mask(FORMAT_D32_SFLOAT, ImageLayout::Undefined, ImageLayout::TransferDstOptimal), ASPECT_COLOR);
}

#[test]
fn mip_blits_halve_down_to_one() {
    let blits = mip_blits(8, 3, 4);
    assert_eq!(blits.len(), 3);
    assert_eq!(blits[0], MipBlit { dst_level: 1, src_width: 8, src_height: 3, dst_width: 4, dst_height: 1 });
    assert_eq!(blits[1], MipBlit { dst_level: 2, src_width: 4, src_height: 1, dst_width: 2, dst_height: 1 });
    assert_eq!(blits[2], MipBlit { dst_level: 3, src_width: 2, src_height: 1, dst_width: 1, dst_height: 1 });
    assert!(mip_blits(8, 8, 1).is_empty());
    assert!(mip_blits(8, 8, 0).is_empty());
}

#[test]
fn supported_format_is_first_match() {
    let cands = vec![
        FormatProperties { format: FORMAT_D32_SFLOAT, linear_tiling_features: 0x200, optimal_tiling_features: 0 },
        FormatProperties { format: FORMAT_D32_SFLOAT_S8_UINT, linear_tiling_features: 0, optimal_tiling_features: 0x201 },
        FormatProperties { format: FORMAT_D24_UNORM_S8_UINT, linear_tiling_features: 0, optimal_tiling_features: 0x200 },
    ];
    assert_eq!(get_supported_format(&cands, ImageTiling::Optimal, FORMAT_FEATURE_DEPTH_STENCIL_ATTACHMENT), Some(FORMAT_D32_SFLOAT_S8_UINT));
    assert_eq!(get_supported_format(&cands, ImageTiling::Linear, FORMAT_FEATURE_DEPTH_STENCIL_ATTACHMENT), Some(FORMAT_D32_SFLOAT));
    assert_eq!(get_supported_format(&cands, ImageTiling::Other(5), 0), None);
    assert_eq!(get_supported_format(&cands, ImageTiling::Optimal, 0x400), None);
}

#[test]
fn depth_candidates_in_order() {
    assert_eq!(depth_format_candidates(), vec![126, 130, 129]);
}

#[test]
fn mipmap_transition_is_supported() {
    let m = layout_transition_masks(ImageLayout::TransferDstOptimal, ImageLayout::TransferSrcOptimal).unwrap();
    assert_eq!(m.src_access, ACCESS_TRANSFER_WRITE);
    assert_eq!(m.dst_access, 0x800);
    assert_eq!(m.src_stage, STAGE_TRANSFER);
    assert_eq!(m.dst_stage, STAGE_TRANSFER);
}
