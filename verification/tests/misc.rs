use fate::bvh::{bvh_shape, BvhShape};
use fate::frame::{animation_command, swapchain_action, AnimationCommand, SwapchainAction};
use fate::gui::{get_kernel_size_index, ssao_kernel_size};
use fate::material::{alpha_mode_index, is_transparent_mode, AlphaMode, TextureInfo};
use fate::mikktspace::{can_generate_inputs, needs_generated_tangents, tangent_faces};
use fate::model::{material_image_index, slot_image, triangle_indices, MaterialTextureIndices};

#[test]
fn kernel_size_index_roundtrip() {
    assert_eq!(get_kernel_size_index(16), 0);
    assert_eq!(get_kernel_size_index(32), 1);
    assert_eq!(get_kernel_size_index(128), 3);
    for i in 0..4 {
        assert_eq!(get_kernel_size_index(ssao_kernel_size(i)), i);
    }
}

#[test]
fn texture_info_and_alpha_modes() {
    let t = TextureInfo::new(4, 1);
    assert_eq!(t.index(), 4);
    assert_eq!(t.channel(), 1);
    assert_eq!(alpha_mode_index(AlphaMode::Opaque), 0);
    assert_eq!(alpha_mode_index(AlphaMode::Mask), 1);
    assert_eq!(alpha_mode_index(AlphaMode::Blend), 2);
    assert!(is_transparent_mode(2));
    assert!(!is_transparent_mode(1));
}

#[test]
fn tangent_generation_inputs() {
    assert!(!can_generate_inputs(3, 0));
    assert!(!can_generate_inputs(4, 3));
    assert!(can_generate_inputs(6, 1));
    assert!(!can_generate_inputs(0, 4));
    assert!(can_generate_inputs(0, 6));
    assert!(needs_generated_tangents(3, 3, 3, 0));
    assert!(!needs_generated_tangents(3, 0, 3, 0));
    assert!(!needs_generated_tangents(3, 3, 3, 3));
}

#[test]
fn tangent_faces_from_indices_or_vertices() {
    let ix = [0u32, 2, 1, 2, 3, 1];
    assert_eq!(tangent_faces(Some(&ix), 4), Some(vec![[0, 2, 1], [2, 3, 1]]));
    assert_eq!(tangent_faces(None, 6), Some(vec![[0, 1, 2], [3, 4, 5]]));
    assert_eq!(tangent_faces(None, 5), None);
    assert_eq!(tangent_faces(Some(&ix[..4]), 4), None);
    assert_eq!(tangent_faces(Some(&[]), 3), Some(vec![]));
    assert_eq!(tangent_faces(Some(&ix), 0), None);
}

#[test]
fn material_slots_follow_last_material() {
    assert_eq!(material_image_index(&vec![]), vec![-1, -1, -1, -1, -1]);
    let a = MaterialTextureIndices { base_color: Some(0), normal: Some(1), metallic_roughness: None, occlusion: Some(2), emissive: None };
    let b = MaterialTextureIndices { base_color: Some(5), normal: None, metallic_roughness: Some(6), occlusion: None, emissive: Some(7) };
    assert_eq!(material_image_index(&vec![a]), vec![0, 1, -1, 2, -1]);
    assert_eq!(material_image_index(&vec![a, b]), vec![5, -1, 6, -1, 7]);
    assert_eq!(slot_image(-1, 3), None);
    assert_eq!(slot_image(2, 3), Some(2));
    assert_eq!(slot_image(3, 3), None);
}

#[test]
fn triangles_from_indices() {
    assert_eq!(triangle_indices(&vec![0, 1, 2, 2, 1, 3, 9]), vec![[0, 1, 2], [2, 1, 3]]);
    assert!(triangle_indices(&vec![1, 2]).is_empty());
}

#[test]
fn frame_decisions() {
    assert_eq!(animation_command(true, true, true, false, 1), AnimationCommand::Toggle);
    assert_eq!(animation_command(false, true, true, false, 1), AnimationCommand::Stop);
    assert_eq!(animation_command(false, false, true, false, 1), AnimationCommand::Reset);
    assert_eq!(animation_command(false, false, false, true, 2), AnimationCommand::Play { looping: true, animation: 2 });
    assert_eq!(swapchain_action(false, 0, 0), SwapchainAction::Render);
    assert_eq!(swapchain_action(true, 800, 600), SwapchainAction::Recreate);
    assert_eq!(swapchain_action(true, 800, 0), SwapchainAction::Skip);
}

#[test]
fn bvh_shapes() {
    assert_eq!(bvh_shape(4, 5), BvhShape::Single);
    assert_eq!(bvh_shape(4, 6), BvhShape::Pair);
    assert_eq!(bvh_shape(0, 3), BvhShape::Split { mid: 1 });
    assert_eq!(bvh_shape(10, 17), BvhShape::Split { mid: 13 });
}
