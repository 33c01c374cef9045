use fate::texture::{
    get_rgba_pixels, next_rgba, srgb_image_flags, GltfImage, MaterialColorSources, PixelFormat,
};

#[test]
fn next_rgba_expands_each_byte_format() {
    let p = [10u8, 20, 30, 40, 50, 60, 70, 80];
    assert_eq!(next_rgba(&p, PixelFormat::R8, 2), [30, 30, 30, 255]);
    assert_eq!(next_rgba(&p, PixelFormat::R8G8, 1), [30, 30, 30, 40]);
    assert_eq!(next_rgba(&p, PixelFormat::R8G8B8, 1), [40, 50, 60, 255]);
    assert_eq!(next_rgba(&p, PixelFormat::R8G8B8A8, 1), [50, 60, 70, 80]);
}

#[test]
fn get_rgba_pixels_of_rgb_image() {
    let image = GltfImage {
        pixels: vec![1, 2, 3, 4, 5, 6],
        format: PixelFormat::R8G8B8,
        width: 2,
        height: 1,
    };
    assert_eq!(get_rgba_pixels(&image), vec![1, 2, 3, 255, 4, 5, 6, 255]);
}

#[test]
fn get_rgba_pixels_copies_rgba_image() {
    let bytes: Vec<u8> = (0..16).collect();
    let image = GltfImage { pixels: bytes.clone(), format: PixelFormat::R8G8B8A8, width: 2, height: 2 };
    assert_eq!(get_rgba_pixels(&image), bytes);
}

#[test]
fn get_rgba_pixels_of_grey_alpha_image() {
    let image = GltfImage { pixels: vec![9, 100, 7, 200], format: PixelFormat::R8G8, width: 1, height: 2 };
    assert_eq!(get_rgba_pixels(&image), vec![9, 9, 9, 100, 7, 7, 7, 200]);
}

#[test]
fn get_rgba_pixels_of_empty_image() {
    let image = GltfImage { pixels: vec![], format: PixelFormat::R16, width: 0, height: 5 };
    assert!(get_rgba_pixels(&image).is_empty());
}

#[test]
fn srgb_flags_mark_colour_textures_only() {
    let materials = vec![
        MaterialColorSources { base_color: Some(0), diffuse: None, specular_glossiness: None, emissive: Some(3) },
        MaterialColorSources { base_color: None, diffuse: Some(1), specular_glossiness: Some(7), emissive: None },
    ];
    assert_eq!(srgb_image_flags(&materials, 5), vec![true, true, false, true, false]);
    assert_eq!(srgb_image_flags(&vec![], 2), vec![false, false]);
}
