use fate::image::{texture_path, DynImage, Image};

fn sample() -> Image {
    // 2 x 2 image: red, green / blue, white
    let px = vec![255, 0, 0, 0, 255, 0, 0, 0, 255, 255, 255, 255];
    Image::new_with_dyn_img(DynImage::from_rgb8(2, 2, px).unwrap())
}

#[test]
fn from_rgb8_checks_length() {
    assert!(DynImage::from_rgb8(2, 2, vec![0; 12]).is_some());
    assert!(DynImage::from_rgb8(2, 2, vec![0; 11]).is_none());
    assert!(DynImage::from_rgb8(2, 2, vec![0; 9]).is_none());
    assert!(DynImage::from_rgb8(0, 7, vec![]).is_some());
}

#[test]
fn image_size() {
    let img = sample();
    assert_eq!(img.width(), 2);
    assert_eq!(img.height(), 2);
    assert_eq!(Image::default().width(), 0);
}

#[test]
fn pixel_data_reads_rows() {
    let img = sample();
    assert_eq!(img.pixel_data(0, 0), [255, 0, 0]);
    assert_eq!(img.pixel_data(1, 0), [0, 255, 0]);
    assert_eq!(img.pixel_data(0, 1), [0, 0, 255]);
    assert_eq!(img.pixel_data(1, 1), [255, 255, 255]);
}

#[test]
fn pixel_data_clamps_past_the_edge() {
    let img = sample();
    assert_eq!(img.pixel_data(5, 0), [0, 255, 0]);
    assert_eq!(img.pixel_data(0, 9), [0, 0, 255]);
    assert_eq!(img.pixel_data(usize::MAX, usize::MAX), [255, 255, 255]);
}

#[test]
fn texture_path_prefixes_directory() {
    assert_eq!(texture_path("Default_albedo.jpg"), "res/texture/Default_albedo.jpg");
    assert_eq!(texture_path(""), "res/texture/");
}
