use fate::source::{
    data_uri_mime_type, data_uri_payload, decode_data_uri_image, decode_image, decode_view_image,
    image_mime, is_data_uri, ImageMime, ImageSourceError,
};
use std::io::Cursor;

fn png_bytes() -> Vec<u8> {
    let img = image::RgbImage::from_raw(2, 1, vec![1, 2, 3, 4, 5, 6]).unwrap();
    let mut out = Vec::new();
    image::DynamicImage::ImageRgb8(img)
        .write_to(&mut Cursor::new(&mut out), image::ImageOutputFormat::Png)
        .unwrap();
    out
}

#[allow(deprecated)]
fn png_data_uri() -> String {
    format!("data:image/png;base64,{}", base64::encode(png_bytes()))
}

#[test]
fn data_uri_recognised_by_prefix() {
    assert!(is_data_uri("data:image/png;base64,AAAA"));
    assert!(!is_data_uri("textures/albedo.png"));
    assert!(!is_data_uri("data"));
}

#[test]
fn data_uri_fields() {
    assert_eq!(data_uri_payload("data:image/png;base64,QUJD"), Some("QUJD".to_string()));
    assert_eq!(data_uri_payload("data:image/png;base64,QUJD,rest"), Some("QUJD".to_string()));
    assert_eq!(data_uri_payload("data:image/png;base64"), None);
    assert_eq!(data_uri_mime_type("data:image/jpeg;base64,QUJD"), Some("image/jpeg".to_string()));
    assert_eq!(data_uri_mime_type("data:image/png,QUJD"), Some("image/png".to_string()));
    assert_eq!(data_uri_mime_type("image/png;base64,QUJD"), None);
    assert_eq!(data_uri_mime_type("data:a:b,c:d"), Some("a".to_string()));
}

#[test]
fn mime_types() {
    assert_eq!(image_mime("image/jpeg"), Some(ImageMime::Jpeg));
    assert_eq!(image_mime("image/png"), Some(ImageMime::Png));
    assert_eq!(image_mime("image/gif"), None);
    assert_eq!(image_mime("image/png "), None);
}

#[test]
fn decode_png_bytes() {
    let img = decode_image(&png_bytes(), ImageMime::Png).unwrap();
    assert_eq!(img.width(), 2);
    assert_eq!(img.height(), 1);
    assert_eq!(img.pixels(), &vec![1, 2, 3, 4, 5, 6]);
    assert_eq!(decode_image(&[1, 2, 3], ImageMime::Png).err(), Some(ImageSourceError::DecodeFailed));
}

#[test]
fn decode_data_uri_with_header_type() {
    let img = decode_data_uri_image(&png_data_uri(), None).unwrap();
    assert_eq!(img.pixels(), &vec![1, 2, 3, 4, 5, 6]);
}

#[test]
fn declared_type_overrides_header() {
    let uri = png_data_uri().replace("image/png", "image/gif");
    assert!(decode_data_uri_image(&uri, Some("image/png")).is_ok());
    assert_eq!(decode_data_uri_image(&uri, None).err(), Some(ImageSourceError::UnsupportedMimeType));
    assert_eq!(decode_data_uri_image(&png_data_uri(), Some("image/jpeg")).err(), Some(ImageSourceError::DecodeFailed));
}

#[test]
fn data_uri_errors_in_order() {
    assert_eq!(decode_data_uri_image("data:image/png;base64", None).err(), Some(ImageSourceError::MissingPayload));
    assert_eq!(decode_data_uri_image("data:image/png;base64,@@@", None).err(), Some(ImageSourceError::InvalidBase64));
    assert_eq!(decode_data_uri_image("nocolon,QUJD", None).err(), Some(ImageSourceError::MissingMimeType));
}

#[test]
fn buffer_view_images() {
    let png = png_bytes();
    let mut buffer = vec![7u8, 7, 7];
    buffer.extend_from_slice(&png);
    buffer.push(9);
    let img = decode_view_image(&buffer, 3, png.len(), "image/png").unwrap();
    assert_eq!(img.pixels(), &vec![1, 2, 3, 4, 5, 6]);
    assert_eq!(decode_view_image(&buffer, 3, png.len() + 5, "image/png").err(), Some(ImageSourceError::ViewOutOfBounds));
    assert_eq!(decode_view_image(&buffer, 3, png.len(), "image/bmp").err(), Some(ImageSourceError::UnsupportedMimeType));
}
