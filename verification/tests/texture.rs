use flappy_bird::graphics::renderer::texture::{pixel_formats, prepare_image_upload, upload_from_decoded, DecodedImage, PixelLayout, TextureError};

fn png(image: image::DynamicImage) -> Vec<u8> {
    let mut bytes = std::io::Cursor::new(Vec::new());
    image.write_to(&mut bytes, image::ImageFormat::Png).unwrap();
    bytes.into_inner()
}

#[test]
fn rgb_images_upload_as_rgb8() {
    let img = image::RgbImage::from_raw(2, 1, vec![1, 2, 3, 4, 5, 6]).unwrap();
    let bytes = png(image::DynamicImage::ImageRgb8(img));
    let upload = prepare_image_upload(&bytes).unwrap();
    assert_eq!((upload.internal_format, upload.data_format), (gl::RGB8, gl::RGB));
    assert_eq!((upload.width, upload.height), (2, 1));
    assert_eq!(upload.data, vec![1, 2, 3, 4, 5, 6]);
}

#[test]
fn rgba_and_luma_images_upload() {
    let img = image::RgbaImage::from_raw(1, 2, vec![9, 8, 7, 6, 5, 4, 3, 2]).unwrap();
    let upload = prepare_image_upload(&png(image::DynamicImage::ImageRgba8(img))).unwrap();
    assert_eq!((upload.internal_format, upload.data_format), (gl::RGBA8, gl::RGBA));
    assert_eq!((upload.width, upload.height, upload.data.len()), (1, 2, 8));
    let img = image::GrayImage::from_raw(3, 1, vec![0, 128, 255]).unwrap();
    let upload = prepare_image_upload(&png(image::DynamicImage::ImageLuma8(img))).unwrap();
    assert_eq!((upload.internal_format, upload.data_format), (gl::RED, gl::RED));
    assert_eq!(upload.data, vec![0, 128, 255]);
    let img = image::GrayAlphaImage::from_raw(1, 1, vec![10, 20]).unwrap();
    let upload = prepare_image_upload(&png(image::DynamicImage::ImageLumaA8(img))).unwrap();
    assert_eq!((upload.internal_format, upload.data_format), (gl::RG, gl::RG));
}

#[test]
fn sixteen_bit_images_are_unsupported() {
    let img = image::ImageBuffer::<image::Rgb<u16>, Vec<u16>>::from_raw(1, 1, vec![1, 2, 3]).unwrap();
    let bytes = png(image::DynamicImage::ImageRgb16(img));
    assert!(matches!(prepare_image_upload(&bytes), Err(TextureError::UnsupportedFormat)));
}

#[test]
fn garbage_is_a_decode_error() {
    assert!(matches!(prepare_image_upload(&[1, 2, 3, 4]), Err(TextureError::Decode(_))));
    assert!(matches!(prepare_image_upload(&[]), Err(TextureError::Decode(_))));
}

#[test]
fn formats_of_layouts() {
    assert_eq!(pixel_formats(PixelLayout::Luma8), Some((gl::RED, gl::RED)));
    assert_eq!(pixel_formats(PixelLayout::LumaA8), Some((gl::RG, gl::RG)));
    assert_eq!(pixel_formats(PixelLayout::Rgb8), Some((gl::RGB8, gl::RGB)));
    assert_eq!(pixel_formats(PixelLayout::Rgba8), Some((gl::RGBA8, gl::RGBA)));
    assert_eq!(pixel_formats(PixelLayout::Other), None);
    let img = DecodedImage { layout: PixelLayout::Other, width: 1, height: 1, data: vec![0; 6] };
    assert!(matches!(upload_from_decoded(img), Err(TextureError::UnsupportedFormat)));
    let img = DecodedImage { layout: PixelLayout::Rgba8, width: 1, height: 1, data: vec![1, 2, 3, 4] };
    let up = upload_from_decoded(img).unwrap();
    assert_eq!((up.internal_format, up.width, up.height, up.data), (gl::RGBA8, 1, 1, vec![1, 2, 3, 4]));
}
