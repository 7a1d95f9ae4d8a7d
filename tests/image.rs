use async_filemanager::{
    DecodeError, Extent, ImageData, ImageFormat, TextureFormat,
};
use async_filemanager::imagedata::{convert_format, get_format_from_extension};
use std::convert::TryFrom;

fn png_bytes(w: u32, h: u32) -> (Vec<u8>, Vec<u8>) {
    let mut texels = Vec::new();
    for i in 0..(w * h) {
        texels.extend_from_slice(&[i as u8, 2 * i as u8, 255 - i as u8, 255]);
    }
    let mut out = Vec::new();
    image::codecs::png::PngEncoder::new(&mut out)
        .encode(&texels, w, h, image::ColorType::Rgba8)
        .unwrap();
    (out, texels)
}

#[test]
fn load_single_image() {
    let (bytes, texels) = png_bytes(3, 2);
    let img = ImageData::decode("small_scream.png", bytes.clone()).unwrap();
    assert_eq!(img.extent(), Extent { width: 3, height: 2, depth: 1 });
    assert_eq!(img.format(), ImageFormat::Png);
    assert_eq!(img.name().map(|n| n.as_str()), Some("small_scream"));
    assert_eq!(img.raw().len(), 4 * 3 * 2);
    assert_eq!(img.raw(), &texels);
    assert_ne!(img.raw(), &bytes);
    assert!(img.can_upload());
    let wide = ImageData::decode("wide.png", png_bytes(4097, 1).0).unwrap();
    assert!(!wide.can_upload());
    let edge = ImageData::decode("edge.png", png_bytes(4096, 1).0).unwrap();
    assert!(edge.can_upload());
}

#[test]
fn try_from_decodes_path_and_bytes() {
    let (bytes, _) = png_bytes(1, 1);
    let img = ImageData::try_from((String::from("dir/one.png"), bytes)).unwrap();
    assert_eq!(img.name().map(|n| n.as_str()), Some("one"));
    assert_eq!(img.extent(), Extent { width: 1, height: 1, depth: 1 });
}

#[test]
fn unknown_extension_is_refused() {
    let (bytes, _) = png_bytes(1, 1);
    assert_eq!(ImageData::decode("picture.jpg", bytes.clone()).unwrap_err(), DecodeError::UnknownFormat);
    assert_eq!(ImageData::decode("picture", bytes).unwrap_err(), DecodeError::UnknownFormat);
}

#[test]
fn malformed_png_is_refused() {
    assert_eq!(ImageData::decode("bad.png", vec![1, 2, 3, 4]).unwrap_err(), DecodeError::Malformed);
    assert_eq!(ImageData::decode("empty.png", Vec::new()).unwrap_err(), DecodeError::Malformed);
}

#[test]
fn format_from_extension() {
    assert_eq!(get_format_from_extension("a/b.png"), Some(ImageFormat::Png));
    assert_eq!(get_format_from_extension("a/b.PNG"), None);
    assert_eq!(get_format_from_extension("a/b.hdr"), None);
    assert_eq!(get_format_from_extension("png"), None);
}

#[test]
fn texture_formats() {
    assert_eq!(convert_format(ImageFormat::Png), TextureFormat::Rgba8Unorm);
    assert_eq!(convert_format(ImageFormat::Hdr), TextureFormat::Rgba32Float);
}

#[test]
fn row_stride() {
    assert_eq!(async_filemanager::imagedata::bytes_per_row(24, 2), 12);
    assert_eq!(async_filemanager::imagedata::bytes_per_row(25, 2), 12);
    assert_eq!(async_filemanager::imagedata::bytes_per_row(usize::MAX, 1), u32::MAX);
}
