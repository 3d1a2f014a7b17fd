//! Tests of decoding, the bitmap type, size math and the geometric
//! transforms.

use editor_studio::bitmap::{ExportConfig, Image};
use editor_studio::decode::{ImageDecoder, ImageFormat};
use editor_studio::size::ImageSize;
use editor_studio::transform::{ImageTransform, ResizeOptions};

/// A valid 58-byte BMP file holding one 24-bit pixel with RGB (3, 2, 1).
fn single_pixel_bmp() -> Vec<u8> {
    let mut bytes: Vec<u8> = Vec::new();
    // file header: magic, file size 58, reserved, pixel-data offset 54
    bytes.extend_from_slice(&[0x42, 0x4d]);
    bytes.extend_from_slice(&58u32.to_le_bytes());
    bytes.extend_from_slice(&[0, 0, 0, 0]);
    bytes.extend_from_slice(&54u32.to_le_bytes());
    // info header: size 40, width 1, height 1, planes 1, 24 bpp, no
    // compression, 4 data bytes, resolution and palette fields zero
    bytes.extend_from_slice(&40u32.to_le_bytes());
    bytes.extend_from_slice(&1i32.to_le_bytes());
    bytes.extend_from_slice(&1i32.to_le_bytes());
    bytes.extend_from_slice(&1u16.to_le_bytes());
    bytes.extend_from_slice(&24u16.to_le_bytes());
    bytes.extend_from_slice(&0u32.to_le_bytes());
    bytes.extend_from_slice(&4u32.to_le_bytes());
    bytes.extend_from_slice(&0u32.to_le_bytes());
    bytes.extend_from_slice(&0u32.to_le_bytes());
    bytes.extend_from_slice(&0u32.to_le_bytes());
    bytes.extend_from_slice(&0u32.to_le_bytes());
    // one BGR pixel plus the row pad byte
    bytes.extend_from_slice(&[0x01, 0x02, 0x03, 0x00]);
    assert_eq!(bytes.len(), 58);
    bytes
}

/// A 2 by 2 RGBA test image whose byte at index `i` is `i`.
fn counting_image() -> Image {
    Image {
        data: (0u8..16u8).collect(),
        width: 2,
        height: 2,
        format: ImageFormat::Rgba8,
    }
}

#[test]
fn decode_single_pixel_bmp() {
    let img = Image::from_bytes(&single_pixel_bmp()).expect("valid BMP must decode");
    assert_eq!(img.width, 1);
    assert_eq!(img.height, 1);
    assert_eq!(img.data, vec![3, 2, 1, 255]);
    assert_eq!(img.format, ImageFormat::Rgba8);
    assert_eq!(img.pixel_count(), 1);
    assert_eq!(img.data_size(), 4);
    let size = img.size();
    assert_eq!(size.width, 1);
    assert_eq!(size.height, 1);
}

#[test]
fn decode_rejects_garbage() {
    assert!(Image::from_bytes(&[0, 1, 2, 3]).is_err());
    assert!(ImageDecoder::decode(&[]).is_err());
}

#[test]
fn decoder_reports_rgba8() {
    assert_eq!(ImageDecoder::detect_format(&[1, 2, 3]), ImageFormat::Rgba8);
}

#[test]
fn format_mime_types() {
    assert_eq!(ImageFormat::Jpeg.mime_type(), "image/jpeg");
    assert_eq!(ImageFormat::Png.mime_type(), "image/png");
    assert_eq!(ImageFormat::WebP.mime_type(), "image/webp");
    assert_eq!(ImageFormat::Rgba8.mime_type(), "image/rgba");
}

#[test]
fn format_extensions() {
    assert_eq!(ImageFormat::Jpeg.extension(), "jpg");
    assert_eq!(ImageFormat::Png.extension(), "png");
    assert_eq!(ImageFormat::WebP.extension(), "webp");
    assert_eq!(ImageFormat::Rgba8.extension(), "rgba");
}

#[test]
fn export_config_clamps_quality() {
    let d = ExportConfig::default();
    assert_eq!(d.format, ImageFormat::Jpeg);
    assert_eq!(d.quality, 90);
    assert_eq!(ExportConfig::jpeg(200).quality, 100);
    assert_eq!(ExportConfig::jpeg(50).quality, 50);
    let p = ExportConfig::png();
    assert_eq!(p.format, ImageFormat::Png);
    assert_eq!(p.quality, 100);
    let w = ExportConfig::webp(101);
    assert_eq!(w.format, ImageFormat::WebP);
    assert_eq!(w.quality, 100);
}

#[test]
fn blank_image_is_zeroed() {
    let img = Image::new(2, 2, ImageFormat::Png);
    assert_eq!(img.width, 2);
    assert_eq!(img.height, 2);
    assert_eq!(img.format, ImageFormat::Png);
    assert_eq!(img.data, vec![0; 16]);
}

#[test]
fn fit_in_exact_values() {
    let fitted = ImageSize::new(200, 100).fit_in(&ImageSize::new(100, 100));
    assert_eq!(fitted.width, 100);
    assert_eq!(fitted.height, 50);
    let tall = ImageSize::new(100, 400).fit_in(&ImageSize::new(50, 50));
    assert_eq!(tall.width, 12);
    assert_eq!(tall.height, 50);
}

#[test]
fn cover_exact_values() {
    let covered = ImageSize::new(200, 100).cover(&ImageSize::new(100, 100));
    assert_eq!(covered.width, 200);
    assert_eq!(covered.height, 100);
    let wide = ImageSize::new(400, 100).cover(&ImageSize::new(100, 100));
    assert_eq!(wide.width, 400);
    assert_eq!(wide.height, 100);
}

#[test]
fn crop_takes_the_named_pixel() {
    let img = counting_image();
    let out = ImageTransform::crop(&img, 1, 0, 1, 1);
    assert_eq!(out.width, 1);
    assert_eq!(out.height, 1);
    assert_eq!(out.data, vec![4, 5, 6, 7]);
    let bottom = ImageTransform::crop(&img, 0, 1, 2, 1);
    assert_eq!(bottom.data, vec![8, 9, 10, 11, 12, 13, 14, 15]);
}

#[test]
fn resize_exact_size_samples_nearest() {
    let img = counting_image();
    let shrunk = ImageTransform::resize(&img, ResizeOptions::ExactSize { width: 1, height: 1 });
    assert_eq!(shrunk.width, 1);
    assert_eq!(shrunk.height, 1);
    assert_eq!(shrunk.data, vec![0, 1, 2, 3]);
    let grown = ImageTransform::resize(&img, ResizeOptions::ExactSize { width: 4, height: 2 });
    assert_eq!(grown.width, 4);
    assert_eq!(grown.height, 2);
    // each source column is sampled twice per row
    assert_eq!(
        grown.data,
        vec![
            0, 1, 2, 3, 0, 1, 2, 3, 4, 5, 6, 7, 4, 5, 6, 7, 8, 9, 10, 11, 8, 9, 10, 11, 12, 13,
            14, 15, 12, 13, 14, 15
        ]
    );
}

#[test]
fn resize_fit_in_uses_size_math() {
    let img = Image {
        data: vec![7; 200 * 100 * 4],
        width: 200,
        height: 100,
        format: ImageFormat::Rgba8,
    };
    let out = ImageTransform::resize(
        &img,
        ResizeOptions::FitIn { max_width: 100, max_height: 100 },
    );
    assert_eq!(out.width, 100);
    assert_eq!(out.height, 50);
    let covered = ImageTransform::resize(&img, ResizeOptions::Cover { width: 50, height: 50 });
    assert_eq!(covered.width, 100);
    assert_eq!(covered.height, 50);
}

#[test]
fn flip_mirrors_pixels() {
    let img = counting_image();
    let h = ImageTransform::flip(&img, true, false);
    assert_eq!(h.data, vec![4, 5, 6, 7, 0, 1, 2, 3, 12, 13, 14, 15, 8, 9, 10, 11]);
    let v = ImageTransform::flip(&img, false, true);
    assert_eq!(v.data, vec![8, 9, 10, 11, 12, 13, 14, 15, 0, 1, 2, 3, 4, 5, 6, 7]);
    let both = ImageTransform::flip(&img, true, true);
    assert_eq!(both.data, vec![12, 13, 14, 15, 8, 9, 10, 11, 4, 5, 6, 7, 0, 1, 2, 3]);
    let none = ImageTransform::flip(&img, false, false);
    assert_eq!(none.data, img.data);
}
