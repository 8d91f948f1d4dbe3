use iconic::color::Rgb8;
use iconic::properties::MaskType;
use iconic::raster::{
    apply_mask_to_top_image, auto_generate_mask, automatic_masks, generate_image, serve_mask,
    decode_image, thumbnail, to_monochrome, EncodedFormat, Filter, RgbaImage,
};

fn image(width: u32, height: u32, pixels: Vec<u8>) -> RgbaImage {
    assert_eq!(pixels.len(), (4 * width * height) as usize);
    RgbaImage { width, height, pixels }
}

#[test]
fn mask_takes_alpha_as_grey() {
    let src = image(2, 1, vec![10, 20, 30, 40, 1, 2, 3, 0]);
    let mask = auto_generate_mask(&src);
    assert_eq!((mask.width, mask.height), (2, 1));
    assert_eq!(mask.pixels, vec![40, 40, 40, 255, 0, 0, 0, 255]);
}

#[test]
fn monochrome_colours_bright_pixels() {
    let src = image(3, 1, vec![200, 200, 200, 255, 10, 10, 10, 128, 250, 250, 250, 0]);
    let lum = vec![200, 10, 250];
    let color = Rgb8 { r: 1, g: 2, b: 3 };
    let plain = to_monochrome(&src, &lum, 128, color, false);
    assert_eq!(plain.pixels, vec![1, 2, 3, 255, 0, 0, 0, 0, 0, 0, 0, 0]);
    let inverted = to_monochrome(&src, &lum, 128, color, true);
    assert_eq!(inverted.pixels, vec![0, 0, 0, 0, 1, 2, 3, 128, 1, 2, 3, 0]);
}

#[test]
fn monochrome_threshold_is_inclusive() {
    let src = image(1, 1, vec![0, 0, 0, 7]);
    let color = Rgb8 { r: 9, g: 9, b: 9 };
    assert_eq!(to_monochrome(&src, &vec![128], 128, color, false).pixels, vec![9, 9, 9, 7]);
    assert_eq!(to_monochrome(&src, &vec![127], 128, color, false).pixels, vec![0, 0, 0, 0]);
}

#[test]
fn inverted_monochrome_splits_alpha() {
    let src = image(2, 1, vec![5, 5, 5, 90, 6, 6, 6, 30]);
    let lum = vec![0, 255];
    let color = Rgb8 { r: 4, g: 4, b: 4 };
    let a = to_monochrome(&src, &lum, 100, color, false);
    let b = to_monochrome(&src, &lum, 100, color, true);
    for p in 0..2 {
        assert_eq!(a.pixels[4 * p + 3] as u32 + b.pixels[4 * p + 3] as u32, src.pixels[4 * p + 3] as u32);
    }
}

#[test]
fn mask_lowers_alpha_by_position() {
    let top = image(2, 1, vec![9, 9, 9, 200, 9, 9, 9, 50]);
    let mask = image(2, 2, vec![0; 16]);
    let lum = vec![100, 255, 0, 0];
    let out = apply_mask_to_top_image(&top, &mask, &lum);
    assert_eq!(out.pixels, vec![9, 9, 9, 100, 9, 9, 9, 50]);
    let again = apply_mask_to_top_image(&out, &mask, &lum);
    assert_eq!(again.pixels, out.pixels);
}

#[test]
fn mask_uses_the_mask_row_width() {
    let top = image(1, 2, vec![1, 1, 1, 255, 2, 2, 2, 255]);
    let mask = image(3, 2, vec![0; 24]);
    let lum = vec![10, 20, 30, 40, 50, 60];
    let out = apply_mask_to_top_image(&top, &mask, &lum);
    assert_eq!(out.pixels, vec![1, 1, 1, 10, 2, 2, 2, 40]);
}

#[test]
fn thumbnail_keeps_aspect_ratio() {
    let src = image(4, 2, vec![7; 32]);
    let t = thumbnail(&src, 2);
    assert_eq!((t.width, t.height), (2, 1));
    assert_eq!(t.pixels.len(), 8);
    let same = thumbnail(&image(2, 2, vec![3; 16]), 2);
    assert_eq!(same.pixels, vec![3; 16]);
}

#[test]
fn automatic_masks_make_a_thumbnail() {
    let src = image(4, 4, vec![0, 0, 0, 255].repeat(16));
    let (mask, small) = automatic_masks(&src, 2);
    assert_eq!(mask.pixels, vec![255; 64]);
    assert_eq!((small.width, small.height), (2, 2));
    assert_eq!(small.pixels, vec![255; 16]);
}

#[test]
fn generate_image_centres_the_top_image() {
    let base = image(4, 4, vec![0; 64]);
    let top = image(2, 2, vec![255, 0, 0, 255].repeat(4));
    let out = generate_image(base, &top, (2, 2), (50, 50), Filter::Nearest);
    assert_eq!((out.width, out.height), (4, 4));
    for y in 0..4usize {
        for x in 0..4usize {
            let px = &out.pixels[4 * (4 * y + x)..4 * (4 * y + x) + 4];
            if (1..3).contains(&x) && (1..3).contains(&y) {
                assert_eq!(px, &[255, 0, 0, 255]);
            } else {
                assert_eq!(px, &[0, 0, 0, 0]);
            }
        }
    }
}

#[test]
fn generate_image_rounds_towards_zero_and_clips() {
    let base = image(4, 4, vec![0; 64]);
    let top = image(2, 2, vec![0, 255, 0, 255].repeat(4));
    // x = trunc(4 * -30 / 100) - 1 = -2, y = trunc(4 * 0 / 100) - 1 = -1: nothing lands.
    let out = generate_image(base, &top, (2, 2), (-30, 0), Filter::Gaussian);
    assert_eq!(out.pixels, vec![0; 64]);
    let base = image(4, 4, vec![0; 64]);
    // x = trunc(4 * -10 / 100) - 1 = -1, y = trunc(4 * 25 / 100) - 1 = 0: one column lands.
    let out = generate_image(base, &top, (2, 2), (-10, 25), Filter::Gaussian);
    assert_eq!(&out.pixels[0..4], &[0, 255, 0, 255]);
    assert_eq!(&out.pixels[16..20], &[0, 255, 0, 255]);
    assert_eq!(&out.pixels[4..8], &[0, 0, 0, 0]);
}

#[test]
fn served_mask_follows_the_setting() {
    let mask = image(2, 2, vec![1; 16]);
    let custom_same = image(2, 2, vec![2; 16]);
    let custom_big = image(4, 4, vec![3; 64]);
    assert!(serve_mask(None, &MaskType::Automatic, None).is_none());
    assert_eq!(serve_mask(Some(image(2, 2, vec![1; 16])), &MaskType::Automatic, None).unwrap().pixels, mask.pixels);
    assert!(serve_mask(Some(image(2, 2, vec![1; 16])), &MaskType::Disabled, None).is_none());
    let custom = MaskType::Custom("m".to_string());
    assert!(serve_mask(Some(image(2, 2, vec![1; 16])), &custom, None).is_none());
    let same = serve_mask(Some(image(2, 2, vec![1; 16])), &custom, Some(custom_same)).unwrap();
    assert_eq!((same.width, same.height), (2, 2));
    assert_eq!(same.pixels, vec![2; 16]);
    let served = serve_mask(Some(image(2, 2, vec![1; 16])), &custom, Some(custom_big)).unwrap();
    assert_eq!((served.width, served.height), (2, 2));
    assert_eq!(served.pixels, vec![3; 16]);
}

fn encoded(width: u32, height: u32, pixels: Vec<u8>, format: image::ImageFormat) -> Vec<u8> {
    let buffer = image::RgbaImage::from_raw(width, height, pixels).unwrap();
    let mut bytes = std::io::Cursor::new(Vec::new());
    image::DynamicImage::ImageRgba8(buffer).write_to(&mut bytes, format).unwrap();
    bytes.into_inner()
}

#[test]
fn decode_image_reads_png_and_tiff() {
    let pixels = vec![10, 20, 30, 255, 40, 50, 60, 128];
    let png = encoded(2, 1, pixels.clone(), image::ImageFormat::Png);
    let out = decode_image(&png, EncodedFormat::Png).unwrap();
    assert_eq!((out.width, out.height), (2, 1));
    assert_eq!(out.pixels, pixels);
    let tiff = encoded(2, 1, pixels.clone(), image::ImageFormat::Tiff);
    let out = decode_image(&tiff, EncodedFormat::Tiff).unwrap();
    assert_eq!(out.pixels, pixels);
}

#[test]
fn decode_image_refuses_other_bytes() {
    assert!(decode_image(b"not an image", EncodedFormat::Png).is_none());
    let png = encoded(1, 1, vec![1, 2, 3, 4], image::ImageFormat::Png);
    assert!(decode_image(&png, EncodedFormat::Tiff).is_none());
}

#[test]
fn raising_the_threshold_only_clears_pixels() {
    let src = image(3, 1, vec![200, 200, 200, 255, 100, 100, 100, 255, 50, 50, 50, 0]);
    let lum = vec![200, 100, 50];
    let color = Rgb8 { r: 1, g: 2, b: 3 };
    let low = to_monochrome(&src, &lum, 0, color, false);
    let high = to_monochrome(&src, &lum, 150, color, false);
    assert_eq!(low.pixels, vec![1, 2, 3, 255, 1, 2, 3, 255, 0, 0, 0, 0]);
    assert_eq!(high.pixels, vec![1, 2, 3, 255, 0, 0, 0, 0, 0, 0, 0, 0]);
}

#[test]
fn masking_twice_changes_nothing() {
    let top = image(2, 1, vec![9, 8, 7, 200, 6, 5, 4, 50]);
    let mask = image(2, 1, vec![100, 100, 100, 255, 255, 255, 255, 255]);
    let lum = vec![100, 255];
    let once = apply_mask_to_top_image(&top, &mask, &lum);
    assert_eq!(once.pixels, vec![9, 8, 7, 100, 6, 5, 4, 50]);
    let twice = apply_mask_to_top_image(&once, &mask, &lum);
    assert_eq!(twice.pixels, once.pixels);
}
