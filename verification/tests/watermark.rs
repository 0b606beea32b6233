use image::{DynamicImage, GenericImageView, ImageBuffer, Rgba};
use parlab::watermark::{
    apply_watermark, decode_frame, grayscale_frame, process_frame, process_frame_file,
};

fn blue(width: u32, height: u32) -> DynamicImage {
    DynamicImage::ImageRgba8(ImageBuffer::from_pixel(width, height, Rgba([0, 0, 255, 255])))
}

#[test]
fn paints_the_top_left_square_red() {
    let out = apply_watermark(blue(30, 25));
    assert_eq!(out.dimensions(), (30, 25));
    for y in 0..25 {
        for x in 0..30 {
            let expected = if x < 20 && y < 20 { [255, 0, 0, 255] } else { [0, 0, 255, 255] };
            assert_eq!(out.get_pixel(x, y).0, expected, "at ({x}, {y})");
        }
    }
}

#[test]
fn small_images_are_painted_whole() {
    let out = apply_watermark(blue(5, 3));
    assert_eq!(out.dimensions(), (5, 3));
    for y in 0..3 {
        for x in 0..5 {
            assert_eq!(out.get_pixel(x, y).0, [255, 0, 0, 255]);
        }
    }
}

#[test]
fn grayscale_images_keep_their_colour_type() {
    let gray = blue(25, 25).grayscale();
    let before = gray.get_pixel(22, 22);
    let out = apply_watermark(gray);
    assert_eq!(out.color(), image::ColorType::La8);
    assert_eq!(out.get_pixel(22, 22), before);
    assert_eq!(out.get_pixel(0, 0), out.get_pixel(19, 19));
    assert_ne!(out.get_pixel(0, 0), before);
}

#[test]
fn empty_image_is_unchanged() {
    let out = apply_watermark(blue(0, 0));
    assert_eq!(out.dimensions(), (0, 0));
}

fn png_bytes(img: &DynamicImage) -> Vec<u8> {
    let mut out = std::io::Cursor::new(Vec::new());
    img.write_to(&mut out, image::ImageFormat::Png).unwrap();
    out.into_inner()
}

#[test]
fn grayscale_frame_makes_every_cell_grey() {
    let src = DynamicImage::ImageRgba8(ImageBuffer::from_pixel(4, 3, Rgba([10, 200, 30, 77])));
    let grey = grayscale_frame(&src);
    assert_eq!(grey.color(), image::ColorType::La8);
    assert_eq!(grey.dimensions(), (4, 3));
    for (_, _, p) in grey.pixels() {
        assert_eq!(p.0[0], p.0[1]);
        assert_eq!(p.0[1], p.0[2]);
        assert_eq!(p.0[3], 77);
    }
    assert_ne!(grey.get_pixel(0, 0), src.get_pixel(0, 0));
}

#[test]
fn grayscale_frame_keeps_grey_images() {
    let src = DynamicImage::ImageLuma8(ImageBuffer::from_fn(5, 5, |x, y| image::Luma([(x * 40 + y) as u8])));
    let grey = grayscale_frame(&src);
    assert_eq!(grey.color(), image::ColorType::L8);
    for y in 0..5 {
        for x in 0..5 {
            assert_eq!(grey.get_pixel(x, y), src.get_pixel(x, y));
        }
    }
}

#[test]
fn grayscale_frame_colour_types() {
    let rgb = DynamicImage::ImageRgb8(ImageBuffer::from_pixel(2, 2, image::Rgb([1, 2, 3])));
    assert_eq!(grayscale_frame(&rgb).color(), image::ColorType::L8);
    let rgb16 = DynamicImage::ImageRgb16(ImageBuffer::from_pixel(2, 2, image::Rgb([1u16, 2, 3])));
    assert_eq!(grayscale_frame(&rgb16).color(), image::ColorType::L16);
    let rgba16 = DynamicImage::ImageRgba16(ImageBuffer::from_pixel(2, 2, Rgba([1u16, 2, 3, 4])));
    assert_eq!(grayscale_frame(&rgba16).color(), image::ColorType::La16);
}

#[test]
fn process_frame_greys_then_watermarks() {
    let out = process_frame(blue(30, 25));
    let grey = blue(30, 25).grayscale();
    assert_eq!(out.color(), image::ColorType::La8);
    assert_eq!(out.dimensions(), (30, 25));
    let mark = out.get_pixel(0, 0);
    assert_eq!(mark.0[0], mark.0[1]);
    assert_eq!(mark.0[1], mark.0[2]);
    for y in 0..25 {
        for x in 0..30 {
            if x < 20 && y < 20 {
                assert_eq!(out.get_pixel(x, y), mark, "at ({x}, {y})");
            } else {
                assert_eq!(out.get_pixel(x, y), grey.get_pixel(x, y), "at ({x}, {y})");
            }
        }
    }
    assert_ne!(mark, grey.get_pixel(0, 0));
}

#[test]
fn decode_frame_reads_a_png() {
    let src = DynamicImage::ImageRgba8(ImageBuffer::from_fn(7, 4, |x, y| Rgba([x as u8, y as u8, 9, 255])));
    let bytes = png_bytes(&src);
    let img = decode_frame(&bytes, "png").unwrap();
    assert_eq!(img.dimensions(), (7, 4));
    assert_eq!(img.color(), image::ColorType::Rgba8);
    for y in 0..4 {
        for x in 0..7 {
            assert_eq!(img.get_pixel(x, y), src.get_pixel(x, y));
        }
    }
    assert!(decode_frame(&bytes, "PNG").is_some());
}

#[test]
fn decode_frame_refuses_unknown_formats_and_bad_bytes() {
    let bytes = png_bytes(&blue(3, 3));
    assert!(decode_frame(&bytes, "txt").is_none());
    assert!(decode_frame(&bytes, "").is_none());
    assert!(decode_frame(b"not an image", "png").is_none());
    assert!(decode_frame(&[], "png").is_none());
}

#[test]
fn process_frame_file_decodes_greys_and_watermarks() {
    let src = blue(30, 25);
    let bytes = png_bytes(&src);
    let out = process_frame_file(&bytes, "png").unwrap();
    let expected = process_frame(blue(30, 25));
    assert_eq!(out.color(), expected.color());
    assert_eq!(out.dimensions(), (30, 25));
    for y in 0..25 {
        for x in 0..30 {
            assert_eq!(out.get_pixel(x, y), expected.get_pixel(x, y), "at ({x}, {y})");
        }
    }
    assert!(process_frame_file(&bytes, "gif").is_none());
    assert!(process_frame_file(b"\x89PNG broken", "png").is_none());
}

#[test]
fn grayscale_frame_uses_the_srgb_luma() {
    let src = DynamicImage::ImageRgba8(ImageBuffer::from_pixel(2, 2, Rgba([10, 200, 30, 77])));
    let grey = grayscale_frame(&src);
    assert_eq!(grey.get_pixel(1, 1).0, [147, 147, 147, 77]);
    let rgb = DynamicImage::ImageRgb8(ImageBuffer::from_pixel(1, 1, image::Rgb([255, 255, 255])));
    assert_eq!(grayscale_frame(&rgb).get_pixel(0, 0).0, [255, 255, 255, 255]);
}

#[test]
fn process_frame_grey_levels() {
    let out = process_frame(blue(30, 25));
    assert_eq!(out.get_pixel(0, 0).0, [54, 54, 54, 255]);
    assert_eq!(out.get_pixel(25, 22).0, [18, 18, 18, 255]);
}
