use image::{DynamicImage, GenericImageView, ImageFormat, Rgb, RgbImage, Rgba, RgbaImage};
use quad_image::format::DetectedFormat;
use quad_image::ingest::{find_rotation, guess_format, load_image, upright};
use quad_image::orient::{apply_rotation, exif_rotation, flip_diagonal, ExifError};

fn encoded(image: &DynamicImage, format: ImageFormat) -> Vec<u8> {
    let mut out = std::io::Cursor::new(Vec::new());
    image.write_to(&mut out, format).unwrap();
    out.into_inner()
}

/// Four flat quarters of different colours: survives JPEG well, and looks
/// different under every flip and turn.
fn quarters(width: u32, height: u32) -> RgbImage {
    RgbImage::from_fn(width, height, |x, y| {
        match (x < width / 2, y < height / 2) {
            (true, true) => Rgb([220, 30, 30]),
            (false, true) => Rgb([30, 200, 40]),
            (true, false) => Rgb([40, 50, 210]),
            (false, false) => Rgb([230, 220, 60]),
        }
    })
}

/// An APP1 segment with a little-endian TIFF that holds one entry: the
/// orientation tag, as a SHORT.
fn exif_segment(orientation: u16) -> Vec<u8> {
    let mut segment = vec![0xff, 0xe1, 0x00, 34];
    segment.extend_from_slice(b"Exif\0\0");
    segment.extend_from_slice(&[0x49, 0x49, 0x2a, 0x00, 8, 0, 0, 0]);
    segment.extend_from_slice(&[1, 0]);
    segment.extend_from_slice(&[0x12, 0x01, 3, 0, 1, 0, 0, 0]);
    segment.extend_from_slice(&orientation.to_le_bytes());
    segment.extend_from_slice(&[0, 0]);
    segment.extend_from_slice(&[0, 0, 0, 0]);
    segment
}

fn with_orientation(jpeg: &[u8], orientation: u16) -> Vec<u8> {
    assert_eq!(&[0xff, 0xd8], &jpeg[..2]);
    let mut out = jpeg[..2].to_vec();
    out.extend_from_slice(&exif_segment(orientation));
    out.extend_from_slice(&jpeg[2..]);
    out
}

fn transposed(image: &RgbImage) -> RgbImage {
    RgbImage::from_fn(image.height(), image.width(), |x, y| *image.get_pixel(y, x))
}

/// The bytes of a JPEG that shows `upright` once its orientation is
/// corrected.
fn stored_with(upright: &RgbImage, orientation: u16) -> Vec<u8> {
    let bits = orientation - 1;
    let mut stored = upright.clone();
    if bits & 1 != 0 {
        stored = image::imageops::flip_horizontal(&stored);
    }
    if bits & 2 != 0 {
        stored = image::imageops::rotate180(&stored);
    }
    if bits & 4 != 0 {
        stored = transposed(&stored);
    }
    with_orientation(&encoded(&DynamicImage::ImageRgb8(stored), ImageFormat::Jpeg), orientation)
}

#[test]
fn exif() {
    let rot = exif_rotation;
    let plain = DynamicImage::ImageRgb8(quarters(16, 8));
    let upright = quarters(16, 8);

    assert!(rot(&encoded(&plain, ImageFormat::Png)).is_err());
    assert!(rot(&encoded(&plain, ImageFormat::Jpeg)).is_err());
    assert_eq!(1, rot(&stored_with(&upright, 1)).unwrap());
    assert_eq!(3, rot(&stored_with(&upright, 3)).unwrap());
    assert_eq!(8, rot(&stored_with(&upright, 8)).unwrap());
}

#[test]
fn exif_failures_are_told_apart() {
    let plain = DynamicImage::ImageRgb8(quarters(16, 8));
    assert_eq!(Err(ExifError::Unreadable), exif_rotation(&[]));
    assert_eq!(Err(ExifError::Unreadable), exif_rotation(b"not an image at all"));
    assert_eq!(Err(ExifError::Unreadable), exif_rotation(&encoded(&plain, ImageFormat::Jpeg)));

    // a TIFF with one entry that is not the orientation
    let mut other = vec![0x49, 0x49, 0x2a, 0x00, 8, 0, 0, 0, 1, 0];
    other.extend_from_slice(&[0x1a, 0x01, 3, 0, 1, 0, 0, 0, 72, 0, 0, 0, 0, 0, 0, 0]);
    assert_eq!(Err(ExifError::NoSuchField), exif_rotation(&other));

    // the orientation as an ASCII text
    let mut text = vec![0x49, 0x49, 0x2a, 0x00, 8, 0, 0, 0, 1, 0];
    text.extend_from_slice(&[0x12, 0x01, 2, 0, 2, 0, 0, 0, 0x36, 0, 0, 0, 0, 0, 0, 0]);
    assert_eq!(Err(ExifError::NoUintInValue), exif_rotation(&text));

    // the orientation as a SHORT
    let mut short = vec![0x49, 0x49, 0x2a, 0x00, 8, 0, 0, 0, 1, 0];
    short.extend_from_slice(&[0x12, 0x01, 3, 0, 1, 0, 0, 0, 6, 0, 0, 0, 0, 0, 0, 0]);
    assert_eq!(Ok(6), exif_rotation(&short));
}

fn im(from: &[u8]) -> DynamicImage {
    load_image(from, guess_format(from).unwrap()).unwrap()
}

fn assert_similar(expected: &DynamicImage, actual: &DynamicImage, rot: usize) {
    assert_eq!(expected.dimensions(), actual.dimensions());

    let (w, h) = expected.dimensions();

    let mut diff = 0.;

    for x in 0..w {
        for y in 0..h {
            let e = expected.get_pixel(x, y);
            let a = actual.get_pixel(x, y);
            for c in 0..4 {
                diff += ((e.0[c] as f64) - (a.0[c] as f64)).abs() / 256. / 4.;
            }
        }
    }

    diff /= (w * h) as f64;

    if diff > 0.02 {
        panic!("too much difference in {}: {}", rot, diff);
    }
}

#[test]
fn orientate() {
    let upright = quarters(48, 32);
    let plain = im(&stored_with(&upright, 1));

    for rot in 2..=8 {
        let output = im(&stored_with(&upright, rot as u16));
        assert_similar(&plain, &output, rot);
    }
}

#[test]
fn orientations_keep_the_size_of_the_upright_image() {
    let upright = quarters(48, 32);
    let first = im(&stored_with(&upright, 1));
    assert_eq!((48, 32), first.dimensions());
    for rot in 2..=4 {
        let stored = stored_with(&upright, rot);
        assert_eq!((48, 32), image::load_from_memory(&stored).unwrap().dimensions());
        assert_eq!(first.dimensions(), im(&stored).dimensions());
    }
    for rot in 5..=8 {
        let stored = stored_with(&upright, rot);
        assert_eq!((32, 48), image::load_from_memory(&stored).unwrap().dimensions());
        assert_eq!(first.dimensions(), im(&stored).dimensions());
    }
}

#[test]
fn an_orientation_outside_the_table_is_ignored() {
    let upright = quarters(48, 32);
    let plain = im(&stored_with(&upright, 1));
    for rot in [0u16, 9, 255, 65535] {
        let mut stored = stored_with(&upright, 1);
        let at = stored.windows(2).position(|w| w == [0x12, 0x01]).unwrap();
        stored[at + 8..at + 10].copy_from_slice(&rot.to_le_bytes());
        assert_eq!(Ok(rot as u32), exif_rotation(&stored));
        let loaded = im(&stored);
        assert_eq!(plain.as_bytes(), loaded.as_bytes());
        assert_eq!(plain.color(), loaded.color());
    }
}

#[test]
fn a_png_is_not_searched_for_an_orientation() {
    let picture = DynamicImage::ImageRgb8(quarters(6, 4));
    let png = encoded(&picture, ImageFormat::Png);
    assert_eq!(None, find_rotation(DetectedFormat::Png, &png));
    let stored = stored_with(&quarters(16, 8), 6);
    assert_eq!(Some(6), find_rotation(DetectedFormat::Jpeg, &stored));
    assert_eq!(None, find_rotation(DetectedFormat::Png, &stored));
    assert_eq!(None, find_rotation(DetectedFormat::Bmp, &stored));
    let bare = encoded(&DynamicImage::ImageRgb8(quarters(16, 8)), ImageFormat::Jpeg);
    assert_eq!(None, find_rotation(DetectedFormat::Jpeg, &bare));
}

fn numbered(width: u32, height: u32) -> RgbaImage {
    RgbaImage::from_fn(width, height, |x, y| Rgba([x as u8, y as u8, (x * 7 + y) as u8, 255 - x as u8]))
}

#[test]
fn the_diagonal_flip_exchanges_columns_and_rows() {
    let source = numbered(5, 3);
    let flipped = flip_diagonal(&DynamicImage::ImageRgba8(source.clone()));
    assert_eq!((3, 5), flipped.dimensions());
    for x in 0..5 {
        for y in 0..3 {
            assert_eq!(*source.get_pixel(x, y), flipped.get_pixel(y, x));
        }
    }
    assert!(flipped.as_rgba8().is_some());
    let back = flip_diagonal(&flipped);
    assert_eq!(source.as_raw(), back.as_rgba8().unwrap().as_raw());
}

#[test]
fn the_diagonal_flip_reads_other_pixel_types_as_rgba() {
    let grey = image::GrayImage::from_fn(4, 2, |x, y| image::Luma([(x * 10 + y) as u8]));
    let flipped = flip_diagonal(&DynamicImage::ImageLuma8(grey.clone()));
    assert_eq!((2, 4), flipped.dimensions());
    for x in 0..4 {
        for y in 0..2 {
            let v = grey.get_pixel(x, y).0[0];
            assert_eq!(Rgba([v, v, v, 255]), flipped.get_pixel(y, x));
        }
    }
    let empty = flip_diagonal(&DynamicImage::new_rgb8(0, 3));
    assert_eq!((3, 0), empty.dimensions());
}

/// Where the pixel at `(x, y)` of a stored `w` by `h` image ends up.
fn corrected(rot: u32, x: u32, y: u32, w: u32, h: u32) -> (u32, u32) {
    match rot {
        2 => (w - 1 - x, y),
        3 => (w - 1 - x, h - 1 - y),
        4 => (x, h - 1 - y),
        5 => (y, x),
        6 => (h - 1 - y, x),
        7 => (h - 1 - y, w - 1 - x),
        8 => (y, w - 1 - x),
        _ => (x, y),
    }
}

#[test]
fn every_orientation_moves_each_pixel_to_its_place() {
    let source = numbered(5, 3);
    for rot in 0..=10u32 {
        let mut image = DynamicImage::ImageRgba8(source.clone());
        apply_rotation(rot, &mut image);
        let turned = (5..=8).contains(&rot);
        assert_eq!(if turned { (3, 5) } else { (5, 3) }, image.dimensions(), "{}", rot);
        for x in 0..5 {
            for y in 0..3 {
                let (nx, ny) = corrected(rot, x, y, 5, 3);
                assert_eq!(*source.get_pixel(x, y), image.get_pixel(nx, ny), "{}", rot);
            }
        }
    }
}

#[test]
fn an_upright_image_keeps_its_pixel_type() {
    let grey = DynamicImage::ImageLuma8(image::GrayImage::from_fn(4, 2, |x, y| {
        image::Luma([(x * 10 + y) as u8])
    }));
    for rotation in [None, Some(0), Some(1), Some(9)] {
        let kept = upright(grey.clone(), rotation).unwrap();
        assert_eq!(grey.color(), kept.color());
        assert_eq!(grey.as_bytes(), kept.as_bytes());
    }
    let turned = upright(grey.clone(), Some(6)).unwrap();
    assert_eq!((2, 4), turned.dimensions());
    assert_eq!(image::ColorType::Rgba8, turned.color());
}
