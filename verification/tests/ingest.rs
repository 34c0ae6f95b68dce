use image::{DynamicImage, GenericImageView, ImageFormat, Rgb, RgbImage};
use quad_image::animation::handle_gif;
use quad_image::errors::IngestError;
use quad_image::format::{DetectedFormat, Extension, StillFormat, PNG_LIMIT};
use quad_image::ingest::{classify, encode_still, guess_format, load_image, settle_encoding, store};

fn shaded(width: u32, height: u32) -> DynamicImage {
    DynamicImage::ImageRgb8(RgbImage::from_fn(width, height, |x, y| {
        Rgb([(x * 255 / width) as u8, (y * 255 / height) as u8, 128])
    }))
}

/// Pixels that no compressor makes smaller.
fn noise(width: u32, height: u32) -> DynamicImage {
    let mut state: u64 = 0x2545_f491_4f6c_dd1d;
    let mut next = move || {
        state ^= state << 13;
        state ^= state >> 7;
        state ^= state << 17;
        (state >> 24) as u8
    };
    DynamicImage::ImageRgb8(RgbImage::from_fn(width, height, |_, _| Rgb([next(), next(), next()])))
}

fn encoded(image: &DynamicImage, format: ImageFormat) -> Vec<u8> {
    let mut out = std::io::Cursor::new(Vec::new());
    image.write_to(&mut out, format).unwrap();
    out.into_inner()
}

fn animation(frames: u16) -> Vec<u8> {
    let palette = [0u8, 0, 0, 255, 0, 0, 0, 255, 0, 0, 0, 255];
    let mut out = Vec::new();
    {
        let mut encoder = gif::Encoder::new(&mut out, 6, 4, &palette).unwrap();
        encoder.set_repeat(gif::Repeat::Finite(3)).unwrap();
        for n in 0..frames {
            let mut frame = gif::Frame::default();
            frame.width = 6;
            frame.height = 4;
            frame.delay = 10 + n;
            frame.buffer = std::borrow::Cow::Owned(vec![(n % 4) as u8; 24]);
            encoder.write_frame(&frame).unwrap();
        }
    }
    out
}

#[test]
fn write_an_image() {
    let png = store(&encoded(&shaded(40, 30), ImageFormat::Png)).unwrap();
    let gif = store(&animation(3)).unwrap();

    let mut now_extensions = vec![png.ext.as_str().to_string(), gif.ext.as_str().to_string()];

    now_extensions.sort();

    assert_eq!(&["gif", "png"], now_extensions.as_slice(), "created one of each");
}

#[test]
fn every_still_format_is_stored_by_the_policy() {
    let picture = shaded(40, 30);
    for (format, ext) in [
        (ImageFormat::Png, Extension::Png),
        (ImageFormat::Pnm, Extension::Png),
        (ImageFormat::Tiff, Extension::Png),
        (ImageFormat::Bmp, Extension::Png),
        (ImageFormat::Ico, Extension::Png),
        (ImageFormat::Jpeg, Extension::Jpg),
        (ImageFormat::WebP, Extension::Jpg),
    ] {
        // an icon holds a PNG, and that has to be RGBA
        let upload = if format == ImageFormat::Ico {
            encoded(&DynamicImage::ImageRgba8(picture.to_rgba8()), format)
        } else {
            encoded(&picture, format)
        };
        let reference = image::load_from_memory(&upload).unwrap();
        let out = store(&upload).unwrap();
        assert_eq!(ext, out.ext, "{:?}", format);
        let expected = if ext == Extension::Png { ImageFormat::Png } else { ImageFormat::Jpeg };
        assert_eq!(expected, image::guess_format(&out.bytes).unwrap(), "{:?}", format);
        let decoded = image::load_from_memory(&out.bytes).unwrap();
        assert_eq!(reference.dimensions(), decoded.dimensions(), "{:?}", format);
        assert_eq!((40, 30), decoded.dimensions(), "{:?}", format);
    }
}

#[test]
fn a_radiance_picture_is_stored_as_png() {
    let bright = DynamicImage::ImageRgb32F(image::Rgb32FImage::from_fn(12, 8, |x, y| {
        Rgb([x as f32 / 12.0, y as f32 / 8.0, 0.5])
    }));
    let upload = encoded(&bright, ImageFormat::Hdr);
    assert_eq!(Ok(DetectedFormat::Hdr), guess_format(&upload));
    let loaded = load_image(&upload, DetectedFormat::Hdr).unwrap();
    assert_eq!(image::ColorType::Rgb32F, loaded.color());
    let out = store(&upload).unwrap();
    assert_eq!(Extension::Png, out.ext);
    let decoded = image::load_from_memory(&out.bytes).unwrap();
    assert_eq!((12, 8), decoded.dimensions());
    assert_eq!(image::ColorType::Rgb8, decoded.color());
}

#[test]
fn floating_point_samples_are_narrowed_for_png_only() {
    let bright = DynamicImage::ImageRgba32F(image::Rgba32FImage::from_pixel(
        5,
        3,
        image::Rgba([1.0, 0.5, 0.0, 1.0]),
    ));
    let png = encode_still(&bright, StillFormat::Png).unwrap();
    assert_eq!(Extension::Png, png.ext);
    let decoded = image::load_from_memory(&png.bytes).unwrap();
    assert_eq!(image::ColorType::Rgba8, decoded.color());
    assert_eq!(image::Rgba([255, 128, 0, 255]), decoded.get_pixel(2, 1));

    let deep = DynamicImage::ImageRgb16(image::ImageBuffer::from_pixel(
        5,
        3,
        image::Rgb([65535u16, 256, 0]),
    ));
    let png = encode_still(&deep, StillFormat::Png).unwrap();
    assert_eq!(image::ColorType::Rgb16, image::load_from_memory(&png.bytes).unwrap().color());
}

#[test]
fn a_lossless_png_keeps_its_pixels() {
    let picture = shaded(40, 30);
    let out = store(&encoded(&picture, ImageFormat::Png)).unwrap();
    assert_eq!(picture.as_bytes(), image::load_from_memory(&out.bytes).unwrap().as_bytes());
}

#[test]
fn storing_what_was_stored_keeps_the_format() {
    let picture = shaded(40, 30);
    for format in [ImageFormat::Png, ImageFormat::Bmp, ImageFormat::Jpeg, ImageFormat::WebP] {
        let once = store(&encoded(&picture, format)).unwrap();
        let twice = store(&once.bytes).unwrap();
        assert_eq!(once.ext, twice.ext, "{:?}", format);
    }
    let once = store(&animation(2)).unwrap();
    assert_eq!(Extension::Gif, store(&once.bytes).unwrap().ext);
}

#[test]
fn an_oversized_png_is_stored_as_jpeg() {
    let picture = noise(640, 600);
    let upload = encoded(&picture, ImageFormat::Png);
    assert!(upload.len() > PNG_LIMIT);
    let out = store(&upload).unwrap();
    assert_eq!(Extension::Jpg, out.ext);
    assert_eq!(ImageFormat::Jpeg, image::guess_format(&out.bytes).unwrap());
    assert_eq!((640, 600), image::load_from_memory(&out.bytes).unwrap().dimensions());

    let again = store(&out.bytes).unwrap();
    assert_eq!(Extension::Jpg, again.ext);
}

#[test]
fn a_png_below_the_limit_stays_a_png() {
    let picture = noise(300, 300);
    let out = store(&encoded(&picture, ImageFormat::Bmp)).unwrap();
    assert_eq!(Extension::Png, out.ext);
    assert!(out.bytes.len() <= PNG_LIMIT);
    assert!(out.bytes.len() > 200_000);
}

#[test]
fn the_size_guard_counts_bytes() {
    let picture = shaded(8, 8);
    let at_limit = settle_encoding(&picture, StillFormat::Png, vec![7; PNG_LIMIT]).unwrap();
    assert_eq!(Extension::Png, at_limit.ext);
    assert_eq!(vec![7; PNG_LIMIT], at_limit.bytes);

    let above = settle_encoding(&picture, StillFormat::Png, vec![7; PNG_LIMIT + 1]).unwrap();
    assert_eq!(Extension::Jpg, above.ext);
    assert_eq!(encoded(&picture, ImageFormat::Jpeg), above.bytes);

    let jpeg = settle_encoding(&picture, StillFormat::Jpeg, vec![7; PNG_LIMIT + 1]).unwrap();
    assert_eq!(Extension::Jpg, jpeg.ext);
    assert_eq!(vec![7; PNG_LIMIT + 1], jpeg.bytes);

    assert_eq!(StillFormat::Png, StillFormat::Png.settle(1_048_576));
    assert_eq!(StillFormat::Jpeg, StillFormat::Png.settle(1_048_577));
    assert_eq!(StillFormat::Png, StillFormat::Png.settle(0));
    assert_eq!(StillFormat::Jpeg, StillFormat::Jpeg.settle(0));
}

#[test]
fn a_still_is_encoded_to_its_target() {
    let picture = shaded(20, 10);
    let png = encode_still(&picture, StillFormat::Png).unwrap();
    assert_eq!(Extension::Png, png.ext);
    assert_eq!(encoded(&picture, ImageFormat::Png), png.bytes);
    let jpeg = encode_still(&picture, StillFormat::Jpeg).unwrap();
    assert_eq!(Extension::Jpg, jpeg.ext);
    assert_eq!(encoded(&picture, ImageFormat::Jpeg), jpeg.bytes);
}

#[test]
fn a_picture_the_encoder_refuses_is_an_encode_failure() {
    // a JPEG is at most 65535 pixels wide
    let wide = DynamicImage::new_rgb8(70_000, 1);
    assert_eq!(Err(IngestError::Encode), encode_still(&wide, StillFormat::Jpeg).map(|out| out.ext));
    assert_eq!(Extension::Png, encode_still(&wide, StillFormat::Png).unwrap().ext);
    // the size guard falls back to the same encoder, once
    assert_eq!(
        Err(IngestError::Encode),
        settle_encoding(&wide, StillFormat::Png, vec![0; PNG_LIMIT + 1]).map(|out| out.ext)
    );
}

#[test]
fn the_policy_table() {
    type F = DetectedFormat;
    for format in [F::Png, F::Pnm, F::Tiff, F::Bmp, F::Ico, F::Hdr, F::Tga] {
        assert_eq!(Some(StillFormat::Png), format.target_format());
    }
    for format in [F::Jpeg, F::WebP] {
        assert_eq!(Some(StillFormat::Jpeg), format.target_format());
    }
    assert_eq!(None, F::Gif.target_format());
    for format in
        [F::Png, F::Jpeg, F::Gif, F::WebP, F::Bmp, F::Tiff, F::Ico, F::Hdr, F::Tga, F::Pnm]
    {
        assert_eq!(Some(format), DetectedFormat::from_tag(format.to_tag()));
        assert_eq!(matches!(format, F::Jpeg | F::WebP | F::Tiff), format.expects_exif());
        if let Some(target) = format.target_format() {
            assert_eq!(Some(target), target.as_detected().target_format());
        }
    }
    assert_eq!(Extension::Png, StillFormat::Png.extension());
    assert_eq!(Extension::Jpg, StillFormat::Jpeg.extension());
    assert_eq!("png", Extension::Png.as_str());
    assert_eq!("jpg", Extension::Jpg.as_str());
    assert_eq!("gif", Extension::Gif.as_str());
}

#[test]
fn formats_are_told_by_their_first_bytes() {
    let picture = shaded(16, 16);
    assert_eq!(Ok(DetectedFormat::Png), guess_format(&encoded(&picture, ImageFormat::Png)));
    assert_eq!(Ok(DetectedFormat::Jpeg), guess_format(&encoded(&picture, ImageFormat::Jpeg)));
    assert_eq!(Ok(DetectedFormat::Bmp), guess_format(&encoded(&picture, ImageFormat::Bmp)));
    assert_eq!(Ok(DetectedFormat::Tiff), guess_format(&encoded(&picture, ImageFormat::Tiff)));
    assert_eq!(Ok(DetectedFormat::Ico), guess_format(&encoded(&picture, ImageFormat::Ico)));
    assert_eq!(Ok(DetectedFormat::Pnm), guess_format(&encoded(&picture, ImageFormat::Pnm)));
    assert_eq!(Ok(DetectedFormat::WebP), guess_format(&encoded(&picture, ImageFormat::WebP)));
    assert_eq!(Ok(DetectedFormat::Gif), guess_format(&animation(1)));
    assert_eq!(Ok(DetectedFormat::Gif), guess_format(b"GIF87a"));
}

#[test]
fn a_riff_prefix_is_taken_for_webp() {
    assert_eq!(Ok(DetectedFormat::WebP), guess_format(b"RIFF"));
    assert_eq!(Ok(DetectedFormat::WebP), guess_format(b"RIFF\x24\0\0\0WAVEfmt "));
    assert!(image::guess_format(b"RIFF\x24\0\0\0WAVEfmt ").is_err());
    assert_eq!(Err(IngestError::FormatDetection), guess_format(b"RIF"));
    assert_eq!(Err(IngestError::FormatDetection), guess_format(b"riff\0\0\0\0WEBP"));
    assert_eq!(Err(IngestError::Decode), store(b"RIFF\x24\0\0\0WAVEfmt ").map(|out| out.ext));
}

#[test]
fn unknown_bytes_are_rejected() {
    assert_eq!(Err(IngestError::FormatDetection), guess_format(b""));
    assert_eq!(Err(IngestError::FormatDetection), guess_format(b"\x89PN"));
    assert_eq!(Err(IngestError::FormatDetection), guess_format(b"hello, world"));
    assert_eq!(Err(IngestError::FormatDetection), store(b"hello, world").map(|out| out.ext));
    assert_eq!(Err(IngestError::FormatDetection), store(b"").map(|out| out.ext));
    let tga = encoded(&shaded(16, 16), ImageFormat::Tga);
    assert_eq!(Err(IngestError::FormatDetection), store(&tga).map(|out| out.ext));
}

#[test]
fn formats_outside_the_supported_set_are_rejected() {
    assert_eq!(Ok(ImageFormat::Dds), image::guess_format(b"DDS \x7c\0\0\0").map_err(|_| ()));
    assert_eq!(Err(IngestError::FormatDetection), guess_format(b"DDS \x7c\0\0\0"));
    assert_eq!(Err(IngestError::FormatDetection), guess_format(b"qoif\0\0\0\x10\0\0\0\x10"));
    assert_eq!(Err(IngestError::FormatDetection), guess_format(b"farbfeld\0\0\0\x01"));
    assert_eq!(Err(IngestError::FormatDetection), classify(Some(ImageFormat::Dds)));
    assert_eq!(Err(IngestError::FormatDetection), classify(Some(ImageFormat::Avif)));
    assert_eq!(Err(IngestError::FormatDetection), classify(Some(ImageFormat::OpenExr)));
    assert_eq!(Err(IngestError::FormatDetection), classify(None));
    assert_eq!(Ok(DetectedFormat::Tga), classify(Some(ImageFormat::Tga)));
    assert_eq!(Ok(DetectedFormat::Png), classify(Some(ImageFormat::Png)));
}

#[test]
fn broken_pixel_data_is_a_decode_failure() {
    let png = encoded(&shaded(40, 30), ImageFormat::Png);
    assert_eq!(Err(IngestError::Decode), store(&png[..png.len() / 2]).map(|out| out.ext));
    assert_eq!(Err(IngestError::Decode), store(b"\xff\xd8\xff\xe0 not a jpeg").map(|out| out.ext));
    assert_eq!(Err(IngestError::Decode), store(b"GIF89a").map(|out| out.ext));
    assert!(load_image(&png[..png.len() / 2], DetectedFormat::Png).is_err());
    assert!(load_image(&png, DetectedFormat::Jpeg).is_err());
    assert_eq!((40, 30), load_image(&png, DetectedFormat::Png).unwrap().dimensions());
}

#[test]
fn an_animation_keeps_its_frames_in_order() {
    let source = animation(5);
    let out = handle_gif(&source).unwrap();
    assert_eq!(Extension::Gif, out.ext);
    assert_ne!(source, out.bytes);

    let mut decoder = gif::Decoder::new(out.bytes.as_slice()).unwrap();
    assert_eq!((6, 4), (decoder.width(), decoder.height()));
    assert_eq!(
        Some(&[0u8, 0, 0, 255, 0, 0, 0, 255, 0, 0, 0, 255][..]),
        decoder.global_palette()
    );
    let mut n = 0;
    while let Some(frame) = decoder.read_next_frame().unwrap() {
        assert_eq!(10 + n, frame.delay);
        assert_eq!(vec![(n % 4) as u8; 24], frame.buffer.to_vec());
        n += 1;
    }
    assert_eq!(5, n);
    assert_eq!(gif::Repeat::Infinite, decoder.repeat());
}

#[test]
fn an_animation_without_a_global_palette_keeps_the_frames_own() {
    let mut source = Vec::new();
    {
        let mut encoder = gif::Encoder::new(&mut source, 2, 2, &[]).unwrap();
        for n in 0..2u8 {
            let mut frame = gif::Frame::default();
            frame.width = 2;
            frame.height = 2;
            frame.palette = Some(vec![n, n, n, 200, 100, 50]);
            frame.buffer = std::borrow::Cow::Owned(vec![0, 1, 1, 0]);
            encoder.write_frame(&frame).unwrap();
        }
    }
    let out = handle_gif(&source).unwrap();
    let mut decoder = gif::Decoder::new(out.bytes.as_slice()).unwrap();
    let mut n = 0u8;
    while let Some(frame) = decoder.read_next_frame().unwrap() {
        assert_eq!(Some(vec![n, n, n, 200, 100, 50]), frame.palette);
        assert_eq!(vec![0u8, 1, 1, 0], frame.buffer.to_vec());
        n += 1;
    }
    assert_eq!(2, n);
    assert_eq!(gif::Repeat::Infinite, decoder.repeat());
}

#[test]
fn a_still_gif_is_stored_as_a_gif() {
    let out = store(&animation(1)).unwrap();
    assert_eq!(Extension::Gif, out.ext);
    assert_eq!(handle_gif(&animation(1)).unwrap().bytes, out.bytes);
    assert_eq!(ImageFormat::Gif, image::guess_format(&out.bytes).unwrap());
}

#[test]
fn a_broken_animation_is_a_decode_failure() {
    let source = animation(3);
    assert_eq!(Err(IngestError::Decode), handle_gif(b"").map(|out| out.ext));
    assert_eq!(Err(IngestError::Decode), handle_gif(b"not a gif").map(|out| out.ext));
    assert_eq!(
        Err(IngestError::Decode),
        handle_gif(&source[..source.len() - 20]).map(|out| out.ext)
    );
}
