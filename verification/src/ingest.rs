//! The ingestion pipeline: sniff, decode, bring upright, re-encode.

use crate::animation::{gif_encoding, handle_gif, remuxing};
use crate::errors::IngestError;
use crate::format::{DetectedFormat, Extension, StillFormat, PNG_LIMIT};
use crate::orient::{apply_rotation, exif_reading, exif_rotation, oriented, turns};
use crate::pixels::{
    dimensions, fits_in_memory, image_color, image_grid, rgb8_copy, rgba8_copy, stores_rgba8,
    to_rgb8, to_rgba8,
};
use image::{ColorType, DynamicImage, ImageFormat};
use vstd::prelude::*;

verus! {

/// The format the codec crate's table of signatures gives for these bytes,
/// if any.
pub uninterp spec fn signature_guess(data: Seq<u8>) -> Option<ImageFormat>;

/// `image::guess_format`: looks the leading bytes up in a fixed table of
/// signatures. The result is a function of the bytes; the error says no more
/// than that no signature matched.
pub assume_specification[ image::guess_format ](buffer: &[u8]) -> (r: image::ImageResult<
    ImageFormat,
>)
    ensures
        match r {
            Ok(tag) => signature_guess(buffer@) == Some(tag),
            Err(_) => signature_guess(buffer@) is None,
        },
;

/// Whether the codec crate can decode these bytes, read as the given
/// format.
pub uninterp spec fn decodes(data: Seq<u8>, tag: ImageFormat) -> bool;

/// The image that the codec crate decodes from these bytes, read as the
/// given format.
pub uninterp spec fn decoding(data: Seq<u8>, tag: ImageFormat) -> DynamicImage;

/// Whether the codec crate can encode an image in the given format.
pub uninterp spec fn encodes(img: DynamicImage, tag: ImageFormat) -> bool;

/// The bytes that the codec crate encodes an image to, in the given format.
pub uninterp spec fn encoding(img: DynamicImage, tag: ImageFormat) -> Seq<u8>;

/// `image::load_from_memory_with_format`: decodes the bytes as the given
/// format. Whether it succeeds, and the image where it does, is a function
/// of bytes and format.
pub assume_specification[ image::load_from_memory_with_format ](
    buf: &[u8],
    format: ImageFormat,
) -> (r: image::ImageResult<DynamicImage>)
    ensures
        r is Ok <==> decodes(buf@, format),
        r matches Ok(img) ==> img == decoding(buf@, format),
;

/// `DynamicImage::write_to` into a buffer in memory: the image encoded in
/// the given format, or the codec's error. Whether it succeeds, and the
/// bytes where it does, is a function of image and format. A PNG and a JPEG
/// begin with the signature that the signature table knows them by.
#[verifier::external_body]
fn encode(img: &DynamicImage, format: ImageFormat) -> (r: Result<Vec<u8>, image::ImageError>)
    ensures
        r is Ok <==> encodes(*img, format),
        r matches Ok(bytes) ==> bytes@ == encoding(*img, format),
        r matches Ok(bytes) ==> (format == ImageFormat::Png || format == ImageFormat::Jpeg)
            ==> signature_guess(bytes@) == Some(format) && !is_riff(bytes@),
{
    let mut out = std::io::Cursor::new(Vec::new());
    img.write_to(&mut out, format).map(|_| out.into_inner())
}

/// The bytes start with `RIFF`.
pub open spec fn is_riff(data: Seq<u8>) -> bool {
    data.len() >= 4 && data[0] == 0x52 && data[1] == 0x49 && data[2] == 0x46 && data[3] == 0x46
}

/// What a guess of the signature table is taken for: a supported format, or
/// a rejection for everything else.
pub open spec fn classified(guess: Option<ImageFormat>) -> Result<DetectedFormat, IngestError> {
    match guess {
        Some(tag) => match DetectedFormat::supported(tag) {
            Some(format) => Ok(format),
            None => Err(IngestError::FormatDetection),
        },
        None => Err(IngestError::FormatDetection),
    }
}

/// The format of an upload: WebP for anything that starts with `RIFF`,
/// otherwise what the signature table says, as far as it is supported.
pub open spec fn detected(data: Seq<u8>) -> Result<DetectedFormat, IngestError> {
    if is_riff(data) {
        Ok(DetectedFormat::WebP)
    } else {
        classified(signature_guess(data))
    }
}

/// Admits or rejects a guess of the signature table.
pub fn classify(guess: Option<ImageFormat>) -> (r: Result<DetectedFormat, IngestError>)
    ensures
        r == classified(guess),
{
    match guess {
        Some(tag) => match DetectedFormat::from_tag(tag) {
            Some(format) => Ok(format),
            None => Err(IngestError::FormatDetection),
        },
        None => Err(IngestError::FormatDetection),
    }
}

/// Classifies raw bytes. A `RIFF` prefix is taken for WebP before the
/// signature table is asked, which does not recognise every WebP file.
pub fn guess_format(data: &[u8]) -> (r: Result<DetectedFormat, IngestError>)
    ensures
        r == detected(data@),
{
    if data.len() >= 4 && data[0] == 0x52 && data[1] == 0x49 && data[2] == 0x46 && data[3]
        == 0x46 {
        Ok(DetectedFormat::WebP)
    } else {
        match image::guess_format(data) {
            Ok(tag) => classify(Some(tag)),
            Err(_) => classify(None),
        }
    }
}

/// The orientation to correct for: the one recorded in the file, where the
/// format is known to carry one and it could be read.
pub open spec fn wanted_rotation(format: DetectedFormat, data: Seq<u8>) -> Option<u32> {
    if format.carries_exif() {
        match exif_reading(data).rotation() {
            Ok(v) => Some(v),
            Err(_) => None,
        }
    } else {
        None
    }
}

/// Reads the orientation to correct for. A file without readable metadata
/// simply has none.
pub fn find_rotation(format: DetectedFormat, data: &[u8]) -> (r: Option<u32>)
    ensures
        r == wanted_rotation(format, data@),
{
    if format.expects_exif() {
        match exif_rotation(data) {
            Ok(v) => Some(v),
            Err(_) => None,
        }
    } else {
        None
    }
}

/// An image that cannot be brought upright: its orientation asks for a
/// change, and it is too large for an RGBA copy to be allocated.
pub open spec fn cannot_turn(raw: DynamicImage, rotation: Option<u32>) -> bool {
    rotation matches Some(v) && turns(v) && !image_grid(raw).fits_memory()
}

/// `img` is `raw` brought upright: `raw` itself where the orientation asks
/// for nothing, and otherwise an eight-bit RGBA image of the corrected pixels.
pub open spec fn is_upright(raw: DynamicImage, rotation: Option<u32>, img: DynamicImage) -> bool {
    match rotation {
        Some(v) if turns(v) => {
            &&& image_grid(raw).fits_memory()
            &&& image_grid(img) == oriented(image_grid(raw), v)
            &&& stores_rgba8(img)
        },
        _ => img == raw,
    }
}

/// Brings a decoded image upright.
///
/// Without an orientation, or with one that asks for nothing, the image is
/// returned as it is. Otherwise it is corrected, unless it is too large for
/// an RGBA copy to be allocated, which is reported as a decode failure.
pub fn upright(loaded: DynamicImage, rotation: Option<u32>) -> (r: Result<
    DynamicImage,
    IngestError,
>)
    ensures
        match r {
            Ok(img) => is_upright(loaded, rotation, img),
            Err(e) => e == IngestError::Decode && cannot_turn(loaded, rotation),
        },
{
    let mut loaded = loaded;
    match rotation {
        Some(v) => {
            if 2 <= v && v <= 8 {
                let (width, height) = dimensions(&loaded);
                if !fits_in_memory(width, height) {
                    return Err(IngestError::Decode);
                }
            }
            apply_rotation(v, &mut loaded);
            Ok(loaded)
        },
        None => Ok(loaded),
    }
}

/// `img` is what an upload of the given format is loaded as: the decoded
/// image, brought upright by the orientation that the file records.
pub open spec fn loaded_as(data: Seq<u8>, format: DetectedFormat, img: DynamicImage) -> bool {
    is_upright(decoding(data, format.tag()), wanted_rotation(format, data), img)
}

/// An upload that can be loaded: it can be decoded, and what is decoded can
/// be brought upright.
pub open spec fn loads(data: Seq<u8>, format: DetectedFormat) -> bool {
    decodes(data, format.tag()) && !cannot_turn(
        decoding(data, format.tag()),
        wanted_rotation(format, data),
    )
}

/// Decodes an upload of a known format and brings it upright.
///
/// Metadata that is missing or cannot be read is no failure: the image is
/// then the plain decode.
pub fn load_image(data: &[u8], format: DetectedFormat) -> (r: Result<DynamicImage, IngestError>)
    ensures
        r is Ok <==> loads(data@, format),
        match r {
            Ok(img) => loaded_as(data@, format, img),
            Err(e) => e == IngestError::Decode,
        },
{
    match image::load_from_memory_with_format(data, format.to_tag()) {
        Ok(loaded) => upright(loaded, find_rotation(format, data)),
        Err(_) => Err(IngestError::Decode),
    }
}

/// Without an orientation to correct for, an upload is loaded as its plain
/// decode, and fails to load exactly where the decode fails.
pub proof fn plain_decode_without_orientation(
    data: Seq<u8>,
    format: DetectedFormat,
    img: DynamicImage,
)
    requires
        wanted_rotation(format, data) is None,
    ensures
        loads(data, format) == decodes(data, format.tag()),
        loaded_as(data, format, img) == (img == decoding(data, format.tag())),
{
}

/// An upload after normalisation: the bytes to store and the extension to
/// store them under.
#[derive(Debug)]
pub struct Normalised {
    pub ext: Extension,
    pub bytes: Vec<u8>,
    /// The size of the PNG that these bytes have replaced, where the size
    /// guard has replaced one.
    pub replaced: Option<usize>,
}

impl Normalised {
    /// No PNG above the size limit is ever stored, and what has replaced one
    /// is a JPEG.
    pub open spec fn wf(&self) -> bool {
        &&& self.ext == Extension::Png ==> self.bytes@.len() <= PNG_LIMIT
        &&& self.replaced matches Some(size) ==> size > PNG_LIMIT && self.ext == Extension::Jpg
    }

    /// What normalising an upload of format `from` may give: a GIF for a GIF,
    /// a JPEG where the policy says JPEG, and a PNG or, by the size guard, a
    /// JPEG where the policy says PNG.
    pub open spec fn follows_policy(&self, from: DetectedFormat) -> bool {
        match from.target() {
            None => self.ext == Extension::Gif,
            Some(StillFormat::Jpeg) => self.ext == Extension::Jpg,
            Some(StillFormat::Png) => self.ext == Extension::Png || self.ext == Extension::Jpg,
        }
    }
}

fn tag_of(target: StillFormat) -> (tag: ImageFormat)
    ensures
        tag == target.detected().tag(),
{
    target.as_detected().to_tag()
}

/// What the size guard makes of a first encode: the first encode itself,
/// or, for a PNG above the limit, the JPEG of the same image, where that can
/// be encoded.
pub open spec fn settled_outcome(img: DynamicImage, target: StillFormat, first: Seq<u8>) -> Result<
    (Extension, Seq<u8>),
    IngestError,
> {
    if target.settled(first.len()) == target {
        Ok((target.ext(), first))
    } else if encodes(img, ImageFormat::Jpeg) {
        Ok((Extension::Jpg, encoding(img, ImageFormat::Jpeg)))
    } else {
        Err(IngestError::Encode)
    }
}

/// The image that is handed to the encoder: for a PNG, an image with
/// floating-point samples is brought to eight bits first, with or without
/// alpha as it has it; everything else goes as it is.
pub open spec fn encodable(img: DynamicImage, target: StillFormat) -> DynamicImage {
    if target == StillFormat::Png && image_color(img) == ColorType::Rgb32F {
        rgb8_copy(img)
    } else if target == StillFormat::Png && image_color(img) == ColorType::Rgba32F {
        rgba8_copy(img)
    } else {
        img
    }
}

/// What becomes of a decoded image that is to be stored: its encoding in the
/// target format, under the size guard, or an encode failure where the
/// encoder cannot do it.
pub open spec fn still_outcome(img: DynamicImage, target: StillFormat) -> Result<
    (Extension, Seq<u8>),
    IngestError,
> {
    if encodes(encodable(img, target), target.detected().tag()) {
        settled_outcome(
            encodable(img, target),
            target,
            encoding(encodable(img, target), target.detected().tag()),
        )
    } else {
        Err(IngestError::Encode)
    }
}

/// An image whose PNG comes out above the size limit is stored as a JPEG or
/// not at all; an image that is stored as a PNG is stored as the PNG it was
/// first encoded to, which is within the limit; and what the policy sends to
/// JPEG is never stored as anything else.
pub proof fn oversized_png_is_stored_as_jpeg(img: DynamicImage)
    ensures
        encoding(encodable(img, StillFormat::Png), ImageFormat::Png).len() > PNG_LIMIT ==> (
        still_outcome(img, StillFormat::Png) matches Ok(stored) ==> stored.0 == Extension::Jpg),
        still_outcome(img, StillFormat::Png) matches Ok(stored) ==> (stored.0 == Extension::Png
            ==> stored.1 == encoding(encodable(img, StillFormat::Png), ImageFormat::Png)
            && stored.1.len() <= PNG_LIMIT),
        still_outcome(img, StillFormat::Jpeg) matches Ok(stored) ==> stored.0 == Extension::Jpg,
{
}

/// The size of the PNG that the size guard replaces, where it replaces one.
pub open spec fn replaced_by_guard(target: StillFormat, first: nat) -> Option<usize> {
    if target.settled(first) == target {
        None
    } else {
        Some(first as usize)
    }
}

impl Normalised {
    /// The extension and the bytes.
    pub open spec fn parts(&self) -> (Extension, Seq<u8>) {
        (self.ext, self.bytes@)
    }
}

/// `r` is the outcome `expected`: the same failure, or the same extension
/// and bytes.
pub open spec fn comes_to(
    r: Result<Normalised, IngestError>,
    expected: Result<(Extension, Seq<u8>), IngestError>,
) -> bool {
    match r {
        Ok(out) => expected == Ok::<(Extension, Seq<u8>), IngestError>(out.parts()),
        Err(e) => expected == Err::<(Extension, Seq<u8>), IngestError>(e),
    }
}

/// Applies the size guard to a first encode: keeps it, or replaces an
/// oversized PNG by a JPEG of the same image. The replacement is tried once;
/// if it fails, so does the whole.
pub fn settle_encoding(loaded: &DynamicImage, target: StillFormat, first: Vec<u8>) -> (r: Result<
    Normalised,
    IngestError,
>)
    ensures
        comes_to(r, settled_outcome(*loaded, target, first@)),
        target.settled(first@.len()) == target ==> r == Ok::<Normalised, IngestError>(
            Normalised { ext: target.ext(), bytes: first, replaced: None },
        ),
        r matches Ok(out) ==> out.wf() && out.replaced == replaced_by_guard(target, first@.len()),
        r matches Ok(out) ==> out.ext == Extension::Jpg && target == StillFormat::Png ==> detected(
            out.bytes@,
        ) == Ok::<DetectedFormat, IngestError>(DetectedFormat::Jpeg),
{
    let settled = target.settle(first.len());
    match (target, settled) {
        (StillFormat::Png, StillFormat::Jpeg) => match encode(loaded, tag_of(settled)) {
            Ok(second) => Ok(
                Normalised {
                    ext: settled.extension(),
                    bytes: second,
                    replaced: Some(first.len()),
                },
            ),
            Err(_) => Err(IngestError::Encode),
        },
        _ => Ok(Normalised { ext: target.extension(), bytes: first, replaced: None }),
    }
}

/// Encodes an image to a target format, under the size guard.
fn encode_sized(source: &DynamicImage, target: StillFormat) -> (r: Result<Normalised, IngestError>)
    ensures
        comes_to(
            r,
            if encodes(*source, target.detected().tag()) {
                settled_outcome(*source, target, encoding(*source, target.detected().tag()))
            } else {
                Err(IngestError::Encode)
            },
        ),
        r matches Ok(out) ==> out.wf() && detected(out.bytes@) == Ok::<
            DetectedFormat,
            IngestError,
        >(out.ext.format()) && out.replaced == replaced_by_guard(
            target,
            encoding(*source, target.detected().tag()).len(),
        ),
{
    match encode(source, tag_of(target)) {
        Ok(first) => settle_encoding(source, target, first),
        Err(_) => Err(IngestError::Encode),
    }
}

/// Re-encodes a decoded image to its target format, under the size guard.
///
/// A PNG holds integer samples only, so an image with floating-point samples
/// that is to become one is brought to eight bits first, with or without
/// alpha as it has it.
pub fn encode_still(loaded: &DynamicImage, target: StillFormat) -> (r: Result<
    Normalised,
    IngestError,
>)
    ensures
        comes_to(r, still_outcome(*loaded, target)),
        r matches Ok(out) ==> out.wf() && out.ext == target.settled(
            encoding(encodable(*loaded, target), target.detected().tag()).len(),
        ).ext(),
        r matches Ok(out) ==> detected(out.bytes@) == Ok::<DetectedFormat, IngestError>(
            out.ext.format(),
        ),
        r matches Ok(out) ==> out.replaced == replaced_by_guard(
            target,
            encoding(encodable(*loaded, target), target.detected().tag()).len(),
        ),
{
    match (target, loaded.color()) {
        (StillFormat::Png, ColorType::Rgb32F) => encode_sized(&to_rgb8(loaded), target),
        (StillFormat::Png, ColorType::Rgba32F) => encode_sized(&to_rgba8(loaded), target),
        _ => encode_sized(loaded, target),
    }
}

/// What becomes of an animated upload: the file of what re-muxing it gives.
pub open spec fn gif_outcome(data: Seq<u8>) -> Result<(Extension, Seq<u8>), IngestError> {
    match remuxing(data) {
        Ok(sink) => Ok((Extension::Gif, gif_encoding(sink))),
        Err(e) => Err(e),
    }
}

/// What normalising an upload of a known format comes to: for animated
/// content what re-muxing gives; for a still a decode failure where it
/// cannot be loaded, and otherwise what becomes of the image that it is
/// loaded as.
pub open spec fn normalised_as(
    data: Seq<u8>,
    format: DetectedFormat,
    r: Result<Normalised, IngestError>,
) -> bool {
    match format.target() {
        None => comes_to(r, gif_outcome(data)),
        Some(target) => if loads(data, format) {
            exists|img: DynamicImage| #[trigger]
                loaded_as(data, format, img) && comes_to(r, still_outcome(img, target))
        } else {
            comes_to(r, Err(IngestError::Decode))
        },
    }
}

/// Normalises an upload for storage.
///
/// The bytes are sniffed; animated content is re-muxed, everything else is
/// decoded, brought upright and re-encoded to the target its format has in
/// the policy table. What comes back is ready to be written out under a new
/// name, and is never a PNG above the size limit.
///
/// Bytes of no supported format are rejected with `FormatDetection`, and
/// nothing else is. What is stored is recognised, when it comes in again,
/// as the format of its extension, which the policy sends to the same
/// extension.
pub fn store(data: &[u8]) -> (r: Result<Normalised, IngestError>)
    ensures
        match detected(data@) {
            Ok(format) => normalised_as(data@, format, r),
            Err(e) => comes_to(r, Err(e)),
        },
        match r {
            Ok(out) => {
                &&& detected(data@) matches Ok(format) && out.follows_policy(format)
                &&& out.wf()
                &&& detected(out.bytes@) == Ok::<DetectedFormat, IngestError>(out.ext.format())
            },
            Err(e) => if detected(data@) is Err {
                e == IngestError::FormatDetection
            } else {
                e == IngestError::Decode || e == IngestError::Encode
            },
        },
{
    let format = match guess_format(data) {
        Ok(format) => format,
        Err(e) => {
            return Err(e);
        },
    };
    match format.target_format() {
        None => handle_gif(data),
        Some(target) => match load_image(data, format) {
            Ok(loaded) => {
                let r = encode_still(&loaded, target);
                assert(loaded_as(data@, format, loaded) && comes_to(
                    r,
                    still_outcome(loaded, target),
                ));
                r
            },
            Err(e) => Err(e),
        },
    }
}

/// A still that is stored gets its extension from its format and the size
/// of its first PNG alone: `jpg` where the policy says JPEG, and where it
/// says PNG, `png` for a PNG within the limit and `jpg` for one above it.
pub proof fn extension_follows_format_and_size(img: DynamicImage, target: StillFormat)
    ensures
        still_outcome(img, target) matches Ok(stored) ==> stored.0 == target.settled(
            encoding(encodable(img, target), target.detected().tag()).len(),
        ).ext(),
{
}

} // verus!
