//! Previews: a small JPEG for every stored image, and the list of those that
//! are still missing.

use crate::errors::IngestError;
use crate::format::Extension;
use crate::ident::{all_alnum, id_text, image_id, is_image_id, ID_LEN, STEM_LEN};
use crate::ingest::{decodes, decoding, signature_guess};
use crate::pixels::{image_grid, rgb8_copy, to_rgb8};
use image::DynamicImage;
use vstd::prelude::*;
use vstd::string::StringExecFns;

verus! {

/// Width of the box a preview fits in.
pub const THUMB_WIDTH: u32 = 320;

/// Height of the box a preview fits in.
pub const THUMB_HEIGHT: u32 = 160;

/// JPEG quality of a preview.
pub const THUMB_QUALITY: u8 = 40;

/// Whether these bytes can be decoded as the format that the signature
/// table gives them.
pub open spec fn sniffed_decodes(data: Seq<u8>) -> bool {
    signature_guess(data) matches Some(tag) && decodes(data, tag)
}

/// The image that these bytes are decoded to, as the format that the
/// signature table gives them.
pub open spec fn sniffed_decoding(data: Seq<u8>) -> DynamicImage {
    decoding(data, signature_guess(data)->0)
}

/// The image as the codec crate scales it to fit within a width and a
/// height.
pub uninterp spec fn shrunk(img: DynamicImage, width: u32, height: u32) -> DynamicImage;

/// Whether the codec crate can encode an image as a JPEG of the given
/// quality.
pub uninterp spec fn jpeg_encodes(img: DynamicImage, quality: u8) -> bool;

/// The bytes that the codec crate encodes an image to as a JPEG of the given
/// quality.
pub uninterp spec fn jpeg_encoding(img: DynamicImage, quality: u8) -> Seq<u8>;

/// Decodes bytes as the format that the signature table gives them. Bytes
/// of no known signature cannot be decoded.
pub fn decode_sniffed(bytes: &[u8]) -> (r: Option<DynamicImage>)
    ensures
        r is Some <==> sniffed_decodes(bytes@),
        r matches Some(image) ==> image == sniffed_decoding(bytes@),
{
    match image::guess_format(bytes) {
        Ok(tag) => match image::load_from_memory_with_format(bytes, tag) {
            Ok(image) => Some(image),
            Err(_) => None,
        },
        Err(_) => None,
    }
}

/// `DynamicImage::thumbnail`: a copy of the image scaled, with its aspect
/// ratio kept, to fit within the given width and height, and at least one
/// pixel wide and high. The copy is a function of the image and the two
/// bounds.
#[verifier::external_body]
fn shrink(img: &DynamicImage, width: u32, height: u32) -> (out: DynamicImage)
    requires
        width >= 1,
        height >= 1,
    ensures
        out == shrunk(*img, width, height),
        1 <= image_grid(out).width <= width,
        1 <= image_grid(out).height <= height,
{
    img.thumbnail(width, height)
}

/// `DynamicImage::write_with_encoder` with a `JpegEncoder` of the given
/// quality that writes to memory: the image as a JPEG, or the codec's error.
/// Whether it succeeds, and the bytes where it does, is a function of image
/// and quality.
#[verifier::external_body]
fn encode_jpeg(img: &DynamicImage, quality: u8) -> (r: Result<Vec<u8>, image::ImageError>)
    ensures
        r is Ok <==> jpeg_encodes(*img, quality),
        r matches Ok(bytes) ==> bytes@ == jpeg_encoding(*img, quality),
{
    let mut out = Vec::new();
    let encoder = image::codecs::jpeg::JpegEncoder::new_with_quality(&mut out, quality);
    let written = img.write_with_encoder(encoder);
    written.map(|_| out)
}

/// What is appended to an image's id to name its preview.
pub open spec fn thumb_suffix() -> Seq<char> {
    seq!['.', 't', 'h', 'u', 'm', 'b', '.', 'j', 'p', 'g']
}

/// The name of an image's preview: `<id>.thumb.jpg`.
pub open spec fn thumb_name_of(image_id: Seq<char>) -> Seq<char> {
    image_id + thumb_suffix()
}

/// The name under which the preview of an image is stored.
pub fn thumb_name(image_id: &str) -> (name: String)
    ensures
        name@ == thumb_name_of(image_id@),
{
    proof {
        reveal_strlit(".thumb.jpg");
    }
    let mut name = String::from_str(image_id);
    name.append(".thumb.jpg");
    name
}

/// A preview that is ready to be written.
#[derive(Debug)]
pub struct Thumbnail {
    /// The name to store it under.
    pub name: String,
    /// Its bytes.
    pub jpeg: Vec<u8>,
}

/// A failure to make a preview, with the image it was meant for.
#[derive(Debug)]
pub struct ThumbError {
    pub image_id: String,
    pub cause: IngestError,
}

/// The image of a preview: the decoded image scaled to the box and
/// converted to eight-bit RGB.
pub open spec fn preview_of(image: DynamicImage) -> DynamicImage {
    rgb8_copy(shrunk(image, THUMB_WIDTH, THUMB_HEIGHT))
}

/// Whether the preview of a decoded image can be encoded.
pub open spec fn renders(image: DynamicImage) -> bool {
    jpeg_encodes(preview_of(image), THUMB_QUALITY)
}

/// The preview of a decoded image: its preview image as a JPEG of fixed
/// quality.
pub open spec fn rendering(image: DynamicImage) -> Seq<u8> {
    jpeg_encoding(preview_of(image), THUMB_QUALITY)
}

/// A preview image is inside the box, and not empty.
pub open spec fn in_the_box(preview: DynamicImage) -> bool {
    1 <= image_grid(preview).width <= THUMB_WIDTH && 1 <= image_grid(preview).height
        <= THUMB_HEIGHT
}

/// Scales an image to fit the preview box, keeping its aspect ratio.
pub fn shrink_to_box(image: &DynamicImage) -> (out: DynamicImage)
    ensures
        out == shrunk(*image, THUMB_WIDTH, THUMB_HEIGHT),
        in_the_box(out),
{
    shrink(image, THUMB_WIDTH, THUMB_HEIGHT)
}

/// Renders the preview of a decoded image: scaled to the box, converted to
/// eight-bit RGB, encoded as a JPEG of fixed quality.
pub fn render(image: &DynamicImage) -> (r: Result<Vec<u8>, IngestError>)
    ensures
        r is Ok <==> renders(*image),
        match r {
            Ok(jpeg) => jpeg@ == rendering(*image),
            Err(e) => e == IngestError::Encode,
        },
        in_the_box(preview_of(*image)),
{
    let preview = to_rgb8(&shrink_to_box(image));
    match encode_jpeg(&preview, THUMB_QUALITY) {
        Ok(jpeg) => Ok(jpeg),
        Err(_) => Err(IngestError::Encode),
    }
}

/// Makes the preview of a stored image from the image's bytes.
///
/// The preview is named after the image; it is made whether or not one
/// exists already. Bytes that cannot be decoded are a decode failure, a
/// preview that cannot be encoded is an encode failure, and either names
/// the image it was meant for.
pub fn thumbnail(image_id: &str, bytes: &[u8]) -> (r: Result<Thumbnail, ThumbError>)
    ensures
        r is Ok <==> sniffed_decodes(bytes@) && renders(sniffed_decoding(bytes@)),
        match r {
            Ok(thumb) => {
                &&& thumb.name@ == thumb_name_of(image_id@)
                &&& thumb.jpeg@ == rendering(sniffed_decoding(bytes@))
                &&& in_the_box(preview_of(sniffed_decoding(bytes@)))
            },
            Err(e) => {
                &&& e.image_id@ == image_id@
                &&& e.cause == if sniffed_decodes(bytes@) {
                    IngestError::Encode
                } else {
                    IngestError::Decode
                }
            },
        },
{
    let name = thumb_name(image_id);
    let image = match decode_sniffed(bytes) {
        Some(image) => image,
        None => {
            return Err(
                ThumbError { image_id: String::from_str(image_id), cause: IngestError::Decode },
            );
        },
    };
    match render(&image) {
        Ok(jpeg) => Ok(Thumbnail { name, jpeg }),
        Err(cause) => Err(ThumbError { image_id: String::from_str(image_id), cause }),
    }
}

/// The entries of a listing as plain texts.
pub open spec fn texts(entries: Seq<String>) -> Seq<Seq<char>> {
    entries.map_values(|s: String| s@)
}

/// An entry that is a stored image and has no preview in the listing.
pub open spec fn lacks_thumbnail(listing: Seq<Seq<char>>, entry: Seq<char>) -> bool {
    image_id(entry) && !listing.contains(thumb_name_of(entry))
}

/// The images of a listing that have no preview in it, in the listing's order.
pub open spec fn missing(listing: Seq<Seq<char>>) -> Seq<Seq<char>> {
    listing.filter(|entry: Seq<char>| lacks_thumbnail(listing, entry))
}

fn listed(entries: &Vec<String>, name: &String) -> (b: bool)
    ensures
        b == texts(entries@).contains(name@),
{
    let mut i: usize = 0;
    while i < entries.len()
        invariant
            i <= entries.len(),
            forall|k: int| 0 <= k < i ==> texts(entries@)[k] != name@,
        decreases entries.len() - i,
    {
        if entries[i] == *name {
            assert(texts(entries@)[i as int] == name@);
            return true;
        }
        i += 1;
    }
    false
}

/// Picks, from a listing of the storage directory, the images whose previews
/// are still to be made.
///
/// Every image is looked up in the whole listing, so the time taken grows
/// with the square of the listing's length.
pub fn generate_all_thumbs(entries: &Vec<String>) -> (needed: Vec<String>)
    ensures
        texts(needed@) == missing(texts(entries@)),
{
    let ghost listing = texts(entries@);
    let ghost wanted = |entry: Seq<char>| lacks_thumbnail(listing, entry);
    let mut needed: Vec<String> = Vec::new();
    let mut i: usize = 0;
    proof {
        reveal(Seq::filter);
    }
    while i < entries.len()
        invariant
            i <= entries.len(),
            listing == texts(entries@),
            wanted == |entry: Seq<char>| lacks_thumbnail(listing, entry),
            texts(needed@) == listing.take(i as int).filter(wanted),
        decreases entries.len() - i,
    {
        let entry = &entries[i];
        if is_image_id(entry.as_str()) && !listed(entries, &thumb_name(entry.as_str())) {
            needed.push(entry.clone());
        }
        proof {
            // the filter of one entry more is the filter so far, with or
            // without that entry
            assert(listing.take(i + 1).drop_last() =~= listing.take(i as int));
            reveal(Seq::filter);
        }
        i += 1;
    }
    proof {
        assert(listing.take(entries.len() as int) =~= listing);
    }
    needed
}

/// An id is sixteen characters long, so the name of a preview, which is ten
/// longer, is never the id of a stored image.
pub proof fn thumb_name_is_no_id(entry: Seq<char>)
    requires
        image_id(entry),
    ensures
        entry.len() == ID_LEN,
        !image_id(thumb_name_of(entry)),
{
    let (stem, ext) = choose|stem: Seq<char>, ext: Extension|
        stem.len() == STEM_LEN && all_alnum(stem) && entry == #[trigger] id_text(stem, ext);
    assert(id_text(stem, ext).len() == ID_LEN);
    let longer = thumb_name_of(entry);
    assert(longer.len() == ID_LEN + 10);
    if image_id(longer) {
        let (stem, ext) = choose|stem: Seq<char>, ext: Extension|
            stem.len() == STEM_LEN && all_alnum(stem) && longer == #[trigger] id_text(stem, ext);
        assert(id_text(stem, ext).len() == ID_LEN);
    }
}

/// Once the previews that a listing lacks have been added to it, it lacks
/// none: a second run right after a first finds nothing to do.
pub proof fn second_run_finds_nothing(listing: Seq<Seq<char>>)
    ensures
        missing(listing + missing(listing).map_values(|e: Seq<char>| thumb_name_of(e)))
            == Seq::<Seq<char>>::empty(),
{
    let made = missing(listing).map_values(|e: Seq<char>| thumb_name_of(e));
    let after = listing + made;
    let before_wanted = |entry: Seq<char>| lacks_thumbnail(listing, entry);
    let wanted = |entry: Seq<char>| lacks_thumbnail(after, entry);
    let left = after.filter(wanted);
    if left.len() > 0 {
        // an entry that still lacks its preview leads to a contradiction
        let entry = left[0];
        after.lemma_filter_pred(wanted, 0);
        after.lemma_filter_contains_rev(wanted, entry);
        let at = choose|k: int| 0 <= k < after.len() && after[k] == entry;
        if at < listing.len() {
            // it was listed before: its preview was there, or has been made
            if listing.contains(thumb_name_of(entry)) {
                let t = choose|k: int| 0 <= k < listing.len() && listing[k] == thumb_name_of(entry);
                assert(after[t] == thumb_name_of(entry));
            } else {
                listing.lemma_filter_contains(before_wanted, at);
                let m = choose|k: int|
                    0 <= k < missing(listing).len() && missing(listing)[k] == entry;
                assert(after[listing.len() + m] == thumb_name_of(entry));
            }
            assert(after.contains(thumb_name_of(entry)));
        } else {
            // it is one of the new previews, and those are no images
            let m = at - listing.len();
            listing.lemma_filter_pred(before_wanted, m);
            thumb_name_is_no_id(missing(listing)[m]);
        }
        assert(false);
    }
}

} // verus!
