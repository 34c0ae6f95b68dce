//! The animated path: frames of a GIF are read one by one and written to a
//! new GIF, in order.

use crate::errors::IngestError;
use crate::format::{DetectedFormat, Extension};
use crate::ingest::{detected, is_riff, signature_guess, Normalised};
use gif::Frame;
use gif::Repeat;
use vstd::prelude::*;

verus! {

/// A GIF decoder reading from a slice of bytes.
#[verifier::external_body]
pub struct GifReader<'a> {
    inner: gif::Decoder<&'a [u8]>,
}

/// A GIF encoder writing to a buffer in memory.
#[verifier::external_body]
pub struct GifWriter {
    inner: gif::Encoder<Vec<u8>>,
}

/// One frame of a GIF: a value that is carried from the decoder to the
/// encoder and never looked into.
#[verifier::external_type_specification]
#[verifier::external_body]
pub struct ExFrame<'a>(gif::Frame<'a>);

/// How often an animation is to be played.
#[verifier::external_type_specification]
pub struct ExRepeat(gif::Repeat);

/// What the GIF decoder reports when it fails.
#[verifier::external_type_specification]
#[verifier::external_body]
pub struct ExDecodingError(gif::DecodingError);

/// What the GIF encoder reports when it fails.
#[verifier::external_type_specification]
#[verifier::external_body]
pub struct ExEncodingError(gif::EncodingError);

/// What a decoder has to give: the logical screen, the global palette, the
/// frames still ahead, in order, up to the end of the file or the first one
/// that cannot be read, and which of the two it is that comes after them.
#[verifier::ext_equal]
pub struct GifSource {
    pub width: u16,
    pub height: u16,
    pub palette: Option<Seq<u8>>,
    pub frames: Seq<Frame<'static>>,
    pub ends_well: bool,
}

/// What an encoder has been given: the logical screen, the global palette,
/// the repeat count if one was set, and the frames so far, in order.
#[verifier::ext_equal]
pub struct GifSink {
    pub width: u16,
    pub height: u16,
    pub palette: Seq<u8>,
    pub repeat: Option<Repeat>,
    pub frames: Seq<Frame<'static>>,
}

/// The most colours a palette may have.
pub const MAX_COLOURS: usize = 256;

/// Whether a decoder can read the header of these bytes.
pub uninterp spec fn gif_readable(data: Seq<u8>) -> bool;

/// What a decoder finds in these bytes, once it has read their header.
pub uninterp spec fn gif_source(data: Seq<u8>) -> GifSource;

/// What a decoder has still to give.
pub uninterp spec fn gif_ahead(reader: GifReader) -> GifSource;

/// What an encoder has been given.
pub uninterp spec fn gif_written(writer: GifWriter) -> GifSink;

/// Whether an encoder that was given `sink` takes this frame next.
pub uninterp spec fn gif_takes(sink: GifSink, frame: Frame<'static>) -> bool;

/// The file an encoder makes of what it was given.
pub uninterp spec fn gif_encoding(sink: GifSink) -> Seq<u8>;

/// `gif::Decoder::new`: reads the header and the global palette. Whether it
/// can, and what the decoder then has to give, is a function of the bytes.
#[verifier::external_body]
fn open_gif<'a>(data: &'a [u8]) -> (r: Result<GifReader<'a>, gif::DecodingError>)
    ensures
        r is Ok <==> gif_readable(data@),
        r matches Ok(reader) ==> gif_ahead(reader) == gif_source(data@),
{
    gif::Decoder::new(data).map(|inner| GifReader { inner })
}

/// `gif::Decoder::width`: the width of the logical screen.
#[verifier::external_body]
fn screen_width(reader: &GifReader<'_>) -> (w: u16)
    ensures
        w == gif_ahead(*reader).width,
{
    reader.inner.width()
}

/// `gif::Decoder::height`: the height of the logical screen.
#[verifier::external_body]
fn screen_height(reader: &GifReader<'_>) -> (h: u16)
    ensures
        h == gif_ahead(*reader).height,
{
    reader.inner.height()
}

/// `gif::Decoder::global_palette`: a copy of the global palette, if the file
/// has one.
#[verifier::external_body]
fn global_palette(reader: &GifReader<'_>) -> (p: Option<Vec<u8>>)
    ensures
        match p {
            Some(palette) => gif_ahead(*reader).palette == Some(palette@),
            None => gif_ahead(*reader).palette is None,
        },
{
    reader.inner.global_palette().map(|p| p.to_vec())
}

/// `gif::Decoder::read_next_frame`: a copy of the next frame, which is then
/// no longer ahead. Where no frame is ahead, the answer is `None` if the
/// file ends there, and an error if it does not.
#[verifier::external_body]
fn read_next_frame(reader: &mut GifReader<'_>) -> (r: Result<
    Option<Frame<'static>>,
    gif::DecodingError,
>)
    ensures
        r matches Ok(Some(frame)) ==> {
            &&& gif_ahead(*old(reader)).frames.len() > 0
            &&& frame == gif_ahead(*old(reader)).frames[0]
            &&& gif_ahead(*final(reader)) == (GifSource {
                frames: gif_ahead(*old(reader)).frames.drop_first(),
                ..gif_ahead(*old(reader))
            })
        },
        r matches Ok(None) ==> gif_ahead(*old(reader)).frames.len() == 0 && gif_ahead(
            *old(reader),
        ).ends_well,
        r is Err ==> gif_ahead(*old(reader)).frames.len() == 0 && !gif_ahead(
            *old(reader),
        ).ends_well,
{
    reader.inner.read_next_frame().map(|frame| frame.cloned())
}

/// `gif::Encoder::new` on an empty buffer: writes the header and the global
/// palette. It fails for a palette of more than [`MAX_COLOURS`] colours, three
/// bytes each, and for nothing else.
#[verifier::external_body]
fn new_gif(width: u16, height: u16, palette: &[u8]) -> (r: Result<GifWriter, gif::EncodingError>)
    ensures
        r is Ok <==> palette@.len() / 3 <= MAX_COLOURS,
        r matches Ok(writer) ==> gif_written(writer) == (GifSink {
            width,
            height,
            palette: palette@,
            repeat: None,
            frames: Seq::empty(),
        }),
{
    gif::Encoder::new(Vec::new(), width, height, palette).map(|inner| GifWriter { inner })
}

/// `gif::Encoder::set_repeat`: writes the extension that says how often the
/// animation is played. It is stated here for an encoder that has no repeat
/// count and no frame yet. Writing to memory, it does not fail.
#[verifier::external_body]
fn set_repeat(writer: &mut GifWriter, repeat: Repeat) -> (r: Result<(), gif::EncodingError>)
    requires
        gif_written(*old(writer)).repeat is None,
        gif_written(*old(writer)).frames.len() == 0,
    ensures
        r is Ok,
        gif_written(*final(writer)) == (GifSink {
            repeat: Some(repeat),
            ..gif_written(*old(writer))
        }),
{
    writer.inner.set_repeat(repeat)
}

/// `gif::Encoder::write_frame`: appends one frame. Whether the encoder
/// takes the frame is a function of the frame and of what it was given
/// before.
#[verifier::external_body]
fn write_frame(writer: &mut GifWriter, frame: &Frame<'static>) -> (r: Result<
    (),
    gif::EncodingError,
>)
    ensures
        r is Ok <==> gif_takes(gif_written(*old(writer)), *frame),
        r is Ok ==> gif_written(*final(writer)) == (GifSink {
            frames: gif_written(*old(writer)).frames.push(*frame),
            ..gif_written(*old(writer))
        }),
{
    writer.inner.write_frame(frame)
}

/// `gif::Encoder::into_inner`: writes the trailer and hands the buffer out.
/// Writing to memory, it does not fail. The file is a function of what the
/// encoder was given, and begins with the signature that the codec crate's
/// signature table knows a GIF by.
#[verifier::external_body]
fn finish(writer: GifWriter) -> (r: Option<Vec<u8>>)
    ensures
        r is Some,
        r matches Some(bytes) ==> bytes@ == gif_encoding(gif_written(writer)),
        r matches Some(bytes) ==> signature_guess(bytes@) == Some(image::ImageFormat::Gif)
            && !is_riff(bytes@),
{
    writer.inner.into_inner().ok()
}

/// The palette written for a source: its global palette, or an empty one.
pub open spec fn palette_of(source: GifSource) -> Seq<u8> {
    match source.palette {
        Some(palette) => palette,
        None => Seq::empty(),
    }
}

/// What an encoder holds before the first frame of a source: the source's
/// screen, its palette, and a repeat count of "for ever".
pub open spec fn opened(source: GifSource) -> GifSink {
    GifSink {
        width: source.width,
        height: source.height,
        palette: palette_of(source),
        repeat: Some(Repeat::Infinite),
        frames: Seq::empty(),
    }
}

/// What is written for a source: its screen, its global palette or an empty
/// one, a repeat count of "for ever", and all of its frames in their order.
pub open spec fn remuxed(source: GifSource) -> GifSink {
    GifSink { frames: source.frames, ..opened(source) }
}

/// What comes of writing frames to an encoder one after the other: the
/// encoder's contents once all are written, an encode failure at the first
/// frame it does not take, and a decode failure where the frames do not end
/// with the end of the file.
pub open spec fn written_out(sink: GifSink, frames: Seq<Frame<'static>>, ends_well: bool) -> Result<
    GifSink,
    IngestError,
>
    decreases frames.len(),
{
    if frames.len() == 0 {
        if ends_well {
            Ok(sink)
        } else {
            Err(IngestError::Decode)
        }
    } else if gif_takes(sink, frames[0]) {
        written_out(
            GifSink { frames: sink.frames.push(frames[0]), ..sink },
            frames.drop_first(),
            ends_well,
        )
    } else {
        Err(IngestError::Encode)
    }
}

/// What re-muxing an upload comes to: a decode failure where the header
/// cannot be read, an encode failure where the global palette is too large
/// to be written, and otherwise what writing every frame in its turn gives.
pub open spec fn remuxing(data: Seq<u8>) -> Result<GifSink, IngestError> {
    if !gif_readable(data) {
        Err(IngestError::Decode)
    } else if palette_of(gif_source(data)).len() / 3 > MAX_COLOURS {
        Err(IngestError::Encode)
    } else {
        written_out(
            opened(gif_source(data)),
            gif_source(data).frames,
            gif_source(data).ends_well,
        )
    }
}

/// Frames that were all written are all there, in their order, after what
/// the encoder held before; nothing else of it has changed.
pub proof fn written_out_keeps_every_frame(
    sink: GifSink,
    frames: Seq<Frame<'static>>,
    ends_well: bool,
)
    ensures
        written_out(sink, frames, ends_well) matches Ok(after) ==> after == (GifSink {
            frames: sink.frames + frames,
            ..sink
        }) && ends_well,
    decreases frames.len(),
{
    if frames.len() == 0 {
        assert(sink.frames + frames =~= sink.frames);
    } else if gif_takes(sink, frames[0]) {
        let next = GifSink { frames: sink.frames.push(frames[0]), ..sink };
        written_out_keeps_every_frame(next, frames.drop_first(), ends_well);
        assert(next.frames + frames.drop_first() =~= sink.frames + frames);
    }
}

/// A re-muxed upload holds the source's screen, its global palette or an
/// empty one, a repeat count of "for ever", and every frame in its order.
pub proof fn remuxing_keeps_the_source(data: Seq<u8>)
    ensures
        remuxing(data) matches Ok(sink) ==> sink == remuxed(gif_source(data)),
{
    let source = gif_source(data);
    written_out_keeps_every_frame(opened(source), source.frames, source.ends_well);
    assert(opened(source).frames + source.frames =~= source.frames);
}

/// Re-muxes an animated upload.
///
/// Every frame is read and written to a new GIF in the order of the source,
/// under the source's global palette, or an empty one where it has none. The
/// output always loops for ever, whatever the source says.
///
/// A source that cannot be read to its end is a decode failure; a palette or
/// a frame that the encoder does not take is an encode failure; whichever
/// is met first is reported.
pub fn handle_gif(data: &[u8]) -> (r: Result<Normalised, IngestError>)
    ensures
        match r {
            Ok(out) => {
                &&& remuxing(data@) == Ok::<GifSink, IngestError>(remuxed(gif_source(data@)))
                &&& out.ext == Extension::Gif
                &&& out.replaced is None
                &&& out.bytes@ == gif_encoding(remuxed(gif_source(data@)))
                &&& detected(out.bytes@) == Ok::<DetectedFormat, IngestError>(out.ext.format())
            },
            Err(e) => remuxing(data@) == Err::<GifSink, IngestError>(e) && (e
                == IngestError::Decode || e == IngestError::Encode),
        },
{
    let mut reader = match open_gif(data) {
        Ok(reader) => reader,
        Err(_) => {
            return Err(IngestError::Decode);
        },
    };
    let ghost source = gif_source(data@);
    let palette = match global_palette(&reader) {
        Some(palette) => palette,
        None => Vec::new(),
    };
    let mut writer = match new_gif(
        screen_width(&reader),
        screen_height(&reader),
        palette.as_slice(),
    ) {
        Ok(writer) => writer,
        Err(_) => {
            return Err(IngestError::Encode);
        },
    };
    if set_repeat(&mut writer, Repeat::Infinite).is_err() {
        return Err(IngestError::Encode);
    }
    proof {
        assert(gif_written(writer) =~= opened(source));
        remuxing_keeps_the_source(data@);
    }
    loop
        invariant
            gif_readable(data@),
            source == gif_source(data@),
            palette_of(source).len() / 3 <= MAX_COLOURS,
            gif_ahead(reader).ends_well == source.ends_well,
            written_out(gif_written(writer), gif_ahead(reader).frames, source.ends_well)
                == remuxing(data@),
            remuxing(data@) matches Ok(sink) ==> sink == remuxed(source),
        decreases gif_ahead(reader).frames.len(),
    {
        match read_next_frame(&mut reader) {
            Err(_) => {
                return Err(IngestError::Decode);
            },
            Ok(None) => {
                return match finish(writer) {
                    Some(bytes) => Ok(Normalised { ext: Extension::Gif, bytes, replaced: None }),
                    None => Err(IngestError::Encode),
                };
            },
            Ok(Some(frame)) => {
                if write_frame(&mut writer, &frame).is_err() {
                    return Err(IngestError::Encode);
                }
            },
        }
    }
}

} // verus!
