//! Container formats and the re-encode policy.

use image::ImageFormat;
use vstd::prelude::*;

verus! {

/// The codec crate's format tag, with its variants visible to the verifier.
#[verifier::external_type_specification]
pub struct ExImageFormat(image::ImageFormat);

/// Container formats an upload can be recognised as.
#[derive(Clone, Copy, Debug, PartialEq, Eq, Structural)]
pub enum DetectedFormat {
    Png,
    Jpeg,
    Gif,
    WebP,
    Bmp,
    Tiff,
    Ico,
    Hdr,
    Tga,
    Pnm,
}

/// Formats a still image is re-encoded to.
#[derive(Clone, Copy, Debug, PartialEq, Eq, Structural)]
pub enum StillFormat {
    Png,
    Jpeg,
}

/// File extension of a stored image.
#[derive(Clone, Copy, Debug, PartialEq, Eq, Structural)]
pub enum Extension {
    Png,
    Jpg,
    Gif,
}

/// Largest PNG, in bytes, that is kept as a PNG.
pub const PNG_LIMIT: usize = 1_048_576;

impl DetectedFormat {
    /// The closed set of supported formats inside the codec crate's open one.
    pub open spec fn supported(tag: ImageFormat) -> Option<DetectedFormat> {
        match tag {
            ImageFormat::Png => Some(DetectedFormat::Png),
            ImageFormat::Jpeg => Some(DetectedFormat::Jpeg),
            ImageFormat::Gif => Some(DetectedFormat::Gif),
            ImageFormat::WebP => Some(DetectedFormat::WebP),
            ImageFormat::Bmp => Some(DetectedFormat::Bmp),
            ImageFormat::Tiff => Some(DetectedFormat::Tiff),
            ImageFormat::Ico => Some(DetectedFormat::Ico),
            ImageFormat::Hdr => Some(DetectedFormat::Hdr),
            ImageFormat::Tga => Some(DetectedFormat::Tga),
            ImageFormat::Pnm => Some(DetectedFormat::Pnm),
            _ => None,
        }
    }

    /// The codec crate's tag for this format.
    pub open spec fn tag(self) -> ImageFormat {
        match self {
            DetectedFormat::Png => ImageFormat::Png,
            DetectedFormat::Jpeg => ImageFormat::Jpeg,
            DetectedFormat::Gif => ImageFormat::Gif,
            DetectedFormat::WebP => ImageFormat::WebP,
            DetectedFormat::Bmp => ImageFormat::Bmp,
            DetectedFormat::Tiff => ImageFormat::Tiff,
            DetectedFormat::Ico => ImageFormat::Ico,
            DetectedFormat::Hdr => ImageFormat::Hdr,
            DetectedFormat::Tga => ImageFormat::Tga,
            DetectedFormat::Pnm => ImageFormat::Pnm,
        }
    }

    /// The policy table: what a still image of this format is re-encoded to.
    /// Animated content has no still target.
    pub open spec fn target(self) -> Option<StillFormat> {
        match self {
            DetectedFormat::Png
            | DetectedFormat::Pnm
            | DetectedFormat::Tiff
            | DetectedFormat::Bmp
            | DetectedFormat::Ico
            | DetectedFormat::Hdr
            | DetectedFormat::Tga => Some(StillFormat::Png),
            DetectedFormat::Jpeg | DetectedFormat::WebP => Some(StillFormat::Jpeg),
            DetectedFormat::Gif => None,
        }
    }

    /// Formats that are known to carry an EXIF orientation.
    pub open spec fn carries_exif(self) -> bool {
        self == DetectedFormat::Jpeg || self == DetectedFormat::WebP || self
            == DetectedFormat::Tiff
    }

    /// Admits a tag of the codec crate into the supported set, or rejects it.
    pub fn from_tag(tag: ImageFormat) -> (r: Option<DetectedFormat>)
        ensures
            r == Self::supported(tag),
    {
        match tag {
            ImageFormat::Png => Some(DetectedFormat::Png),
            ImageFormat::Jpeg => Some(DetectedFormat::Jpeg),
            ImageFormat::Gif => Some(DetectedFormat::Gif),
            ImageFormat::WebP => Some(DetectedFormat::WebP),
            ImageFormat::Bmp => Some(DetectedFormat::Bmp),
            ImageFormat::Tiff => Some(DetectedFormat::Tiff),
            ImageFormat::Ico => Some(DetectedFormat::Ico),
            ImageFormat::Hdr => Some(DetectedFormat::Hdr),
            ImageFormat::Tga => Some(DetectedFormat::Tga),
            ImageFormat::Pnm => Some(DetectedFormat::Pnm),
            _ => None,
        }
    }

    pub fn to_tag(self) -> (tag: ImageFormat)
        ensures
            tag == self.tag(),
            Self::supported(tag) == Some(self),
    {
        match self {
            DetectedFormat::Png => ImageFormat::Png,
            DetectedFormat::Jpeg => ImageFormat::Jpeg,
            DetectedFormat::Gif => ImageFormat::Gif,
            DetectedFormat::WebP => ImageFormat::WebP,
            DetectedFormat::Bmp => ImageFormat::Bmp,
            DetectedFormat::Tiff => ImageFormat::Tiff,
            DetectedFormat::Ico => ImageFormat::Ico,
            DetectedFormat::Hdr => ImageFormat::Hdr,
            DetectedFormat::Tga => ImageFormat::Tga,
            DetectedFormat::Pnm => ImageFormat::Pnm,
        }
    }

    pub fn target_format(self) -> (t: Option<StillFormat>)
        ensures
            t == self.target(),
    {
        match self {
            DetectedFormat::Png
            | DetectedFormat::Pnm
            | DetectedFormat::Tiff
            | DetectedFormat::Bmp
            | DetectedFormat::Ico
            | DetectedFormat::Hdr
            | DetectedFormat::Tga => Some(StillFormat::Png),
            DetectedFormat::Jpeg | DetectedFormat::WebP => Some(StillFormat::Jpeg),
            DetectedFormat::Gif => None,
        }
    }

    pub fn expects_exif(self) -> (b: bool)
        ensures
            b == self.carries_exif(),
    {
        match self {
            DetectedFormat::Jpeg | DetectedFormat::WebP | DetectedFormat::Tiff => true,
            _ => false,
        }
    }
}

impl StillFormat {
    /// The format a file written in this target is detected as.
    pub open spec fn detected(self) -> DetectedFormat {
        match self {
            StillFormat::Png => DetectedFormat::Png,
            StillFormat::Jpeg => DetectedFormat::Jpeg,
        }
    }

    pub open spec fn ext(self) -> Extension {
        match self {
            StillFormat::Png => Extension::Png,
            StillFormat::Jpeg => Extension::Jpg,
        }
    }

    /// The size guard: a PNG that came out larger than [`PNG_LIMIT`] is
    /// replaced by a JPEG; everything else stays what it is.
    pub open spec fn settled(self, encoded_len: nat) -> StillFormat {
        if self == StillFormat::Png && encoded_len > PNG_LIMIT {
            StillFormat::Jpeg
        } else {
            self
        }
    }

    pub fn as_detected(self) -> (d: DetectedFormat)
        ensures
            d == self.detected(),
    {
        match self {
            StillFormat::Png => DetectedFormat::Png,
            StillFormat::Jpeg => DetectedFormat::Jpeg,
        }
    }

    pub fn extension(self) -> (e: Extension)
        ensures
            e == self.ext(),
    {
        match self {
            StillFormat::Png => Extension::Png,
            StillFormat::Jpeg => Extension::Jpg,
        }
    }

    /// Decides, from the size of the first encode, what the output finally is.
    pub fn settle(self, encoded_len: usize) -> (t: StillFormat)
        ensures
            t == self.settled(encoded_len as nat),
    {
        match self {
            StillFormat::Png => if encoded_len > PNG_LIMIT {
                StillFormat::Jpeg
            } else {
                StillFormat::Png
            },
            StillFormat::Jpeg => StillFormat::Jpeg,
        }
    }
}

impl Extension {
    /// The format of a file that is stored under this extension.
    pub open spec fn format(self) -> DetectedFormat {
        match self {
            Extension::Png => DetectedFormat::Png,
            Extension::Jpg => DetectedFormat::Jpeg,
            Extension::Gif => DetectedFormat::Gif,
        }
    }

    pub open spec fn text(self) -> Seq<char> {
        match self {
            Extension::Png => seq!['p', 'n', 'g'],
            Extension::Jpg => seq!['j', 'p', 'g'],
            Extension::Gif => seq!['g', 'i', 'f'],
        }
    }

    pub fn as_str(self) -> (s: &'static str)
        ensures
            s@ == self.text(),
    {
        proof {
            reveal_strlit("png");
            reveal_strlit("jpg");
            reveal_strlit("gif");
        }
        let s = match self {
            Extension::Png => "png",
            Extension::Jpg => "jpg",
            Extension::Gif => "gif",
        };
        s
    }
}

/// Re-encoding what was already re-encoded keeps the format: the policy
/// sends each of its own targets to itself.
pub proof fn policy_is_idempotent(format: DetectedFormat)
    requires
        format.target() is Some,
    ensures
        format.target()->0.detected().target() == format.target(),
{
}

/// What is stored under an extension is, by the policy, stored under the
/// same extension when it comes in again: a GIF stays animated content, a
/// JPEG is aimed at JPEG and a PNG at PNG.
pub proof fn stored_format_keeps_its_target(ext: Extension)
    ensures
        ext == Extension::Gif <==> ext.format().target() is None,
        ext.format().target() matches Some(target) ==> target.ext() == ext,
{
}

/// An output that is still a PNG after the size guard is no larger than the
/// limit, and the guard never turns a JPEG into anything else.
pub proof fn oversized_png_becomes_jpeg(target: StillFormat, encoded_len: nat)
    ensures
        encoded_len > PNG_LIMIT ==> target.settled(encoded_len) == StillFormat::Jpeg,
        target.settled(encoded_len) == StillFormat::Png ==> target == StillFormat::Png
            && encoded_len <= PNG_LIMIT,
        target == StillFormat::Jpeg ==> target.settled(encoded_len) == StillFormat::Jpeg,
{
}

} // verus!
