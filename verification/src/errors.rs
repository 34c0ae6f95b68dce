//! Failure kinds surfaced by the library.

use vstd::prelude::*;

verus! {

/// Why an upload could not be turned into a stored image.
#[derive(Clone, Copy, Debug, PartialEq, Eq, Structural)]
pub enum IngestError {
    /// The bytes carry no signature of a supported container.
    FormatDetection,
    /// The container was recognised but its pixel data could not be decoded.
    Decode,
    /// A codec or the temporary file failed while the output was written.
    Encode,
    /// Every candidate name that was tried already existed.
    NameExhaustion,
    /// The stored file could not be made world-readable.
    Permission,
}

impl IngestError {
    pub open spec fn text(self) -> Seq<char> {
        match self {
            IngestError::FormatDetection => "unrecognised image format"@,
            IngestError::Decode => "image data could not be decoded"@,
            IngestError::Encode => "image could not be written"@,
            IngestError::NameExhaustion => "couldn't find a viable file name"@,
            IngestError::Permission => "stored file could not be made readable"@,
        }
    }

    /// A short description for logs and responses.
    pub fn message(self) -> (s: &'static str)
        ensures
            s@ == self.text(),
    {
        match self {
            IngestError::FormatDetection => "unrecognised image format",
            IngestError::Decode => "image data could not be decoded",
            IngestError::Encode => "image could not be written",
            IngestError::NameExhaustion => "couldn't find a viable file name",
            IngestError::Permission => "stored file could not be made readable",
        }
    }
}

/// Why a gallery operation failed.
#[derive(Clone, Copy, Debug, PartialEq, Eq, Structural)]
pub enum GalleryError {
    /// The lock around the shared connection was poisoned by an earlier panic.
    LockPoisoned,
    /// The database refused a statement for a reason other than a duplicate row.
    Database,
}

impl GalleryError {
    pub open spec fn text(self) -> Seq<char> {
        match self {
            GalleryError::LockPoisoned => "poison"@,
            GalleryError::Database => "database failure"@,
        }
    }

    /// A short description for logs and responses.
    pub fn message(self) -> (s: &'static str)
        ensures
            s@ == self.text(),
    {
        match self {
            GalleryError::LockPoisoned => "poison",
            GalleryError::Database => "database failure",
        }
    }
}

} // verus!
