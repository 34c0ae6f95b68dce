//! Image ingestion, thumbnails and capability-addressed galleries.
//!
//! The crate holds the decisions of an image host: which container an upload
//! is, how it is re-encoded, under which name it may be stored, which previews
//! are still missing, and how a gallery's public token is derived. File and
//! network I/O are left to the caller; decoders, encoders, the MAC and the
//! database are called through small, documented, unverified entry points.

pub mod animation;
pub mod errors;
pub mod format;
pub mod gallery;
pub mod ident;
pub mod ingest;
pub mod orient;
pub mod pixels;
pub mod thumbs;
pub mod upload;
pub mod writer;
