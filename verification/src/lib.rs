//! A unified archive extraction library.
//!
//! The library recognizes an archive's format from its file name, plans how a
//! tar, zip or 7z container is to be unpacked, collapses a single enclosing
//! top-level directory after unpacking, and reports byte-level progress.  The
//! decisions are verified here; the filesystem work that carries them out is
//! plain Rust around the library.

use vstd::prelude::*;

pub mod bridge;
pub mod error;
pub mod extractor;
pub mod format;
pub mod normalize;
pub mod progress;

pub use bridge::{AsyncExtractor, AsyncExtractorBuilder};
pub use error::ArchiveError;
pub use extractor::{Extractor, ExtractorBuilder};
pub use format::ArchiveFormat;
pub use progress::ProgressReporter;

verus! {

/// True when the filename carries a recognized archive extension.
pub fn is_archive(filename: &str) -> (r: bool)
    ensures
        r == (format::spec_detect(filename@) is Some),
{
    ArchiveFormat::detect_from_filename(filename).is_some()
}

/// True when the filename names a tar-family archive.
pub fn is_tarball(filename: &str) -> (r: bool)
    ensures
        r == (format::spec_detect(filename@) matches Some(f) && format::spec_is_tar_based(f)),
{
    match ArchiveFormat::detect_from_filename(filename) {
        Some(f) => f.is_tar_based(),
        None => false,
    }
}

} // verus!
