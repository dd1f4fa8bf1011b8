//! Error taxonomy for archive operations.

use vstd::prelude::*;

verus! {

/// Everything that can go wrong while extracting an archive.
///
/// Extraction is all-or-nothing from the caller's perspective: a failure is
/// reported as one typed value, and files already written before the failure
/// stay on disk (no rollback is performed).
#[derive(Debug)]
pub enum ArchiveError {
    /// An underlying filesystem or stream failure.
    Io {
        /// Text of the platform error.
        message: String,
    },
    /// Neither an explicit override nor detection produced a format.
    UnsupportedFormat {
        /// The file name for which detection failed.
        filename: String,
    },
    /// The tar container failed to unpack.
    TarExtraction {
        /// Diagnostic text of the underlying failure.
        message: String,
    },
    /// The zip container failed to unpack.
    ZipExtraction {
        /// Diagnostic text of the underlying failure.
        message: String,
    },
    /// The 7z container failed to unpack.
    SevenZipExtraction {
        /// Diagnostic text of the underlying failure.
        message: String,
    },
    /// The scratch directory for root stripping could not be created.
    TempDirCreation(String),
    /// Format detection from a URL failed.
    FormatDetection {
        /// What detection was attempted on.
        context: String,
        /// Why it failed.
        reason: String,
    },
    /// The unpacked archive contained no entries at all.
    EmptyArchive,
    /// A rename during root-directory stripping failed.
    RootDirectoryStripping {
        /// The path that could not be moved.
        path: String,
        /// Why the move failed.
        reason: String,
    },
}

impl ArchiveError {
    /// Create a new unsupported format error.
    pub fn unsupported_format(filename: &str) -> (e: Self)
        ensures
            (e matches ArchiveError::UnsupportedFormat { filename: f } && f@ == filename@),
    {
        ArchiveError::UnsupportedFormat { filename: filename.to_owned() }
    }

    /// Create a new tar extraction error.
    pub fn tar_extraction(message: &str) -> (e: Self)
        ensures
            (e matches ArchiveError::TarExtraction { message: m } && m@ == message@),
    {
        ArchiveError::TarExtraction { message: message.to_owned() }
    }

    /// Create a new zip extraction error.
    pub fn zip_extraction(message: &str) -> (e: Self)
        ensures
            (e matches ArchiveError::ZipExtraction { message: m } && m@ == message@),
    {
        ArchiveError::ZipExtraction { message: message.to_owned() }
    }

    /// Create a new 7z extraction error.
    pub fn sevenz_extraction(message: &str) -> (e: Self)
        ensures
            (e matches ArchiveError::SevenZipExtraction { message: m } && m@ == message@),
    {
        ArchiveError::SevenZipExtraction { message: message.to_owned() }
    }

    /// Create a new format detection error.
    pub fn format_detection(context: &str, reason: &str) -> (e: Self)
        ensures
            (e matches ArchiveError::FormatDetection { context: c, reason: r } && c@ == context@
                && r@ == reason@),
    {
        ArchiveError::FormatDetection { context: context.to_owned(), reason: reason.to_owned() }
    }

    /// Create a new root directory stripping error.
    pub fn root_directory_stripping(path: &str, reason: &str) -> (e: Self)
        ensures
            (e matches ArchiveError::RootDirectoryStripping { path: p, reason: r }
                && p@ == path@ && r@ == reason@),
    {
        ArchiveError::RootDirectoryStripping { path: path.to_owned(), reason: reason.to_owned() }
    }
}

} // verus!
