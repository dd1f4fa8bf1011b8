//! Extractor configuration and the extraction plan.
//!
//! An [`Extractor`] is stateless and reusable: it holds only its
//! configuration.  For one call it decides, up front, everything the
//! filesystem side needs to carry the extraction out: the format (explicit
//! override or detection from the file name), the unpack method for that
//! format's container, and whether a scratch directory is interposed so a
//! lone top-level directory can be stripped afterwards.

use vstd::prelude::*;

use crate::error::ArchiveError;
use crate::format::{path_file_name, spec_detect, ArchiveFormat};
use crate::progress::{NoProgressReporter, ProgressReporter};

verus! {

/// The streaming decompressor a tar-family archive is read through.
#[derive(Clone, Copy, Debug, PartialEq, Eq, Structural)]
pub enum TarCompression {
    /// No compression: the file is the tar stream itself.
    Plain,
    /// Gzip decompression.
    Gzip,
    /// Bzip2 decompression.
    Bzip2,
    /// XZ decompression; xz and lzma share this adapter.
    Xz,
    /// Zstd decompression.
    Zstd,
}

/// How a resolved format's container is unpacked.
#[derive(Clone, Copy, Debug, PartialEq, Eq, Structural)]
pub enum UnpackMethod {
    /// Stream the file through the given decompressor and unpack the tar
    /// container.
    Tar(TarCompression),
    /// Open the file as a random-access zip container; per-entry
    /// compression is the container reader's own business.
    Zip,
    /// Decompress the whole archive with the dedicated 7z decoder.
    SevenZip,
}

/// The unpack method each format calls for.
pub open spec fn spec_unpack_method(f: ArchiveFormat) -> UnpackMethod {
    match f {
        ArchiveFormat::Tar => UnpackMethod::Tar(TarCompression::Plain),
        ArchiveFormat::TarGz => UnpackMethod::Tar(TarCompression::Gzip),
        ArchiveFormat::TarBz2 => UnpackMethod::Tar(TarCompression::Bzip2),
        ArchiveFormat::TarXz => UnpackMethod::Tar(TarCompression::Xz),
        ArchiveFormat::TarLzma => UnpackMethod::Tar(TarCompression::Xz),
        ArchiveFormat::TarZst => UnpackMethod::Tar(TarCompression::Zstd),
        ArchiveFormat::Zip => UnpackMethod::Zip,
        ArchiveFormat::SevenZip => UnpackMethod::SevenZip,
    }
}

/// The format one extraction resolves to: the explicit override wins;
/// otherwise detection on the path's file name decides.
pub open spec fn spec_resolved_format(
    override_format: Option<ArchiveFormat>,
    archive_path: Seq<char>,
) -> Option<ArchiveFormat> {
    match override_format {
        Some(f) => Some(f),
        None => spec_detect(path_file_name(archive_path)),
    }
}

/// Construct the unpack method for a format.
pub fn unpack_method(format: ArchiveFormat) -> (m: UnpackMethod)
    ensures
        m == spec_unpack_method(format),
{
    match format {
        ArchiveFormat::Tar => UnpackMethod::Tar(TarCompression::Plain),
        ArchiveFormat::TarGz => UnpackMethod::Tar(TarCompression::Gzip),
        ArchiveFormat::TarBz2 => UnpackMethod::Tar(TarCompression::Bzip2),
        ArchiveFormat::TarXz => UnpackMethod::Tar(TarCompression::Xz),
        ArchiveFormat::TarLzma => UnpackMethod::Tar(TarCompression::Xz),
        ArchiveFormat::TarZst => UnpackMethod::Tar(TarCompression::Zstd),
        ArchiveFormat::Zip => UnpackMethod::Zip,
        ArchiveFormat::SevenZip => UnpackMethod::SevenZip,
    }
}

/// The message signalled to the reporter when an extraction finishes, naming
/// the family that was extracted.
pub open spec fn spec_finish_message(f: ArchiveFormat) -> Seq<char> {
    match spec_unpack_method(f) {
        UnpackMethod::Tar(_) => "Extracted tar archive"@,
        UnpackMethod::Zip => "Extracted ZIP archive"@,
        UnpackMethod::SevenZip => "Extracted 7z archive"@,
    }
}

/// The finish message for a format.
pub fn finish_message(format: ArchiveFormat) -> (m: &'static str)
    ensures
        m@ == spec_finish_message(format),
{
    match unpack_method(format) {
        UnpackMethod::Tar(_) => "Extracted tar archive",
        UnpackMethod::Zip => "Extracted ZIP archive",
        UnpackMethod::SevenZip => "Extracted 7z archive",
    }
}

/// Wrap a container unpack failure in the taxonomy member of its family,
/// carrying the underlying diagnostic text.
pub fn unpack_error(method: UnpackMethod, message: &str) -> (e: ArchiveError)
    ensures
        (match method {
            UnpackMethod::Tar(_) => e matches ArchiveError::TarExtraction { message: m } && m@
                == message@,
            UnpackMethod::Zip => e matches ArchiveError::ZipExtraction { message: m } && m@
                == message@,
            UnpackMethod::SevenZip => e matches ArchiveError::SevenZipExtraction { message: m }
                && m@ == message@,
        }),
{
    match method {
        UnpackMethod::Tar(_) => ArchiveError::tar_extraction(message),
        UnpackMethod::Zip => ArchiveError::zip_extraction(message),
        UnpackMethod::SevenZip => ArchiveError::sevenz_extraction(message),
    }
}

/// Everything the filesystem side needs to know to carry out one
/// extraction.
#[derive(Clone, Copy, Debug, PartialEq, Eq, Structural)]
pub struct ExtractionPlan {
    /// The format being extracted.
    pub format: ArchiveFormat,
    /// How its container is unpacked.
    pub method: UnpackMethod,
    /// Unpack into a freshly created scratch directory first and strip a
    /// lone top-level directory afterwards, rather than unpacking straight
    /// into the destination.
    pub use_scratch: bool,
}

/// Builder for configuring archive extraction.
pub struct ExtractorBuilder<P: ProgressReporter> {
    /// Whether a lone top-level directory is stripped after unpacking.
    pub strip_root_dir: bool,
    /// The progress sink extraction reports to.
    pub progress_reporter: P,
    /// An explicit format, bypassing detection.
    pub format: Option<ArchiveFormat>,
}

impl ExtractorBuilder<NoProgressReporter> {
    /// Create a new extractor builder: root stripping on, no format
    /// override, no-op progress.
    pub fn new() -> (b: Self)
        ensures
            b.strip_root_dir == true,
            b.format is None,
    {
        ExtractorBuilder {
            strip_root_dir: true,
            progress_reporter: NoProgressReporter,
            format: None,
        }
    }
}

impl<P: ProgressReporter> ExtractorBuilder<P> {
    /// Whether to strip the root directory if the archive contains only one
    /// top-level directory.
    pub fn with_strip_root_dir(self, strip: bool) -> (b: Self)
        ensures
            b.strip_root_dir == strip,
            b.progress_reporter == self.progress_reporter,
            b.format == self.format,
    {
        ExtractorBuilder {
            strip_root_dir: strip,
            progress_reporter: self.progress_reporter,
            format: self.format,
        }
    }

    /// Set a custom progress reporter.
    pub fn with_progress_reporter<R: ProgressReporter>(self, reporter: R) -> (b:
        ExtractorBuilder<R>)
        ensures
            b.strip_root_dir == self.strip_root_dir,
            b.progress_reporter == reporter,
            b.format == self.format,
    {
        ExtractorBuilder {
            strip_root_dir: self.strip_root_dir,
            progress_reporter: reporter,
            format: self.format,
        }
    }

    /// Set the archive format explicitly (bypassing auto-detection).
    pub fn with_format(self, format: ArchiveFormat) -> (b: Self)
        ensures
            b.strip_root_dir == self.strip_root_dir,
            b.progress_reporter == self.progress_reporter,
            b.format == Some(format),
    {
        ExtractorBuilder {
            strip_root_dir: self.strip_root_dir,
            progress_reporter: self.progress_reporter,
            format: Some(format),
        }
    }

    /// Build the extractor.
    pub fn build(self) -> (e: Extractor<P>)
        ensures
            e.strip_root_dir == self.strip_root_dir,
            e.progress_reporter == self.progress_reporter,
            e.format == self.format,
    {
        Extractor {
            strip_root_dir: self.strip_root_dir,
            progress_reporter: self.progress_reporter,
            format: self.format,
        }
    }
}

impl Default for ExtractorBuilder<NoProgressReporter> {
    fn default() -> (b: Self)
        ensures
            b.strip_root_dir == true,
            b.format is None,
    {
        ExtractorBuilder::new()
    }
}

/// Archive extractor: an immutable configuration, reusable across calls; it
/// owns no open handles between calls.
///
/// Re-extraction into a non-empty destination makes no promise: overwrite
/// behavior is the container readers' own, so exclusive use of the
/// destination for the duration of a call is the caller's responsibility.
pub struct Extractor<P: ProgressReporter> {
    /// Whether a lone top-level directory is stripped after unpacking.
    pub strip_root_dir: bool,
    /// The progress sink extraction reports to.
    pub progress_reporter: P,
    /// An explicit format, bypassing detection.
    pub format: Option<ArchiveFormat>,
}

impl<P: ProgressReporter> Extractor<P> {
    /// Resolve the format for an archive path: the explicit override wins;
    /// otherwise the format is detected from the path's file name, and a
    /// name that detection cannot place is rejected.
    pub fn resolve_format(&self, archive_path: &str) -> (r: Result<ArchiveFormat, ArchiveError>)
        ensures
            (match spec_resolved_format(self.format, archive_path@) {
                Some(f) => r == Ok::<ArchiveFormat, ArchiveError>(f),
                None => r matches Err(e) && (e matches ArchiveError::UnsupportedFormat {
                    filename,
                } && filename@ == archive_path@),
            }),
    {
        if let Some(f) = self.format {
            return Ok(f);
        }
        match ArchiveFormat::detect_from_path(archive_path) {
            Some(f) => Ok(f),
            None => Err(ArchiveError::unsupported_format(archive_path)),
        }
    }

    /// Decide the whole extraction up front: the format, the unpack method,
    /// and whether a scratch directory is interposed for root stripping.
    pub fn plan(&self, archive_path: &str) -> (r: Result<ExtractionPlan, ArchiveError>)
        ensures
            (match spec_resolved_format(self.format, archive_path@) {
                Some(f) => r matches Ok(p) && p == (ExtractionPlan {
                    format: f,
                    method: spec_unpack_method(f),
                    use_scratch: self.strip_root_dir,
                }),
                None => r matches Err(e) && (e matches ArchiveError::UnsupportedFormat {
                    filename,
                } && filename@ == archive_path@),
            }),
    {
        let format = match self.resolve_format(archive_path) {
            Ok(f) => f,
            Err(e) => {
                return Err(e);
            },
        };
        Ok(ExtractionPlan {
            format,
            method: unpack_method(format),
            use_scratch: self.strip_root_dir,
        })
    }
}

} // verus!
