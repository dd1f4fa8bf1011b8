//! Configuration for cooperative (asynchronous) extraction.
//!
//! The builder mirrors the synchronous one.  The offload itself — handing a
//! whole synchronous extraction to a worker thread and resuming the caller's
//! task on completion — is filesystem and scheduler work performed by the
//! embedding around the library, which holds this configuration through a
//! shared, reference-counted handle so the worker never borrows the calling
//! task's stack.

use vstd::prelude::*;
use vstd::string::StringExecFns;

use crate::error::ArchiveError;
use crate::extractor::{spec_resolved_format, Extractor, ExtractorBuilder};
use crate::format::ArchiveFormat;
use crate::progress::{NoProgressReporter, ProgressReporter};

verus! {

/// Resolve the format for a URL-named archive, before any work is
/// offloaded: the explicit override wins; otherwise the file name of the
/// URL's path component decides; a URL that yields nothing is rejected with
/// a detection error naming the URL.
pub fn resolve_format_from_url(
    override_format: Option<ArchiveFormat>,
    url_text: &str,
    url_path: &str,
) -> (r: Result<ArchiveFormat, ArchiveError>)
    ensures
        (match spec_resolved_format(override_format, url_path@) {
            Some(f) => r == Ok::<ArchiveFormat, ArchiveError>(f),
            None => r matches Err(e) && (e matches ArchiveError::FormatDetection {
                context,
                reason,
            } && context@ == "URL: "@ + url_text@ && reason@
                == "Could not detect archive format from URL path"@),
        }),
{
    if let Some(f) = override_format {
        return Ok(f);
    }
    match ArchiveFormat::detect_from_path(url_path) {
        Some(f) => Ok(f),
        None => {
            let context = "URL: ".to_owned().concat(url_text);
            Err(ArchiveError::format_detection(
                context.as_str(),
                "Could not detect archive format from URL path",
            ))
        },
    }
}

/// Builder for configuring async archive extraction.
pub struct AsyncExtractorBuilder<P: ProgressReporter> {
    /// The synchronous configuration being built.
    pub inner: ExtractorBuilder<P>,
}

impl AsyncExtractorBuilder<NoProgressReporter> {
    /// Create a new async extractor builder.
    pub fn new() -> (b: Self)
        ensures
            b.inner.strip_root_dir == true,
            b.inner.format is None,
    {
        AsyncExtractorBuilder { inner: ExtractorBuilder::new() }
    }
}

impl<P: ProgressReporter> AsyncExtractorBuilder<P> {
    /// Whether to strip the root directory if the archive contains only one
    /// top-level directory.
    pub fn with_strip_root_dir(self, strip: bool) -> (b: Self)
        ensures
            b.inner.strip_root_dir == strip,
            b.inner.progress_reporter == self.inner.progress_reporter,
            b.inner.format == self.inner.format,
    {
        AsyncExtractorBuilder { inner: self.inner.with_strip_root_dir(strip) }
    }

    /// Set a custom progress reporter.
    pub fn with_progress_reporter<R: ProgressReporter>(self, reporter: R) -> (b:
        AsyncExtractorBuilder<R>)
        ensures
            b.inner.strip_root_dir == self.inner.strip_root_dir,
            b.inner.progress_reporter == reporter,
            b.inner.format == self.inner.format,
    {
        AsyncExtractorBuilder { inner: self.inner.with_progress_reporter(reporter) }
    }

    /// Set the archive format explicitly (bypassing auto-detection).
    pub fn with_format(self, format: ArchiveFormat) -> (b: Self)
        ensures
            b.inner.strip_root_dir == self.inner.strip_root_dir,
            b.inner.progress_reporter == self.inner.progress_reporter,
            b.inner.format == Some(format),
    {
        AsyncExtractorBuilder { inner: self.inner.with_format(format) }
    }

    /// Build the async extractor.
    pub fn build(self) -> (e: AsyncExtractor<P>)
        ensures
            e.inner.strip_root_dir == self.inner.strip_root_dir,
            e.inner.progress_reporter == self.inner.progress_reporter,
            e.inner.format == self.inner.format,
    {
        AsyncExtractor { inner: self.inner.build() }
    }
}

impl Default for AsyncExtractorBuilder<NoProgressReporter> {
    fn default() -> (b: Self)
        ensures
            b.inner.strip_root_dir == true,
            b.inner.format is None,
    {
        AsyncExtractorBuilder::new()
    }
}

/// Async archive extractor: the synchronous configuration, to be run on a
/// worker thread by the embedding.
pub struct AsyncExtractor<P: ProgressReporter> {
    /// The synchronous extractor that one worker thread runs end-to-end.
    pub inner: Extractor<P>,
}

} // verus!
