use rattler_archive::error::ArchiveError;
use rattler_archive::format::ArchiveFormat;
use rattler_archive::{AsyncExtractorBuilder, ExtractorBuilder};

#[test]
fn test_unsupported_format_carries_filename() {
    let e = ArchiveError::unsupported_format("data.bin");
    match e {
        ArchiveError::UnsupportedFormat { filename } => assert_eq!(filename, "data.bin"),
        other => panic!("unexpected error: {other:?}"),
    }
}

#[test]
fn test_extraction_errors_carry_messages() {
    match ArchiveError::tar_extraction("truncated entry") {
        ArchiveError::TarExtraction { message } => assert_eq!(message, "truncated entry"),
        other => panic!("unexpected error: {other:?}"),
    }
    match ArchiveError::zip_extraction("bad central directory") {
        ArchiveError::ZipExtraction { message } => assert_eq!(message, "bad central directory"),
        other => panic!("unexpected error: {other:?}"),
    }
    match ArchiveError::sevenz_extraction("bad signature") {
        ArchiveError::SevenZipExtraction { message } => assert_eq!(message, "bad signature"),
        other => panic!("unexpected error: {other:?}"),
    }
}

#[test]
fn test_format_detection_error() {
    match ArchiveError::format_detection("URL: https://example.com/x", "no file name") {
        ArchiveError::FormatDetection { context, reason } => {
            assert_eq!(context, "URL: https://example.com/x");
            assert_eq!(reason, "no file name");
        }
        other => panic!("unexpected error: {other:?}"),
    }
}

#[test]
fn test_root_directory_stripping_error() {
    match ArchiveError::root_directory_stripping("/tmp/x/a", "cross-device link") {
        ArchiveError::RootDirectoryStripping { path, reason } => {
            assert_eq!(path, "/tmp/x/a");
            assert_eq!(reason, "cross-device link");
        }
        other => panic!("unexpected error: {other:?}"),
    }
}

#[test]
fn test_async_builder_mirrors_sync_builder() {
    let sync_extractor = ExtractorBuilder::new()
        .with_strip_root_dir(false)
        .with_format(ArchiveFormat::TarXz)
        .build();
    let async_extractor = AsyncExtractorBuilder::new()
        .with_strip_root_dir(false)
        .with_format(ArchiveFormat::TarXz)
        .build();
    assert_eq!(
        async_extractor.inner.strip_root_dir,
        sync_extractor.strip_root_dir
    );
    assert_eq!(async_extractor.inner.format, sync_extractor.format);
}

#[test]
fn test_async_builder_defaults() {
    let e = AsyncExtractorBuilder::new().build();
    assert!(e.inner.strip_root_dir);
    assert_eq!(e.inner.format, None);
}
