use rattler_archive::error::ArchiveError;
use rattler_archive::extractor::{
    finish_message, unpack_error, unpack_method, ExtractorBuilder, TarCompression, UnpackMethod,
};
use rattler_archive::format::ArchiveFormat;

#[test]
fn test_builder_pattern() {
    let extractor = ExtractorBuilder::new()
        .with_strip_root_dir(false)
        .with_format(ArchiveFormat::TarGz)
        .build();

    assert!(!extractor.strip_root_dir);
    assert_eq!(extractor.format, Some(ArchiveFormat::TarGz));
}

#[test]
fn test_builder_defaults() {
    let extractor = ExtractorBuilder::new().build();
    assert!(extractor.strip_root_dir);
    assert_eq!(extractor.format, None);
}

#[test]
fn test_resolve_format_by_detection() {
    let extractor = ExtractorBuilder::new().build();
    let format = extractor.resolve_format("pkg/archive.tar.bz2").unwrap();
    assert_eq!(format, ArchiveFormat::TarBz2);
}

#[test]
fn test_resolve_format_override_wins() {
    // An explicit override beats what the file name says.
    let extractor = ExtractorBuilder::new()
        .with_format(ArchiveFormat::Zip)
        .build();
    let format = extractor.resolve_format("archive.tar.gz").unwrap();
    assert_eq!(format, ArchiveFormat::Zip);
}

#[test]
fn test_resolve_format_unsupported() {
    let extractor = ExtractorBuilder::new().build();
    let err = extractor.resolve_format("notes.txt").unwrap_err();
    match err {
        ArchiveError::UnsupportedFormat { filename } => assert_eq!(filename, "notes.txt"),
        other => panic!("unexpected error: {other:?}"),
    }
}

#[test]
fn test_plan_detects_and_dispatches() {
    let extractor = ExtractorBuilder::new().build();
    let plan = extractor.plan("a.tar.zst").unwrap();
    assert_eq!(plan.format, ArchiveFormat::TarZst);
    assert_eq!(plan.method, UnpackMethod::Tar(TarCompression::Zstd));
    assert!(plan.use_scratch);
}

#[test]
fn test_plan_without_stripping() {
    let extractor = ExtractorBuilder::new().with_strip_root_dir(false).build();
    let plan = extractor.plan("a.zip").unwrap();
    assert_eq!(plan.format, ArchiveFormat::Zip);
    assert_eq!(plan.method, UnpackMethod::Zip);
    assert!(!plan.use_scratch);
}

#[test]
fn test_plan_unsupported_format() {
    let extractor = ExtractorBuilder::new().build();
    let err = extractor.plan("archive.rar").unwrap_err();
    assert!(matches!(err, ArchiveError::UnsupportedFormat { .. }));
}

#[test]
fn test_unpack_method_mapping() {
    assert_eq!(
        unpack_method(ArchiveFormat::Tar),
        UnpackMethod::Tar(TarCompression::Plain)
    );
    assert_eq!(
        unpack_method(ArchiveFormat::TarGz),
        UnpackMethod::Tar(TarCompression::Gzip)
    );
    assert_eq!(
        unpack_method(ArchiveFormat::TarBz2),
        UnpackMethod::Tar(TarCompression::Bzip2)
    );
    // xz and lzma share one adapter.
    assert_eq!(
        unpack_method(ArchiveFormat::TarXz),
        UnpackMethod::Tar(TarCompression::Xz)
    );
    assert_eq!(
        unpack_method(ArchiveFormat::TarLzma),
        UnpackMethod::Tar(TarCompression::Xz)
    );
    assert_eq!(
        unpack_method(ArchiveFormat::TarZst),
        UnpackMethod::Tar(TarCompression::Zstd)
    );
    assert_eq!(unpack_method(ArchiveFormat::Zip), UnpackMethod::Zip);
    assert_eq!(
        unpack_method(ArchiveFormat::SevenZip),
        UnpackMethod::SevenZip
    );
}

#[test]
fn test_finish_messages() {
    assert_eq!(finish_message(ArchiveFormat::Tar), "Extracted tar archive");
    assert_eq!(
        finish_message(ArchiveFormat::TarGz),
        "Extracted tar archive"
    );
    assert_eq!(finish_message(ArchiveFormat::Zip), "Extracted ZIP archive");
    assert_eq!(
        finish_message(ArchiveFormat::SevenZip),
        "Extracted 7z archive"
    );
}

#[test]
fn test_unpack_error_families() {
    let e = unpack_error(UnpackMethod::Tar(TarCompression::Gzip), "bad header");
    match e {
        ArchiveError::TarExtraction { message } => assert_eq!(message, "bad header"),
        other => panic!("unexpected error: {other:?}"),
    }
    let e = unpack_error(UnpackMethod::Zip, "bad magic");
    assert!(matches!(e, ArchiveError::ZipExtraction { .. }));
    let e = unpack_error(UnpackMethod::SevenZip, "bad block");
    assert!(matches!(e, ArchiveError::SevenZipExtraction { .. }));
}
