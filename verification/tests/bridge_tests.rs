use rattler_archive::bridge::resolve_format_from_url;
use rattler_archive::error::ArchiveError;
use rattler_archive::format::ArchiveFormat;

#[test]
fn test_resolve_format_from_url_by_detection() {
    let url = url::Url::parse("https://example.com/path/file.tar.gz").unwrap();
    assert_eq!(
        resolve_format_from_url(None, url.as_str(), url.path()).unwrap(),
        ArchiveFormat::TarGz
    );
}

#[test]
fn test_resolve_format_from_url_ignores_query() {
    let url = url::Url::parse("https://example.com/file.zip?query=param").unwrap();
    assert_eq!(
        resolve_format_from_url(None, url.as_str(), url.path()).unwrap(),
        ArchiveFormat::Zip
    );
}

#[test]
fn test_resolve_format_from_url_override_wins() {
    let url = url::Url::parse("https://example.com/file.txt").unwrap();
    assert_eq!(
        resolve_format_from_url(Some(ArchiveFormat::TarZst), url.as_str(), url.path()).unwrap(),
        ArchiveFormat::TarZst
    );
}

#[test]
fn test_resolve_format_from_url_failure_names_the_url() {
    let url = url::Url::parse("https://example.com/file.txt?query=1").unwrap();
    let err = resolve_format_from_url(None, url.as_str(), url.path()).unwrap_err();
    match err {
        ArchiveError::FormatDetection { context, reason } => {
            assert_eq!(context, "URL: https://example.com/file.txt?query=1");
            assert_eq!(reason, "Could not detect archive format from URL path");
        }
        other => panic!("unexpected error: {other:?}"),
    }
}
