use rattler_archive::error::ArchiveError;
use rattler_archive::normalize::{effective_root, DirEntry, EffectiveRoot};

fn entry(name: &str, is_dir: bool) -> DirEntry {
    DirEntry {
        name: name.to_string(),
        is_dir,
    }
}

#[test]
fn test_empty_listing_is_empty_archive() {
    let err = effective_root(&Vec::new()).unwrap_err();
    assert!(matches!(err, ArchiveError::EmptyArchive));
}

#[test]
fn test_single_directory_is_stripped() {
    // An archive whose only top-level entry is a directory `pkg/` has that
    // directory as its effective root: its children land directly in the
    // destination.
    let entries = vec![entry("pkg", true)];
    match effective_root(&entries).unwrap() {
        EffectiveRoot::Nested(name) => assert_eq!(name, "pkg"),
        EffectiveRoot::Flat => panic!("expected the lone directory to be stripped"),
    }
}

#[test]
fn test_multiple_entries_stay_flat() {
    let entries = vec![entry("a.txt", false), entry("b.txt", false)];
    assert!(matches!(
        effective_root(&entries).unwrap(),
        EffectiveRoot::Flat
    ));
}

#[test]
fn test_multiple_directories_stay_flat() {
    let entries = vec![entry("one", true), entry("two", true)];
    assert!(matches!(
        effective_root(&entries).unwrap(),
        EffectiveRoot::Flat
    ));
}

#[test]
fn test_single_file_stays_flat() {
    let entries = vec![entry("test.txt", false)];
    assert!(matches!(
        effective_root(&entries).unwrap(),
        EffectiveRoot::Flat
    ));
}
