//! Root-directory normalization decisions.
//!
//! After an archive is unpacked into a scratch directory, a single enclosing
//! top-level directory (the common source-tarball layout) is collapsed: its
//! children are moved into the destination by renaming, one entry at a time.
//! The decision of what the effective root is belongs here; the renames are
//! filesystem work performed by the embedding around the library.

use vstd::prelude::*;

use crate::error::ArchiveError;

verus! {

/// One immediate entry of an unpacked directory, as the decision sees it:
/// its bare name and whether it is a directory.
#[derive(Debug, Clone)]
pub struct DirEntry {
    /// File name of the entry, without separators.
    pub name: String,
    /// Whether the entry is a directory.
    pub is_dir: bool,
}

/// Where the effective root of unpacked content lies.
#[derive(Debug)]
pub enum EffectiveRoot {
    /// The listing's single entry is a directory: that directory's contents
    /// are the archive's effective content, and the enclosing directory
    /// itself is stripped.
    Nested(String),
    /// The unpacked directory itself is the effective root: every entry is
    /// moved as it stands.
    Flat,
}

/// Decide the effective root from the immediate entries of the scratch
/// directory: an empty listing is an empty archive; a single directory entry
/// is an enclosing root to strip; multiple entries, or a single non-directory
/// entry, are taken as they stand.
pub fn effective_root(entries: &Vec<DirEntry>) -> (r: Result<EffectiveRoot, ArchiveError>)
    ensures
        entries@.len() == 0 ==> (r matches Err(e) && e matches ArchiveError::EmptyArchive),
        entries@.len() == 1 && entries@[0].is_dir ==> (r matches Ok(root) && (
        root matches EffectiveRoot::Nested(name) && name@ == entries@[0].name@)),
        entries@.len() > 1 || (entries@.len() == 1 && !entries@[0].is_dir) ==> (r matches Ok(root)
            && root matches EffectiveRoot::Flat),
{
    if entries.len() == 0 {
        Err(ArchiveError::EmptyArchive)
    } else if entries.len() == 1 && entries[0].is_dir {
        Ok(EffectiveRoot::Nested(entries[0].name.clone()))
    } else {
        Ok(EffectiveRoot::Flat)
    }
}

} // verus!
