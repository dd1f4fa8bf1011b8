//! Archive format detection.
//!
//! A format is recognized from a file name by case-insensitive suffix
//! matching, most specific suffix first: the compound dotted suffixes and
//! their short aliases come before the bare `.tar`, so `a.tar.gz` is never
//! mistaken for a plain tar archive.

use vstd::prelude::*;

verus! {

/// Supported archive formats.
#[derive(Clone, Copy, Debug, PartialEq, Eq, Hash, Structural)]
pub enum ArchiveFormat {
    /// Plain tar archive
    Tar,
    /// Gzip-compressed tar archive (`.tar.gz`, `.tgz`, `.taz`)
    TarGz,
    /// Bzip2-compressed tar archive (`.tar.bz2`, `.tbz`, `.tbz2`, `.tz2`)
    TarBz2,
    /// XZ-compressed tar archive (`.tar.xz`, `.txz`)
    TarXz,
    /// LZMA-compressed tar archive (`.tar.lzma`, `.tlz`)
    TarLzma,
    /// Zstd-compressed tar archive (`.tar.zst`, `.tzst`)
    TarZst,
    /// ZIP archive
    Zip,
    /// 7-Zip archive
    SevenZip,
}

/// ASCII lower-casing of a single character; anything but `A`..`Z` is left as
/// it is.
pub open spec fn lower_char(c: char) -> char {
    match c {
        'A' => 'a',
        'B' => 'b',
        'C' => 'c',
        'D' => 'd',
        'E' => 'e',
        'F' => 'f',
        'G' => 'g',
        'H' => 'h',
        'I' => 'i',
        'J' => 'j',
        'K' => 'k',
        'L' => 'l',
        'M' => 'm',
        'N' => 'n',
        'O' => 'o',
        'P' => 'p',
        'Q' => 'q',
        'R' => 'r',
        'S' => 's',
        'T' => 't',
        'U' => 'u',
        'V' => 'v',
        'W' => 'w',
        'X' => 'x',
        'Y' => 'y',
        'Z' => 'z',
        _ => c,
    }
}

/// ASCII lower-casing of a whole character sequence.
pub open spec fn lower(s: Seq<char>) -> Seq<char> {
    s.map_values(|c: char| lower_char(c))
}

/// `s` ends with `suffix`.
pub open spec fn ends_with(s: Seq<char>, suffix: Seq<char>) -> bool {
    suffix.len() <= s.len() && s.skip(s.len() - suffix.len()) == suffix
}

/// What format a file name maps to: the suffixes are tried from the most
/// specific to the least specific, on the lower-cased name.
pub open spec fn spec_detect(filename: Seq<char>) -> Option<ArchiveFormat> {
    let f = lower(filename);
    if ends_with(f, ".tar.gz"@) || ends_with(f, ".tgz"@) || ends_with(f, ".taz"@) {
        Some(ArchiveFormat::TarGz)
    } else if ends_with(f, ".tar.bz2"@) || ends_with(f, ".tbz"@) || ends_with(f, ".tbz2"@)
        || ends_with(f, ".tz2"@) {
        Some(ArchiveFormat::TarBz2)
    } else if ends_with(f, ".tar.xz"@) || ends_with(f, ".txz"@) {
        Some(ArchiveFormat::TarXz)
    } else if ends_with(f, ".tar.lzma"@) || ends_with(f, ".tlz"@) {
        Some(ArchiveFormat::TarLzma)
    } else if ends_with(f, ".tar.zst"@) || ends_with(f, ".tzst"@) {
        Some(ArchiveFormat::TarZst)
    } else if ends_with(f, ".tar"@) {
        Some(ArchiveFormat::Tar)
    } else if ends_with(f, ".zip"@) {
        Some(ArchiveFormat::Zip)
    } else if ends_with(f, ".7z"@) {
        Some(ArchiveFormat::SevenZip)
    } else {
        None
    }
}

/// The human-readable name of each format.
pub open spec fn spec_name(f: ArchiveFormat) -> Seq<char> {
    match f {
        ArchiveFormat::Tar => "TAR"@,
        ArchiveFormat::TarGz => "TAR.GZ"@,
        ArchiveFormat::TarBz2 => "TAR.BZ2"@,
        ArchiveFormat::TarXz => "TAR.XZ"@,
        ArchiveFormat::TarLzma => "TAR.LZMA"@,
        ArchiveFormat::TarZst => "TAR.ZST"@,
        ArchiveFormat::Zip => "ZIP"@,
        ArchiveFormat::SevenZip => "7Z"@,
    }
}

/// The canonical file-name suffixes of each format, in the order they are
/// tried.
pub open spec fn spec_extensions(f: ArchiveFormat) -> Seq<Seq<char>> {
    match f {
        ArchiveFormat::Tar => seq![".tar"@],
        ArchiveFormat::TarGz => seq![".tar.gz"@, ".tgz"@, ".taz"@],
        ArchiveFormat::TarBz2 => seq![".tar.bz2"@, ".tbz"@, ".tbz2"@, ".tz2"@],
        ArchiveFormat::TarXz => seq![".tar.xz"@, ".txz"@],
        ArchiveFormat::TarLzma => seq![".tar.lzma"@, ".tlz"@],
        ArchiveFormat::TarZst => seq![".tar.zst"@, ".tzst"@],
        ArchiveFormat::Zip => seq![".zip"@],
        ArchiveFormat::SevenZip => seq![".7z"@],
    }
}

/// The trailing run of non-separator characters of a path.
pub open spec fn trailing_component(path: Seq<char>) -> Seq<char>
    decreases path.len(),
{
    if path.len() == 0 {
        Seq::<char>::empty()
    } else if path[path.len() - 1] == '/' {
        Seq::<char>::empty()
    } else {
        trailing_component(path.drop_last()).push(path.last())
    }
}

/// The path with its trailing separators dropped.
pub open spec fn strip_trailing_separators(path: Seq<char>) -> Seq<char>
    decreases path.len(),
{
    if path.len() > 0 && path[path.len() - 1] == '/' {
        strip_trailing_separators(path.drop_last())
    } else {
        path
    }
}

/// The file-name component of a `/`-separated path: trailing separators are
/// ignored, and what follows the last remaining separator is the name, or
/// the whole remainder when it holds no separator.
pub open spec fn path_file_name(path: Seq<char>) -> Seq<char> {
    trailing_component(strip_trailing_separators(path))
}

/// The tar-family formats: those whose container is tar, under any of the
/// streaming compressors.
pub open spec fn spec_is_tar_based(f: ArchiveFormat) -> bool {
    match f {
        ArchiveFormat::Zip => false,
        ArchiveFormat::SevenZip => false,
        _ => true,
    }
}

fn to_lower_char(c: char) -> (r: char)
    ensures
        r == lower_char(c),
{
    match c {
        'A' => 'a',
        'B' => 'b',
        'C' => 'c',
        'D' => 'd',
        'E' => 'e',
        'F' => 'f',
        'G' => 'g',
        'H' => 'h',
        'I' => 'i',
        'J' => 'j',
        'K' => 'k',
        'L' => 'l',
        'M' => 'm',
        'N' => 'n',
        'O' => 'o',
        'P' => 'p',
        'Q' => 'q',
        'R' => 'r',
        'S' => 's',
        'T' => 't',
        'U' => 'u',
        'V' => 'v',
        'W' => 'w',
        'X' => 'x',
        'Y' => 'y',
        'Z' => 'z',
        _ => c,
    }
}

/// Whether the lower-cased `s` ends with `suffix` (which is expected already
/// lower case).
fn ends_with_lower(s: &str, suffix: &str) -> (r: bool)
    ensures
        r == ends_with(lower(s@), suffix@),
{
    let n = s.unicode_len();
    let k = suffix.unicode_len();
    if k > n {
        return false;
    }
    let mut i: usize = 0;
    while i < k
        invariant
            n == s@.len(),
            k == suffix@.len(),
            k <= n,
            i <= k,
            forall|j: int| 0 <= j < i ==> lower_char(s@[n - k + j]) == suffix@[j],
        decreases k - i,
    {
        let c = s.get_char(n - k + i);
        let d = suffix.get_char(i);
        if to_lower_char(c) != d {
            proof {
                assert(lower(s@)[n - k + i] == lower_char(s@[n - k + i]));
                assert(!ends_with(lower(s@), suffix@)) by {
                    if ends_with(lower(s@), suffix@) {
                        assert(lower(s@).skip(n - k)[i as int] == suffix@[i as int]);
                    }
                }
            }
            return false;
        }
        i += 1;
    }
    proof {
        assert(lower(s@).skip(n - k) =~= suffix@) by {
            assert forall|j: int| 0 <= j < k implies lower(s@).skip(n - k)[j] == suffix@[j] by {
                assert(lower(s@)[n - k + j] == lower_char(s@[n - k + j]));
            }
        }
    }
    true
}

impl ArchiveFormat {
    /// Detect the archive format from a file name.
    pub fn detect_from_filename(filename: &str) -> (r: Option<Self>)
        ensures
            r == spec_detect(filename@),
    {
        if ends_with_lower(filename, ".tar.gz") || ends_with_lower(filename, ".tgz")
            || ends_with_lower(filename, ".taz") {
            Some(Self::TarGz)
        } else if ends_with_lower(filename, ".tar.bz2") || ends_with_lower(filename, ".tbz")
            || ends_with_lower(filename, ".tbz2") || ends_with_lower(filename, ".tz2") {
            Some(Self::TarBz2)
        } else if ends_with_lower(filename, ".tar.xz") || ends_with_lower(filename, ".txz") {
            Some(Self::TarXz)
        } else if ends_with_lower(filename, ".tar.lzma") || ends_with_lower(filename, ".tlz") {
            Some(Self::TarLzma)
        } else if ends_with_lower(filename, ".tar.zst") || ends_with_lower(filename, ".tzst") {
            Some(Self::TarZst)
        } else if ends_with_lower(filename, ".tar") {
            Some(Self::Tar)
        } else if ends_with_lower(filename, ".zip") {
            Some(Self::Zip)
        } else if ends_with_lower(filename, ".7z") {
            Some(Self::SevenZip)
        } else {
            None
        }
    }

    /// Detect the archive format from a file path, by its file-name
    /// component; trailing separators are ignored.
    pub fn detect_from_path(path: &str) -> (r: Option<Self>)
        ensures
            r == spec_detect(path_file_name(path@)),
    {
        let n = path.unicode_len();
        let mut end: usize = n;
        while end > 0 && path.get_char(end - 1) == '/'
            invariant
                n == path@.len(),
                end <= n,
                forall|j: int| end <= j < n ==> path@[j] == '/',
            decreases end,
        {
            end -= 1;
        }
        proof {
            lemma_strip_trailing_separators(path@, end as int);
        }
        let mut start: usize = end;
        while start > 0 && path.get_char(start - 1) != '/'
            invariant
                n == path@.len(),
                start <= end <= n,
                forall|j: int| start <= j < end ==> path@[j] != '/',
            decreases start,
        {
            start -= 1;
        }
        proof {
            let stripped = path@.take(end as int);
            assert forall|j: int| start <= j < stripped.len() implies stripped[j] != '/' by {
                assert(stripped[j] == path@[j]);
            }
            lemma_trailing_component_is_suffix(stripped, start as int);
        }
        let filename = path.substring_char(start, end);
        proof {
            assert(filename@ =~= path@.take(end as int).skip(start as int));
        }
        Self::detect_from_filename(filename)
    }

    /// Check if this is a tar-based format.
    pub fn is_tar_based(&self) -> (r: bool)
        ensures
            r == spec_is_tar_based(*self),
    {
        match self {
            Self::Tar | Self::TarGz | Self::TarBz2 | Self::TarXz | Self::TarLzma
            | Self::TarZst => true,
            Self::Zip | Self::SevenZip => false,
        }
    }

    /// Get a human-readable name for this format.
    pub fn name(&self) -> (r: &'static str)
        ensures
            r@ == spec_name(*self),
    {
        match self {
            Self::Tar => "TAR",
            Self::TarGz => "TAR.GZ",
            Self::TarBz2 => "TAR.BZ2",
            Self::TarXz => "TAR.XZ",
            Self::TarLzma => "TAR.LZMA",
            Self::TarZst => "TAR.ZST",
            Self::Zip => "ZIP",
            Self::SevenZip => "7Z",
        }
    }

    /// Get the typical file extensions for this format.
    pub fn extensions(&self) -> (r: &'static [&'static str])
        ensures
            r@.len() == spec_extensions(*self).len(),
            forall|i: int| 0 <= i < r@.len() ==> #[trigger] r@[i]@ == spec_extensions(*self)[i],
    {
        match self {
            Self::Tar => &[".tar"],
            Self::TarGz => &[".tar.gz", ".tgz", ".taz"],
            Self::TarBz2 => &[".tar.bz2", ".tbz", ".tbz2", ".tz2"],
            Self::TarXz => &[".tar.xz", ".txz"],
            Self::TarLzma => &[".tar.lzma", ".tlz"],
            Self::TarZst => &[".tar.zst", ".tzst"],
            Self::Zip => &[".zip"],
            Self::SevenZip => &[".7z"],
        }
    }
}

/// When every character from position `end` on is a separator, and `end`
/// either opens the path or follows a non-separator, stripping the trailing
/// separators leaves exactly the prefix of length `end`.
proof fn lemma_strip_trailing_separators(path: Seq<char>, end: int)
    requires
        0 <= end <= path.len(),
        forall|j: int| end <= j < path.len() ==> path[j] == '/',
        end == 0 || path[end - 1] != '/',
    ensures
        strip_trailing_separators(path) == path.take(end),
    decreases path.len(),
{
    if end == path.len() {
        assert(path.take(end) =~= path);
    } else {
        assert(path[path.len() - 1] == '/');
        lemma_strip_trailing_separators(path.drop_last(), end);
        assert(path.drop_last().take(end) =~= path.take(end));
    }
}

/// When every character from position `i` on is a non-separator, and `i`
/// either opens the path or follows a separator, the trailing component is
/// exactly the suffix that starts at `i`.
proof fn lemma_trailing_component_is_suffix(path: Seq<char>, i: int)
    requires
        0 <= i <= path.len(),
        forall|j: int| i <= j < path.len() ==> path[j] != '/',
        i == 0 || path[i - 1] == '/',
    ensures
        trailing_component(path) == path.skip(i),
    decreases path.len(),
{
    if path.len() == 0 {
        assert(path.skip(i) =~= trailing_component(path));
    } else if i == path.len() {
        assert(path[path.len() - 1] == '/');
        assert(path.skip(i) =~= Seq::<char>::empty());
    } else {
        assert(path[path.len() - 1] != '/');
        lemma_trailing_component_is_suffix(path.drop_last(), i);
        assert(path.skip(i) =~= path.drop_last().skip(i).push(path.last()));
    }
}

/// Lower-casing distributes over concatenation.
proof fn lemma_lower_concat(a: Seq<char>, b: Seq<char>)
    ensures
        lower(a + b) =~= lower(a) + lower(b),
{
    assert forall|j: int| 0 <= j < a.len() + b.len() implies lower(a + b)[j] == (lower(a) + lower(
        b,
    ))[j] by {
        assert(lower(a + b)[j] == lower_char((a + b)[j]));
        if j < a.len() {
            assert(lower(a)[j] == lower_char(a[j]));
        } else {
            assert(lower(b)[j - a.len()] == lower_char(b[j - a.len()]));
        }
    }
}

/// Whatever comes before it, a concatenation ends with its second part.
proof fn lemma_ends_with_concat(s: Seq<char>, e: Seq<char>)
    ensures
        ends_with(s + e, e),
{
    assert((s + e).skip(s.len() as int) =~= e);
}

/// `s + e` cannot end with a suffix that disagrees with `e` at distance `d`
/// from the end.
proof fn lemma_not_ends_with_concat(s: Seq<char>, e: Seq<char>, suffix: Seq<char>, d: int)
    requires
        1 <= d <= suffix.len(),
        d <= e.len(),
        e[e.len() - d] != suffix[suffix.len() - d],
    ensures
        !ends_with(s + e, suffix),
{
    if ends_with(s + e, suffix) {
        let t = s + e;
        assert(t.skip(t.len() - suffix.len())[suffix.len() - d] == suffix[suffix.len() - d]);
        assert(t.skip(t.len() - suffix.len())[suffix.len() - d] == t[t.len() - d]);
        assert(t[t.len() - d] == e[e.len() - d]);
    }
}

/// Detection priority is sound: appending any canonical extension of a format
/// to any stem whatsoever yields a name that detection maps to exactly that
/// format.  In particular no suffix of a more specific format is ever
/// shadowed by a less specific one: `a.tar.gz` resolves to the gzip variant,
/// never to plain tar.
pub proof fn lemma_extension_detected(f: ArchiveFormat, e: Seq<char>, stem: Seq<char>)
    requires
        spec_extensions(f).contains(e),
    ensures
        spec_detect(stem + e) == Some(f),
{
    reveal_strlit(".7z");
    reveal_strlit(".tar");
    reveal_strlit(".tar.bz2");
    reveal_strlit(".tar.gz");
    reveal_strlit(".tar.lzma");
    reveal_strlit(".tar.xz");
    reveal_strlit(".tar.zst");
    reveal_strlit(".taz");
    reveal_strlit(".tbz");
    reveal_strlit(".tbz2");
    reveal_strlit(".tgz");
    reveal_strlit(".tlz");
    reveal_strlit(".txz");
    reveal_strlit(".tz2");
    reveal_strlit(".tzst");
    reveal_strlit(".zip");
    lemma_lower_concat(stem, e);
    let ls = lower(stem);
    match f {
        ArchiveFormat::TarGz => {
            if e =~= ".tar.gz"@ {
                assert(lower(e) =~= e);
                lemma_ends_with_concat(ls, e);
            } else if e =~= ".tgz"@ {
                assert(lower(e) =~= e);
                lemma_ends_with_concat(ls, e);
            } else if e =~= ".taz"@ {
                assert(lower(e) =~= e);
                lemma_ends_with_concat(ls, e);
            } else {
                assert(false);
            }
        }
        ArchiveFormat::TarBz2 => {
            if e =~= ".tar.bz2"@ {
                assert(lower(e) =~= e);
                lemma_ends_with_concat(ls, e);
                lemma_not_ends_with_concat(ls, e, ".tar.gz"@, 1);
                lemma_not_ends_with_concat(ls, e, ".tgz"@, 1);
                lemma_not_ends_with_concat(ls, e, ".taz"@, 1);
            } else if e =~= ".tbz"@ {
                assert(lower(e) =~= e);
                lemma_ends_with_concat(ls, e);
                lemma_not_ends_with_concat(ls, e, ".tar.gz"@, 2);
                lemma_not_ends_with_concat(ls, e, ".tgz"@, 2);
                lemma_not_ends_with_concat(ls, e, ".taz"@, 2);
            } else if e =~= ".tbz2"@ {
                assert(lower(e) =~= e);
                lemma_ends_with_concat(ls, e);
                lemma_not_ends_with_concat(ls, e, ".tar.gz"@, 1);
                lemma_not_ends_with_concat(ls, e, ".tgz"@, 1);
                lemma_not_ends_with_concat(ls, e, ".taz"@, 1);
            } else if e =~= ".tz2"@ {
                assert(lower(e) =~= e);
                lemma_ends_with_concat(ls, e);
                lemma_not_ends_with_concat(ls, e, ".tar.gz"@, 1);
                lemma_not_ends_with_concat(ls, e, ".tgz"@, 1);
                lemma_not_ends_with_concat(ls, e, ".taz"@, 1);
            } else {
                assert(false);
            }
        }
        ArchiveFormat::TarXz => {
            if e =~= ".tar.xz"@ {
                assert(lower(e) =~= e);
                lemma_ends_with_concat(ls, e);
                lemma_not_ends_with_concat(ls, e, ".tar.gz"@, 2);
                lemma_not_ends_with_concat(ls, e, ".tgz"@, 2);
                lemma_not_ends_with_concat(ls, e, ".taz"@, 2);
                lemma_not_ends_with_concat(ls, e, ".tar.bz2"@, 1);
                lemma_not_ends_with_concat(ls, e, ".tbz"@, 2);
                lemma_not_ends_with_concat(ls, e, ".tbz2"@, 1);
                lemma_not_ends_with_concat(ls, e, ".tz2"@, 1);
            } else if e =~= ".txz"@ {
                assert(lower(e) =~= e);
                lemma_ends_with_concat(ls, e);
                lemma_not_ends_with_concat(ls, e, ".tar.gz"@, 2);
                lemma_not_ends_with_concat(ls, e, ".tgz"@, 2);
                lemma_not_ends_with_concat(ls, e, ".taz"@, 2);
                lemma_not_ends_with_concat(ls, e, ".tar.bz2"@, 1);
                lemma_not_ends_with_concat(ls, e, ".tbz"@, 2);
                lemma_not_ends_with_concat(ls, e, ".tbz2"@, 1);
                lemma_not_ends_with_concat(ls, e, ".tz2"@, 1);
            } else {
                assert(false);
            }
        }
        ArchiveFormat::TarLzma => {
            if e =~= ".tar.lzma"@ {
                assert(lower(e) =~= e);
                lemma_ends_with_concat(ls, e);
                lemma_not_ends_with_concat(ls, e, ".tar.gz"@, 1);
                lemma_not_ends_with_concat(ls, e, ".tgz"@, 1);
                lemma_not_ends_with_concat(ls, e, ".taz"@, 1);
                lemma_not_ends_with_concat(ls, e, ".tar.bz2"@, 1);
                lemma_not_ends_with_concat(ls, e, ".tbz"@, 1);
                lemma_not_ends_with_concat(ls, e, ".tbz2"@, 1);
                lemma_not_ends_with_concat(ls, e, ".tz2"@, 1);
                lemma_not_ends_with_concat(ls, e, ".tar.xz"@, 1);
                lemma_not_ends_with_concat(ls, e, ".txz"@, 1);
            } else if e =~= ".tlz"@ {
                assert(lower(e) =~= e);
                lemma_ends_with_concat(ls, e);
                lemma_not_ends_with_concat(ls, e, ".tar.gz"@, 2);
                lemma_not_ends_with_concat(ls, e, ".tgz"@, 2);
                lemma_not_ends_with_concat(ls, e, ".taz"@, 2);
                lemma_not_ends_with_concat(ls, e, ".tar.bz2"@, 1);
                lemma_not_ends_with_concat(ls, e, ".tbz"@, 2);
                lemma_not_ends_with_concat(ls, e, ".tbz2"@, 1);
                lemma_not_ends_with_concat(ls, e, ".tz2"@, 1);
                lemma_not_ends_with_concat(ls, e, ".tar.xz"@, 2);
                lemma_not_ends_with_concat(ls, e, ".txz"@, 2);
            } else {
                assert(false);
            }
        }
        ArchiveFormat::TarZst => {
            if e =~= ".tar.zst"@ {
                assert(lower(e) =~= e);
                lemma_ends_with_concat(ls, e);
                lemma_not_ends_with_concat(ls, e, ".tar.gz"@, 1);
                lemma_not_ends_with_concat(ls, e, ".tgz"@, 1);
                lemma_not_ends_with_concat(ls, e, ".taz"@, 1);
                lemma_not_ends_with_concat(ls, e, ".tar.bz2"@, 1);
                lemma_not_ends_with_concat(ls, e, ".tbz"@, 1);
                lemma_not_ends_with_concat(ls, e, ".tbz2"@, 1);
                lemma_not_ends_with_concat(ls, e, ".tz2"@, 1);
                lemma_not_ends_with_concat(ls, e, ".tar.xz"@, 1);
                lemma_not_ends_with_concat(ls, e, ".txz"@, 1);
                lemma_not_ends_with_concat(ls, e, ".tar.lzma"@, 1);
                lemma_not_ends_with_concat(ls, e, ".tlz"@, 1);
            } else if e =~= ".tzst"@ {
                assert(lower(e) =~= e);
                lemma_ends_with_concat(ls, e);
                lemma_not_ends_with_concat(ls, e, ".tar.gz"@, 1);
                lemma_not_ends_with_concat(ls, e, ".tgz"@, 1);
                lemma_not_ends_with_concat(ls, e, ".taz"@, 1);
                lemma_not_ends_with_concat(ls, e, ".tar.bz2"@, 1);
                lemma_not_ends_with_concat(ls, e, ".tbz"@, 1);
                lemma_not_ends_with_concat(ls, e, ".tbz2"@, 1);
                lemma_not_ends_with_concat(ls, e, ".tz2"@, 1);
                lemma_not_ends_with_concat(ls, e, ".tar.xz"@, 1);
                lemma_not_ends_with_concat(ls, e, ".txz"@, 1);
                lemma_not_ends_with_concat(ls, e, ".tar.lzma"@, 1);
                lemma_not_ends_with_concat(ls, e, ".tlz"@, 1);
            } else {
                assert(false);
            }
        }
        ArchiveFormat::Tar => {
            if e =~= ".tar"@ {
                assert(lower(e) =~= e);
                lemma_ends_with_concat(ls, e);
                lemma_not_ends_with_concat(ls, e, ".tar.gz"@, 1);
                lemma_not_ends_with_concat(ls, e, ".tgz"@, 1);
                lemma_not_ends_with_concat(ls, e, ".taz"@, 1);
                lemma_not_ends_with_concat(ls, e, ".tar.bz2"@, 1);
                lemma_not_ends_with_concat(ls, e, ".tbz"@, 1);
                lemma_not_ends_with_concat(ls, e, ".tbz2"@, 1);
                lemma_not_ends_with_concat(ls, e, ".tz2"@, 1);
                lemma_not_ends_with_concat(ls, e, ".tar.xz"@, 1);
                lemma_not_ends_with_concat(ls, e, ".txz"@, 1);
                lemma_not_ends_with_concat(ls, e, ".tar.lzma"@, 1);
                lemma_not_ends_with_concat(ls, e, ".tlz"@, 1);
                lemma_not_ends_with_concat(ls, e, ".tar.zst"@, 1);
                lemma_not_ends_with_concat(ls, e, ".tzst"@, 1);
            } else {
                assert(false);
            }
        }
        ArchiveFormat::Zip => {
            if e =~= ".zip"@ {
                assert(lower(e) =~= e);
                lemma_ends_with_concat(ls, e);
                lemma_not_ends_with_concat(ls, e, ".tar.gz"@, 1);
                lemma_not_ends_with_concat(ls, e, ".tgz"@, 1);
                lemma_not_ends_with_concat(ls, e, ".taz"@, 1);
                lemma_not_ends_with_concat(ls, e, ".tar.bz2"@, 1);
                lemma_not_ends_with_concat(ls, e, ".tbz"@, 1);
                lemma_not_ends_with_concat(ls, e, ".tbz2"@, 1);
                lemma_not_ends_with_concat(ls, e, ".tz2"@, 1);
                lemma_not_ends_with_concat(ls, e, ".tar.xz"@, 1);
                lemma_not_ends_with_concat(ls, e, ".txz"@, 1);
                lemma_not_ends_with_concat(ls, e, ".tar.lzma"@, 1);
                lemma_not_ends_with_concat(ls, e, ".tlz"@, 1);
                lemma_not_ends_with_concat(ls, e, ".tar.zst"@, 1);
                lemma_not_ends_with_concat(ls, e, ".tzst"@, 1);
                lemma_not_ends_with_concat(ls, e, ".tar"@, 1);
            } else {
                assert(false);
            }
        }
        ArchiveFormat::SevenZip => {
            if e =~= ".7z"@ {
                assert(lower(e) =~= e);
                lemma_ends_with_concat(ls, e);
                lemma_not_ends_with_concat(ls, e, ".tar.gz"@, 2);
                lemma_not_ends_with_concat(ls, e, ".tgz"@, 2);
                lemma_not_ends_with_concat(ls, e, ".taz"@, 2);
                lemma_not_ends_with_concat(ls, e, ".tar.bz2"@, 1);
                lemma_not_ends_with_concat(ls, e, ".tbz"@, 2);
                lemma_not_ends_with_concat(ls, e, ".tbz2"@, 1);
                lemma_not_ends_with_concat(ls, e, ".tz2"@, 1);
                lemma_not_ends_with_concat(ls, e, ".tar.xz"@, 2);
                lemma_not_ends_with_concat(ls, e, ".txz"@, 2);
                lemma_not_ends_with_concat(ls, e, ".tar.lzma"@, 1);
                lemma_not_ends_with_concat(ls, e, ".tlz"@, 2);
                lemma_not_ends_with_concat(ls, e, ".tar.zst"@, 1);
                lemma_not_ends_with_concat(ls, e, ".tzst"@, 1);
                lemma_not_ends_with_concat(ls, e, ".tar"@, 1);
                lemma_not_ends_with_concat(ls, e, ".zip"@, 1);
            } else {
                assert(false);
            }
        }
    }
}

/// Detection is case-insensitive: two file names that agree up to letter
/// case map to the same format.
pub proof fn lemma_detect_respects_case(a: Seq<char>, b: Seq<char>)
    requires
        lower(a) == lower(b),
    ensures
        spec_detect(a) == spec_detect(b),
{
    lemma_detect_case_insensitive(a);
    lemma_detect_case_insensitive(b);
}

/// Detection is case-insensitive: a file name and its lower-cased form map to
/// the same format.
pub proof fn lemma_detect_case_insensitive(filename: Seq<char>)
    ensures
        spec_detect(lower(filename)) == spec_detect(filename),
{
    assert(lower(lower(filename)) =~= lower(filename)) by {
        assert forall|j: int| 0 <= j < filename.len() implies lower(lower(filename))[j] == lower(
            filename,
        )[j] by {
            assert(lower(filename)[j] == lower_char(filename[j]));
            assert(lower(lower(filename))[j] == lower_char(lower_char(filename[j])));
        }
    }
}

} // verus!
