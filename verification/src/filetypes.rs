//! Classification of a file path into a container format, and dispatch of
//! metadata extraction by format.
//!
//! Classification is pure: the extension of the path (the text after the
//! last `.` of the final path component, as long as that `.` is neither
//! the component's first character nor preceded by nothing) is folded to
//! ASCII lower case and looked up in a fixed table. Anything else,
//! including a missing extension, is [`Filetype::Unknown`].

use vstd::prelude::*;

use crate::book::{meta_view, Metadata, ReadError};
use crate::container::{
    first_package_entry, has_package_entry, open_package_document, package_document_of,
    scan_succeeds, zip_entry_ok, zip_openable,
};
use crate::package::{parse_package_metadata, parsed_record, xml_ok};
use crate::strutil::{eq_ignore_ascii, lower_seq};

verus! {

/// The closed set of container formats the classifier knows.
#[derive(Debug, Copy, Clone, PartialEq, Eq, Structural)]
pub enum Filetype {
    EPub,
    DjVu,
    Comic(ComicCompression),
    Unknown,
}

/// The archive flavour of a comic-book container.
#[derive(Debug, Copy, Clone, PartialEq, Eq, Structural)]
pub enum ComicCompression {
    Rar,
    Zip,
    Tar,
    SevenZ,
}

/// The index of the last occurrence of `c` in `p` before position `i`,
/// or `-1` when there is none.
pub open spec fn last_pos(p: Seq<char>, c: char, i: int) -> int
    decreases i,
{
    if i <= 0 {
        -1
    } else if p[i - 1] == c {
        i - 1
    } else {
        last_pos(p, c, i - 1)
    }
}

/// `last_pos` stays within bounds, and points at the character sought.
proof fn lemma_last_pos_bounds(p: Seq<char>, c: char, i: int)
    requires
        i >= 0,
    ensures
        -1 <= last_pos(p, c, i) < i,
        last_pos(p, c, i) >= 0 ==> p[last_pos(p, c, i)] == c,
    decreases i,
{
    if i > 0 && p[i - 1] != c {
        lemma_last_pos_bounds(p, c, i - 1);
    }
}

/// The extension of a path: the text after the last `.` of the final
/// `/`-separated component, provided that `.` is not the component's
/// first character. A component such as `.hidden` has no extension; a
/// trailing `.` yields the empty extension.
pub open spec fn ext_of(p: Seq<char>) -> Option<Seq<char>> {
    let s = last_pos(p, '/', p.len() as int);
    let d = last_pos(p, '.', p.len() as int);
    if d >= s + 2 {
        Some(p.subrange(d + 1, p.len() as int))
    } else {
        None
    }
}

/// The classification table, applied to an ASCII-lower-cased extension.
pub open spec fn classify_ext(e: Seq<char>) -> Filetype {
    if lower_seq(e) == lower_seq("epub"@) {
        Filetype::EPub
    } else if lower_seq(e) == lower_seq("djvu"@) {
        Filetype::DjVu
    } else if lower_seq(e) == lower_seq("cbz"@) {
        Filetype::Comic(ComicCompression::Zip)
    } else if lower_seq(e) == lower_seq("cbr"@) {
        Filetype::Comic(ComicCompression::Rar)
    } else if lower_seq(e) == lower_seq("cb7"@) {
        Filetype::Comic(ComicCompression::SevenZ)
    } else if lower_seq(e) == lower_seq("cbt"@) {
        Filetype::Comic(ComicCompression::Tar)
    } else {
        Filetype::Unknown
    }
}

/// What classification returns on a whole path.
pub open spec fn classify_spec(p: Seq<char>) -> Filetype {
    match ext_of(p) {
        Some(e) => classify_ext(e),
        None => Filetype::Unknown,
    }
}

/// The extension of `path`, as [`ext_of`] defines it.
pub fn extension_of(path: &str) -> (r: Option<&str>)
    ensures
        match r {
            Some(e) => ext_of(path@) == Some(e@),
            None => ext_of(path@) is None,
        },
{
    let n = path.unicode_len();
    let ghost p = path@;
    let mut i: usize = n;
    let mut dot: Option<usize> = None;
    let mut slash: Option<usize> = None;
    while i > 0 && slash.is_none()
        invariant
            n == p.len(),
            i <= n,
            p == path@,
            match slash {
                Some(s) => last_pos(p, '/', n as int) == s && i == s && s < n,
                None => last_pos(p, '/', n as int) == last_pos(p, '/', i as int),
            },
            match dot {
                Some(d) => last_pos(p, '.', n as int) == d && i <= d && d < n,
                None => last_pos(p, '.', n as int) == last_pos(p, '.', i as int),
            },
        decreases i,
    {
        i = i - 1;
        let c = path.get_char(i);
        if c == '/' {
            slash = Some(i);
        } else if c == '.' && dot.is_none() {
            dot = Some(i);
        }
    }
    proof {
        lemma_last_pos_bounds(p, '/', i as int);
        lemma_last_pos_bounds(p, '.', i as int);
    }
    if let Some(d) = dot {
        let start: usize = match slash {
            Some(s) => s + 1,
            None => 0,
        };
        if d > start {
            return Some(path.substring_char(d + 1, n));
        }
    }
    None
}

impl Filetype {
    /// Classifies a path by its extension, ASCII-case-insensitively:
    /// `epub`, `djvu`, `cbz`, `cbr`, `cb7`, `cbt` map to their formats;
    /// anything else, or a path without an extension, is `Unknown`.
    pub fn from_path(path: &str) -> (r: Filetype)
        ensures
            r == classify_spec(path@),
    {
        match extension_of(path) {
            None => Filetype::Unknown,
            Some(e) => {
                if eq_ignore_ascii(e, "epub") {
                    Filetype::EPub
                } else if eq_ignore_ascii(e, "djvu") {
                    Filetype::DjVu
                } else if eq_ignore_ascii(e, "cbz") {
                    Filetype::Comic(ComicCompression::Zip)
                } else if eq_ignore_ascii(e, "cbr") {
                    Filetype::Comic(ComicCompression::Rar)
                } else if eq_ignore_ascii(e, "cb7") {
                    Filetype::Comic(ComicCompression::SevenZ)
                } else if eq_ignore_ascii(e, "cbt") {
                    Filetype::Comic(ComicCompression::Tar)
                } else {
                    Filetype::Unknown
                }
            },
        }
    }
}

/// Everything EPub extraction promises of its result, over the archive
/// bytes alone. The five outcomes partition the inputs:
///
/// - success comes exactly when the scan succeeds ([`scan_succeeds`]:
///   the bytes open, a `.opf` entry exists, the first one decompresses)
///   and its bytes tokenize cleanly; the record is then exactly what the
///   parser's state machine accumulates over that first `.opf` entry;
/// - `ContainerOpenFailure` comes exactly when the bytes do not open as
///   a zip archive, or the chosen entry does not decompress;
/// - `ContainerEntryMissing` comes exactly when the archive opens but no
///   entry name carries the `.opf` extension;
/// - `MalformedDocument` comes exactly when the scan succeeds but the
///   document fails at the tokenizer level.
pub open spec fn epub_result(a: Seq<u8>, r: Result<Metadata, ReadError>) -> bool {
    &&& (r is Ok <==> scan_succeeds(a) && xml_ok(package_document_of(a)))
    &&& (r matches Ok(m) ==> meta_view(m) == parsed_record(package_document_of(a)))
    &&& (r == Err::<Metadata, ReadError>(ReadError::ContainerOpenFailure) <==> !zip_openable(a)
        || (has_package_entry(a) && !zip_entry_ok(a, first_package_entry(a))))
    &&& (r == Err::<Metadata, ReadError>(ReadError::ContainerEntryMissing) <==> zip_openable(a)
        && !has_package_entry(a))
    &&& (r == Err::<Metadata, ReadError>(ReadError::MalformedDocument) <==> scan_succeeds(a)
        && !xml_ok(package_document_of(a)))
}

/// EPub extraction: scans the zip archive for its first `.opf` entry and
/// runs the package-document state machine over it.
pub fn epub_read_metadata(archive: &[u8]) -> (r: Result<Metadata, ReadError>)
    ensures
        epub_result(archive@, r),
{
    let doc = match open_package_document(archive) {
        Ok(d) => d,
        Err(e) => {
            return Err(e);
        },
    };
    match parse_package_metadata(doc.as_slice()) {
        Ok(m) => Ok(m),
        Err(e) => Err(e),
    }
}

impl Filetype {
    /// Extracts the metadata record from the raw bytes of a container of
    /// this format. Only the EPub path is implemented: DjVu and comic
    /// containers are classified but fail fast with
    /// `UnimplementedFiletype` rather than silently returning an empty
    /// record, and `Unknown` fails with `UnrecognizedFiletype`.
    pub fn read_metadata(self, archive: &[u8]) -> (r: Result<Metadata, ReadError>)
        ensures
            self == Filetype::EPub ==> epub_result(archive@, r),
            self == Filetype::DjVu || (self matches Filetype::Comic(_)) ==> r == Err::<
                Metadata,
                ReadError,
            >(ReadError::UnimplementedFiletype),
            self == Filetype::Unknown ==> r == Err::<Metadata, ReadError>(
                ReadError::UnrecognizedFiletype,
            ),
    {
        match self {
            Filetype::EPub => epub_read_metadata(archive),
            Filetype::DjVu => Err(ReadError::UnimplementedFiletype),
            Filetype::Comic(_) => Err(ReadError::UnimplementedFiletype),
            Filetype::Unknown => Err(ReadError::UnrecognizedFiletype),
        }
    }
}

/// Classification looks only at the case-folded extension: two paths
/// whose extensions agree after ASCII lower-casing classify identically,
/// whatever letter case either was written in.
pub proof fn lemma_classify_case_insensitive(p1: Seq<char>, p2: Seq<char>)
    requires
        ext_of(p1) is Some,
        ext_of(p2) is Some,
        lower_seq(ext_of(p1).unwrap()) == lower_seq(ext_of(p2).unwrap()),
    ensures
        classify_spec(p1) == classify_spec(p2),
{
}

/// A path without an extension always classifies as `Unknown`.
pub proof fn lemma_no_extension_unknown(p: Seq<char>)
    requires
        ext_of(p) is None,
    ensures
        classify_spec(p) == Filetype::Unknown,
{
}

} // verus!
