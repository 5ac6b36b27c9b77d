//! Scanning a zip container for its package document.
//!
//! The archive is decoded by the `zip` crate behind a handful of trusted
//! wrappers; the scan itself — walk the entries in archive order and take
//! the first whose name carries the package-document extension `.opf` —
//! is verified against the entry table those wrappers expose. Everything
//! the decoder computes is deterministic in the archive bytes (the reader
//! is an in-memory cursor), so the whole scan is specified over the bytes
//! alone: whether they open, which entries they hold, and whether a given
//! entry decompresses.

use vstd::prelude::*;

use crate::book::ReadError;
use crate::filetypes::{ext_of, extension_of};
use crate::strutil::str_eq;
use std::io::Cursor;
use std::io::Read;
use zip::read::ZipArchive;

verus! {

#[verifier::external_type_specification]
#[verifier::external_body]
#[verifier::reject_recursive_types(T)]
pub struct ExCursor<T>(Cursor<T>);

#[verifier::external_type_specification]
#[verifier::external_body]
#[verifier::reject_recursive_types(R)]
pub struct ExZipArchive<R>(ZipArchive<R>);

/// Whether these bytes open as a zip archive. Opening parses the central
/// directory and depends on the bytes alone.
pub uninterp spec fn zip_openable(archive: Seq<u8>) -> bool;

/// The entry table the decoder yields for these bytes, in table order
/// (central-directory order; entries with duplicate names collapse into
/// the table's single slot for that name), each entry as the pair of its
/// stored name and its decompressed bytes.
pub uninterp spec fn zip_entries_of(archive: Seq<u8>) -> Seq<(Seq<char>, Seq<u8>)>;

/// Whether the entry at an index of these bytes decompresses without
/// error. Decompression over an in-memory cursor is deterministic, so
/// this depends on the bytes and the index alone; it is false for an
/// unsupported compression method, an encrypted entry, or corrupt entry
/// data.
pub uninterp spec fn zip_entry_ok(archive: Seq<u8>, i: int) -> bool;

/// An open archive, tracking the bytes it was opened from.
pub struct PackageArchive {
    inner: ZipArchive<Cursor<Vec<u8>>>,
    src: Ghost<Seq<u8>>,
}

/// Relies on `zip::read::ZipArchive::new` over an in-memory cursor: it
/// parses the central directory, deterministically for fixed bytes, and
/// fails exactly when the bytes are not a readable zip archive.
#[verifier::external_body]
fn zip_open_raw(archive: &[u8]) -> (r: Option<ZipArchive<Cursor<Vec<u8>>>>)
    ensures
        r is Some <==> zip_openable(archive@),
{
    ZipArchive::new(Cursor::new(archive.to_vec())).ok()
}

/// Opens the bytes as a zip archive; succeeds exactly on openable bytes.
fn archive_open(archive: &[u8]) -> (r: Option<PackageArchive>)
    ensures
        r is Some <==> zip_openable(archive@),
        r matches Some(a) ==> a.src@ == archive@,
{
    match zip_open_raw(archive) {
        Some(z) => Some(PackageArchive { inner: z, src: Ghost(archive@) }),
        None => None,
    }
}

/// Relies on `ZipArchive::len`: the number of entries in the central
/// directory.
#[verifier::external_body]
fn archive_len(a: &PackageArchive) -> (n: usize)
    ensures
        n == zip_entries_of(a.src@).len(),
{
    a.inner.len()
}

/// Relies on `ZipArchive::name_for_index`: the stored name of the entry
/// at an index, present for every index below the entry count.
#[verifier::external_body]
fn archive_entry_name(a: &PackageArchive, i: usize) -> (r: Option<String>)
    ensures
        r matches Some(s) ==> i < zip_entries_of(a.src@).len() && s@ == zip_entries_of(
            a.src@,
        )[i as int].0,
        r is None ==> i >= zip_entries_of(a.src@).len(),
{
    a.inner.name_for_index(i).map(|s| s.to_string())
}

/// Relies on `ZipArchive::by_index` and `Read::read_to_end`: the
/// decompressed bytes of the entry at an index. Both run over the
/// in-memory cursor, so success is [`zip_entry_ok`], a function of the
/// archive bytes and the index.
#[verifier::external_body]
fn archive_entry_data(a: &mut PackageArchive, i: usize) -> (r: Option<Vec<u8>>)
    requires
        i < zip_entries_of(old(a).src@).len(),
    ensures
        final(a).src@ == old(a).src@,
        r is Some <==> zip_entry_ok(old(a).src@, i as int),
        r matches Some(d) ==> d@ == zip_entries_of(old(a).src@)[i as int].1,
{
    match a.inner.by_index(i) {
        Ok(mut f) => {
            let mut buf = Vec::new();
            match f.read_to_end(&mut buf) {
                Ok(_) => Some(buf),
                Err(_) => None,
            }
        },
        Err(_) => None,
    }
}

/// Whether an entry name carries the package-document extension `.opf`
/// (compared exactly; package documents are publisher-named, so lookup
/// is by suffix, never by a fixed file name).
pub open spec fn is_package_name(n: Seq<char>) -> bool {
    ext_of(n) == Some("opf"@)
}

/// Decides [`is_package_name`] on an entry name.
fn has_package_ext(name: &str) -> (r: bool)
    ensures
        r == is_package_name(name@),
{
    match extension_of(name) {
        Some(e) => str_eq(e, "opf"),
        None => false,
    }
}

/// The index of the first package-document entry at or after `i`, or the
/// entry count when there is none.
pub open spec fn first_package_idx(es: Seq<(Seq<char>, Seq<u8>)>, i: int) -> int
    decreases es.len() - i,
{
    if i < 0 || i >= es.len() {
        es.len() as int
    } else if is_package_name(es[i].0) {
        i
    } else {
        first_package_idx(es, i + 1)
    }
}

/// The index of the archive's first package-document entry (the entry
/// count when there is none).
pub open spec fn first_package_entry(archive: Seq<u8>) -> int {
    first_package_idx(zip_entries_of(archive), 0)
}

/// Whether the archive holds any package-document entry.
pub open spec fn has_package_entry(archive: Seq<u8>) -> bool {
    first_package_entry(archive) < zip_entries_of(archive).len()
}

/// The bytes of the archive's first package-document entry, in archive
/// order — the documented tie-break when several candidates exist.
pub open spec fn package_document_of(archive: Seq<u8>) -> Seq<u8> {
    zip_entries_of(archive)[first_package_entry(archive)].1
}

/// Whether the whole scan succeeds on these bytes: they open, a
/// package-document entry exists, and the first one decompresses.
pub open spec fn scan_succeeds(archive: Seq<u8>) -> bool {
    &&& zip_openable(archive)
    &&& has_package_entry(archive)
    &&& zip_entry_ok(archive, first_package_entry(archive))
}

/// Opens a zip archive and returns the decompressed bytes of the first
/// entry, in archive order, whose name has extension `.opf`.
///
/// Succeeds exactly when [`scan_succeeds`]: `ContainerOpenFailure` comes
/// exactly when the bytes do not open as a zip archive or the chosen
/// entry does not decompress, and `ContainerEntryMissing` exactly when
/// the archive opens but holds no `.opf`-suffixed entry.
pub fn open_package_document(archive: &[u8]) -> (r: Result<Vec<u8>, ReadError>)
    ensures
        r is Ok <==> scan_succeeds(archive@),
        r matches Ok(d) ==> d@ == package_document_of(archive@),
        r == Err::<Vec<u8>, ReadError>(ReadError::ContainerEntryMissing) <==> zip_openable(archive@)
            && !has_package_entry(archive@),
        r == Err::<Vec<u8>, ReadError>(ReadError::ContainerOpenFailure) <==> !zip_openable(archive@)
            || (has_package_entry(archive@) && !zip_entry_ok(
            archive@,
            first_package_entry(archive@),
        )),
{
    let mut a = match archive_open(archive) {
        Some(a) => a,
        None => {
            return Err(ReadError::ContainerOpenFailure);
        },
    };
    let n = archive_len(&a);
    let ghost es = zip_entries_of(archive@);
    let mut j: usize = 0;
    while j < n
        invariant
            zip_openable(archive@),
            es == zip_entries_of(archive@),
            a.src@ == archive@,
            n == es.len(),
            j <= n,
            first_package_idx(es, 0) == first_package_idx(es, j as int),
        decreases n - j,
    {
        let name = match archive_entry_name(&a, j) {
            Some(s) => s,
            None => {
                return Err(ReadError::ContainerOpenFailure);
            },
        };
        if has_package_ext(name.as_str()) {
            proof {
                assert(first_package_idx(es, j as int) == j);
            }
            match archive_entry_data(&mut a, j) {
                Some(d) => {
                    return Ok(d);
                },
                None => {
                    return Err(ReadError::ContainerOpenFailure);
                },
            }
        }
        proof {
            assert(first_package_idx(es, j as int) == first_package_idx(es, j + 1));
        }
        j = j + 1;
    }
    Err(ReadError::ContainerEntryMissing)
}

} // verus!
