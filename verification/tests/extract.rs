use std::io::{Cursor, Write};

use anne::book::{Book, ReadError};
use anne::container::open_package_document;
use anne::filetypes::Filetype;
use anne::formatting::default_fmt;
use anne::package::parse_package_metadata;
use zip::write::{SimpleFileOptions, ZipWriter};
use zip::CompressionMethod;

fn build_zip(entries: &[(&str, &[u8])]) -> Vec<u8> {
    let mut w = ZipWriter::new(Cursor::new(Vec::new()));
    let opts = SimpleFileOptions::default().compression_method(CompressionMethod::Stored);
    for (name, data) in entries {
        w.start_file(*name, opts).unwrap();
        w.write_all(data).unwrap();
    }
    w.finish().unwrap().into_inner()
}

const DOC: &[u8] =
    b"<dc:title>Dune</dc:title><dc:language>en</dc:language>\
      <dc:identifier>id1</dc:identifier><dc:creator>Frank Herbert</dc:creator>";

#[test]
fn parse_fragment_fills_mandatory_fields() {
    let doc = b"<dc:title>T</dc:title><dc:language>en</dc:language>\
                <dc:identifier>id1</dc:identifier>";
    let meta = parse_package_metadata(doc).unwrap();
    assert_eq!(meta.title, "T");
    assert_eq!(meta.language, "en");
    assert_eq!(meta.identifier, "id1");
    assert_eq!(meta.creator, None);
    assert_eq!(meta.contributor, None);
    assert_eq!(meta.publisher, None);
    assert_eq!(meta.subject, None);
    assert_eq!(meta.description, None);
    assert_eq!(meta.date, None);
    assert_eq!(meta.type_tag, None);
    assert_eq!(meta.format, None);
    assert_eq!(meta.source, None);
    assert_eq!(meta.relation, None);
    assert_eq!(meta.coverage, None);
    assert_eq!(meta.rights, None);
}

#[test]
fn parse_truncated_document_terminates_with_partial_record() {
    let meta = parse_package_metadata(b"<dc:title>T").unwrap();
    assert_eq!(meta.title, "T");
    assert_eq!(meta.language, "");
    assert_eq!(meta.creator, None);
}

#[test]
fn parse_empty_document_yields_fresh_record() {
    let meta = parse_package_metadata(b"").unwrap();
    assert_eq!(meta.title, "");
    assert_eq!(meta.language, "");
    assert_eq!(meta.identifier, "");
    assert_eq!(meta.creator, None);
}

#[test]
fn parse_any_end_tag_clears_the_register() {
    let doc = b"<dc:title>A<x></x>B</dc:title>";
    let meta = parse_package_metadata(doc).unwrap();
    assert_eq!(meta.title, "A");
}

#[test]
fn parse_type_element_fills_type_field() {
    let doc = b"<dc:type>novel</dc:type>";
    let meta = parse_package_metadata(doc).unwrap();
    assert_eq!(meta.type_tag.as_deref(), Some("novel"));
    let none = parse_package_metadata(b"<dc:type_tag>x</dc:type_tag>").unwrap();
    assert_eq!(none.type_tag, None);
}

#[test]
fn parse_repeated_element_overwrites() {
    let doc = b"<dc:title>A</dc:title><dc:title>B</dc:title>";
    let meta = parse_package_metadata(doc).unwrap();
    assert_eq!(meta.title, "B");
}

#[test]
fn parse_mismatched_end_tag_is_malformed() {
    let r = parse_package_metadata(b"<a></b>");
    assert_eq!(r.unwrap_err(), ReadError::MalformedDocument);
}

#[test]
fn scan_returns_first_opf_entry() {
    let first = b"<dc:title>First</dc:title>";
    let second = b"<dc:title>Second</dc:title>";
    let bytes = build_zip(&[
        ("mimetype", b"application/epub+zip"),
        ("b.opf", first),
        ("a.opf", second),
    ]);
    let doc = open_package_document(&bytes).unwrap();
    assert_eq!(doc, first.to_vec());
}

#[test]
fn scan_without_opf_entry_is_entry_missing() {
    let bytes = build_zip(&[("mimetype", b"application/epub+zip"), ("x.txt", b"hi")]);
    let r = open_package_document(&bytes);
    assert_eq!(r.unwrap_err(), ReadError::ContainerEntryMissing);
}

#[test]
fn scan_garbage_is_open_failure() {
    let r = open_package_document(b"this is not a zip archive");
    assert_eq!(r.unwrap_err(), ReadError::ContainerOpenFailure);
}

#[test]
fn read_metadata_dispatches_by_filetype() {
    let bytes = build_zip(&[("content.opf", DOC)]);
    let meta = Filetype::EPub.read_metadata(&bytes).unwrap();
    assert_eq!(meta.title, "Dune");
    assert_eq!(
        Filetype::DjVu.read_metadata(&bytes).unwrap_err(),
        ReadError::UnimplementedFiletype
    );
    assert_eq!(
        Filetype::Unknown.read_metadata(&bytes).unwrap_err(),
        ReadError::UnrecognizedFiletype
    );
}

#[test]
fn book_from_path_end_to_end() {
    let bytes = build_zip(&[("content.opf", DOC)]);
    let book = Book::from_path("shelf/Dune.epub", &bytes).unwrap();
    assert_eq!(book.ft, Filetype::EPub);
    assert_eq!(book.path, "shelf/Dune.epub");
    assert_eq!(book.meta.title, "Dune");
    assert_eq!(book.meta.creator.as_deref(), Some("Frank Herbert"));
    let out = default_fmt().format_book(&book).unwrap();
    assert_eq!(out, "Dune - Frank Herbert");
}

#[test]
fn book_from_path_error_taxonomy() {
    let bytes = build_zip(&[("content.opf", DOC)]);
    assert_eq!(
        Book::from_path("noextension", &bytes).unwrap_err(),
        ReadError::NoExt
    );
    assert_eq!(
        Book::from_path("a.pdf", &bytes).unwrap_err(),
        ReadError::UnrecognizedFiletype
    );
    assert_eq!(
        Book::from_path("a.djvu", &bytes).unwrap_err(),
        ReadError::UnimplementedFiletype
    );
    assert_eq!(
        Book::from_path("a.cbz", &bytes).unwrap_err(),
        ReadError::UnimplementedFiletype
    );
    assert_eq!(
        Book::from_path("a.epub", b"garbage").unwrap_err(),
        ReadError::ContainerOpenFailure
    );
    let empty = build_zip(&[("x.txt", b"hi")]);
    assert_eq!(
        Book::from_path("a.epub", &empty).unwrap_err(),
        ReadError::ContainerEntryMissing
    );
    let bad = build_zip(&[("c.opf", b"<a></b>")]);
    assert_eq!(
        Book::from_path("a.epub", &bad).unwrap_err(),
        ReadError::MalformedDocument
    );
}
