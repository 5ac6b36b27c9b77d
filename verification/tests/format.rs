use anne::book::{Book, Metadata, MetadataField};
use anne::filetypes::Filetype;
use anne::formatting::{default_fmt, find_fmter, FmtStr};

fn record() -> Metadata {
    Metadata {
        title: String::from("Dune"),
        language: String::from("en"),
        identifier: String::from("id1"),
        creator: Some(String::from("Frank Herbert")),
        contributor: None,
        publisher: None,
        subject: None,
        description: None,
        date: None,
        type_tag: None,
        format: None,
        source: None,
        relation: None,
        coverage: None,
        rights: None,
    }
}

fn book_with(meta: Metadata) -> Book {
    Book {
        path: String::from("Dune.epub"),
        ft: Filetype::EPub,
        meta,
    }
}

#[test]
fn render_escape_round_trip() {
    let book = book_with(record());
    let out = FmtStr("%%").format_book(&book).unwrap();
    assert_eq!(out, "%");
}

#[test]
fn render_escape_inside_literal_text() {
    let book = book_with(record());
    let out = FmtStr("a%%b").format_book(&book).unwrap();
    assert_eq!(out, "a%b");
}

#[test]
fn render_default_template() {
    let book = book_with(record());
    let out = default_fmt().format_book(&book).unwrap();
    assert_eq!(out, "Dune - Frank Herbert");
}

#[test]
fn render_unknown_field_offset_at_closing_marker() {
    let book = book_with(record());
    let err = FmtStr("%nope%").format_book(&book).unwrap_err();
    assert_eq!(err.idx, 5);
    assert_eq!(err.pat, "nope");
}

#[test]
fn render_unterminated_placeholder() {
    let book = book_with(record());
    let err = FmtStr("abc%title").format_book(&book).unwrap_err();
    assert_eq!(err.idx, 3);
    assert_eq!(err.pat, "%");
}

#[test]
fn render_absent_optional_field_is_empty() {
    let book = book_with(record());
    let out = FmtStr("<%publisher%>").format_book(&book).unwrap();
    assert_eq!(out, "<>");
}

#[test]
fn render_mixed_literals_and_fields() {
    let book = book_with(record());
    let out = FmtStr("%title% [%language%] 100%% id=%identifier%")
        .format_book(&book)
        .unwrap();
    assert_eq!(out, "Dune [en] 100% id=id1");
}

#[test]
fn render_type_placeholder() {
    let mut meta = record();
    meta.type_tag = Some(String::from("novel"));
    let book = book_with(meta);
    let out = FmtStr("%type%").format_book(&book).unwrap();
    assert_eq!(out, "novel");
    let err = FmtStr("%type_tag%").format_book(&book).unwrap_err();
    assert_eq!(err.pat, "type_tag");
}

#[test]
fn find_fmter_knows_every_field_name() {
    assert_eq!(find_fmter("title"), Some(MetadataField::Title));
    assert_eq!(find_fmter("language"), Some(MetadataField::Language));
    assert_eq!(find_fmter("identifier"), Some(MetadataField::Identifier));
    assert_eq!(find_fmter("creator"), Some(MetadataField::Creator));
    assert_eq!(find_fmter("contributor"), Some(MetadataField::Contributor));
    assert_eq!(find_fmter("publisher"), Some(MetadataField::Publisher));
    assert_eq!(find_fmter("subject"), Some(MetadataField::Subject));
    assert_eq!(find_fmter("description"), Some(MetadataField::Description));
    assert_eq!(find_fmter("date"), Some(MetadataField::Date));
    assert_eq!(find_fmter("type"), Some(MetadataField::TypeTag));
    assert_eq!(find_fmter("type_tag"), None);
    assert_eq!(find_fmter("format"), Some(MetadataField::Format));
    assert_eq!(find_fmter("source"), Some(MetadataField::Source));
    assert_eq!(find_fmter("relation"), Some(MetadataField::Relation));
    assert_eq!(find_fmter("coverage"), Some(MetadataField::Coverage));
    assert_eq!(find_fmter("rights"), Some(MetadataField::Rights));
    assert_eq!(find_fmter("Title"), None);
    assert_eq!(find_fmter(""), None);
}

#[test]
fn lookup_distinguishes_empty_from_absent() {
    let meta = Metadata::default();
    assert_eq!(MetadataField::Title.lookup(&meta), Some(""));
    assert_eq!(MetadataField::Language.lookup(&meta), Some(""));
    assert_eq!(MetadataField::Identifier.lookup(&meta), Some(""));
    assert_eq!(MetadataField::Creator.lookup(&meta), None);
    assert_eq!(MetadataField::Rights.lookup(&meta), None);
    let meta = record();
    assert_eq!(MetadataField::Title.lookup(&meta), Some("Dune"));
    assert_eq!(MetadataField::Creator.lookup(&meta), Some("Frank Herbert"));
}
