//! The metadata record: the fifteen Dublin Core fields that the package
//! document can declare, an enumeration naming them, and the errors that
//! extraction can report.
//!
//! The record's mathematical model is a total map from [`MetadataField`] to
//! `Option<Seq<char>>`: the three mandatory fields (title, language,
//! identifier) are always present and default to the empty string, the
//! twelve optional fields are `None` until the source document declares
//! them.

use vstd::prelude::*;

use crate::filetypes::{classify_spec, epub_result, ext_of, extension_of, Filetype};

verus! {

/// The fifteen recognized Dublin Core fields.
#[derive(Copy, Clone, PartialEq, Eq, Structural, Debug)]
pub enum MetadataField {
    Title,
    Language,
    Identifier,
    Creator,
    Contributor,
    Publisher,
    Subject,
    Description,
    Date,
    TypeTag,
    Format,
    Source,
    Relation,
    Coverage,
    Rights,
}

/// A flat record of the fifteen fields. Title, language and identifier are
/// mandatory and default to the empty string when never observed; the rest
/// distinguish "never declared" (`None`) from a declared empty value.
#[derive(Debug, Clone)]
pub struct Metadata {
    pub title: String,
    pub language: String,
    pub identifier: String,
    pub creator: Option<String>,
    pub contributor: Option<String>,
    pub publisher: Option<String>,
    pub subject: Option<String>,
    pub description: Option<String>,
    pub date: Option<String>,
    pub type_tag: Option<String>,
    pub format: Option<String>,
    pub source: Option<String>,
    pub relation: Option<String>,
    pub coverage: Option<String>,
    pub rights: Option<String>,
}

/// Whether a field is one of the three that always carry a value.
pub open spec fn is_mandatory(f: MetadataField) -> bool {
    f == MetadataField::Title || f == MetadataField::Language || f == MetadataField::Identifier
}

/// The current value of one field of a record, as the model sees it:
/// mandatory fields are always `Some`, optional fields mirror their
/// presence in the record.
pub open spec fn field_value(m: Metadata, f: MetadataField) -> Option<Seq<char>> {
    match f {
        MetadataField::Title => Some(m.title@),
        MetadataField::Language => Some(m.language@),
        MetadataField::Identifier => Some(m.identifier@),
        MetadataField::Creator => opt_view(m.creator),
        MetadataField::Contributor => opt_view(m.contributor),
        MetadataField::Publisher => opt_view(m.publisher),
        MetadataField::Subject => opt_view(m.subject),
        MetadataField::Description => opt_view(m.description),
        MetadataField::Date => opt_view(m.date),
        MetadataField::TypeTag => opt_view(m.type_tag),
        MetadataField::Format => opt_view(m.format),
        MetadataField::Source => opt_view(m.source),
        MetadataField::Relation => opt_view(m.relation),
        MetadataField::Coverage => opt_view(m.coverage),
        MetadataField::Rights => opt_view(m.rights),
    }
}

/// The view of an optional string field.
pub open spec fn opt_view(o: Option<String>) -> Option<Seq<char>> {
    match o {
        Some(s) => Some(s@),
        None => None,
    }
}

/// The whole record as a total map over the fifteen fields.
pub open spec fn meta_view(m: Metadata) -> Map<MetadataField, Option<Seq<char>>> {
    Map::new(|f: MetadataField| true, |f: MetadataField| field_value(m, f))
}

/// The model of a record in which nothing was ever observed: mandatory
/// fields empty, optional fields absent.
pub open spec fn empty_record() -> Map<MetadataField, Option<Seq<char>>> {
    Map::new(
        |f: MetadataField| true,
        |f: MetadataField| if is_mandatory(f) {
            Some(Seq::<char>::empty())
        } else {
            None
        },
    )
}

impl Default for Metadata {
    /// The fresh record: mandatory fields empty, optional fields absent.
    fn default() -> (r: Metadata)
        ensures
            meta_view(r) == empty_record(),
    {
        let r = Metadata {
            title: String::new(),
            language: String::new(),
            identifier: String::new(),
            creator: None,
            contributor: None,
            publisher: None,
            subject: None,
            description: None,
            date: None,
            type_tag: None,
            format: None,
            source: None,
            relation: None,
            coverage: None,
            rights: None,
        };
        proof {
            assert(meta_view(r) =~= empty_record());
        }
        r
    }
}

/// Overwrites one field of the record: in the model, an `insert` of the
/// decoded text under that field. Mandatory fields replace their string,
/// optional fields become declared.
pub fn set_field(m: &mut Metadata, f: MetadataField, val: String)
    ensures
        meta_view(*final(m)) == meta_view(*old(m)).insert(f, Some(val@)),
{
    match f {
        MetadataField::Title => m.title = val,
        MetadataField::Language => m.language = val,
        MetadataField::Identifier => m.identifier = val,
        MetadataField::Creator => m.creator = Some(val),
        MetadataField::Contributor => m.contributor = Some(val),
        MetadataField::Publisher => m.publisher = Some(val),
        MetadataField::Subject => m.subject = Some(val),
        MetadataField::Description => m.description = Some(val),
        MetadataField::Date => m.date = Some(val),
        MetadataField::TypeTag => m.type_tag = Some(val),
        MetadataField::Format => m.format = Some(val),
        MetadataField::Source => m.source = Some(val),
        MetadataField::Relation => m.relation = Some(val),
        MetadataField::Coverage => m.coverage = Some(val),
        MetadataField::Rights => m.rights = Some(val),
    }
    proof {
        assert(meta_view(*m) =~= meta_view(*old(m)).insert(f, Some(val@)));
    }
}

impl MetadataField {
    /// The accessor bound to this field: the field's current value, or
    /// `None` for an optional field the document never declared.
    pub fn lookup<'a>(self, meta: &'a Metadata) -> (r: Option<&'a str>)
        ensures
            match r {
                Some(s) => field_value(*meta, self) == Some(s@),
                None => field_value(*meta, self) is None,
            },
    {
        match self {
            MetadataField::Title => Some(meta.title.as_str()),
            MetadataField::Language => Some(meta.language.as_str()),
            MetadataField::Identifier => Some(meta.identifier.as_str()),
            MetadataField::Creator => opt_str(&meta.creator),
            MetadataField::Contributor => opt_str(&meta.contributor),
            MetadataField::Publisher => opt_str(&meta.publisher),
            MetadataField::Subject => opt_str(&meta.subject),
            MetadataField::Description => opt_str(&meta.description),
            MetadataField::Date => opt_str(&meta.date),
            MetadataField::TypeTag => opt_str(&meta.type_tag),
            MetadataField::Format => opt_str(&meta.format),
            MetadataField::Source => opt_str(&meta.source),
            MetadataField::Relation => opt_str(&meta.relation),
            MetadataField::Coverage => opt_str(&meta.coverage),
            MetadataField::Rights => opt_str(&meta.rights),
        }
    }
}

/// Borrows the contents of an optional string field.
fn opt_str(o: &Option<String>) -> (r: Option<&str>)
    ensures
        match r {
            Some(s) => opt_view(*o) == Some(s@),
            None => opt_view(*o) is None,
        },
{
    match o {
        Some(s) => Some(s.as_str()),
        None => None,
    }
}

/// What extraction can report instead of a record.
#[derive(Copy, Clone, PartialEq, Eq, Structural, Debug)]
pub enum ReadError {
    /// The path carries no extension at all.
    NoExt,
    /// The extension matches no known container format.
    UnrecognizedFiletype,
    /// The format is classified but extraction for it is deliberately
    /// unimplemented; it must fail fast rather than return empty metadata.
    UnimplementedFiletype,
    /// The archive could not be opened as a zip container, or an entry of
    /// it could not be read.
    ContainerOpenFailure,
    /// The archive holds no entry with the package-document extension.
    ContainerEntryMissing,
    /// The package document failed at the tokenizer level.
    MalformedDocument,
}

/// A book: the path it came from, its classified container format, and the
/// metadata record extracted from it.
#[derive(Debug, Clone)]
pub struct Book {
    pub path: String,
    pub ft: Filetype,
    pub meta: Metadata,
}

impl Book {
    /// Builds a book from a path and the raw bytes read from it: the path
    /// is classified by extension, and the metadata record is extracted
    /// from the bytes by the classified format's extractor.
    ///
    /// A path without an extension is `NoExt`; an extension outside the
    /// classification table is `UnrecognizedFiletype`; a classified
    /// format without an extractor is `UnimplementedFiletype`; and an
    /// EPub container yields whatever its extractor promises of the
    /// bytes.
    pub fn from_path(path: &str, archive: &[u8]) -> (r: Result<Book, ReadError>)
        ensures
            r == Err::<Book, ReadError>(ReadError::NoExt) <==> ext_of(path@) is None,
            r == Err::<Book, ReadError>(ReadError::UnrecognizedFiletype) <==> ext_of(path@)
                is Some && classify_spec(path@) == Filetype::Unknown,
            r == Err::<Book, ReadError>(ReadError::UnimplementedFiletype) <==> ext_of(path@)
                is Some && (classify_spec(path@) == Filetype::DjVu || classify_spec(path@)
                matches Filetype::Comic(_)),
            ext_of(path@) is Some && classify_spec(path@) == Filetype::EPub ==> epub_result(
                archive@,
                (match r {
                    Ok(b) => Ok::<Metadata, ReadError>(b.meta),
                    Err(e) => Err::<Metadata, ReadError>(e),
                }),
            ),
            r matches Ok(b) ==> b.path@ == path@ && b.ft == classify_spec(path@) && b.ft
                == Filetype::EPub,
    {
        if extension_of(path).is_none() {
            return Err(ReadError::NoExt);
        }
        let ft = Filetype::from_path(path);
        let meta = match ft.read_metadata(archive) {
            Ok(m) => m,
            Err(e) => {
                return Err(e);
            },
        };
        Ok(Book { path: path.to_owned(), ft, meta })
    }
}

} // verus!
