//! The streaming package-document parser: a single-register state machine
//! over the tokenizer events of the package document.
//!
//! The tokenizer is quick_xml's reader behind trusted wrappers; the state
//! machine itself is verified against the event stream those wrappers
//! expose. The register holds the currently open recognized field, or
//! nothing:
//! - a start tag whose fully-qualified name is recognized sets the
//!   register; an unrecognized start tag leaves it alone;
//! - any end tag clears it — so only text that is an immediate child of
//!   the most recently opened recognized element, before any subsequent
//!   close tag, is captured (a known, deliberate shallowness: nested or
//!   interleaved markup prematurely ends capture);
//! - a text event while the register is set overwrites the bound field;
//! - end of input returns whatever was accumulated, even when mandatory
//!   fields were never observed.
//!
//! Two deliberate policies of this tokenizer deserve a note. First, it
//! validates UTF-8 itself: a document whose bytes are not valid UTF-8
//! fails at the tokenizer level and surfaces as `MalformedDocument`; no
//! lossy replacement is attempted. Second, a general reference such as
//! `&amp;` is its own event, splitting the surrounding text, so under
//! the overwrite rule a field whose element holds references keeps only
//! the text after the last one — a known limitation of the shallow
//! machine.

use vstd::prelude::*;

use crate::book::{empty_record, meta_view, set_field, Metadata, MetadataField, ReadError};
use crate::strutil::str_eq;
use quick_xml::events::Event;
use quick_xml::reader::Reader;

verus! {

#[verifier::external_type_specification]
#[verifier::external_body]
#[verifier::reject_recursive_types(R)]
pub struct ExXmlReader<R>(Reader<R>);

/// One tokenizer event, reduced to what the state machine reads: a start
/// tag's fully-qualified name, an end tag, a text node's raw content, or
/// anything else.
pub enum SpecTok {
    Start(Seq<char>),
    End,
    Text(Seq<char>),
    Other,
}

/// What one read of the tokenizer hands back: an event, a clean end of
/// input, or a tokenizer-level failure.
pub enum ReadTok {
    Start(String),
    End,
    Text(String),
    Other,
    Eof,
    Fail,
}

/// The event a returned token stands for.
pub open spec fn tok_view(t: ReadTok) -> SpecTok {
    match t {
        ReadTok::Start(s) => SpecTok::Start(s@),
        ReadTok::End => SpecTok::End,
        ReadTok::Text(s) => SpecTok::Text(s@),
        _ => SpecTok::Other,
    }
}

/// The event stream quick_xml yields over a document, before its terminal
/// (clean end of input or error): tag names and raw text as the
/// tokenizer's UTF-8 text. A function of the bytes alone.
pub uninterp spec fn xml_tokens(doc: Seq<u8>) -> Seq<SpecTok>;

/// Whether the stream over a document ends in a clean end of input
/// rather than a tokenizer-level error. A function of the bytes alone.
pub uninterp spec fn xml_ok(doc: Seq<u8>) -> bool;

/// A tokenizer over one in-memory document, tracking how far into the
/// event stream it has read.
pub struct TokenReader<'a> {
    inner: Reader<&'a [u8]>,
    doc: Ghost<Seq<u8>>,
    pos: Ghost<int>,
    done: Ghost<bool>,
}

/// Relies on quick_xml's `Reader::from_reader` over a byte slice: a fresh
/// tokenizer positioned before the first event of the document.
#[verifier::external_body]
fn xml_reader_new<'a>(doc: &'a [u8]) -> (r: Reader<&'a [u8]>) {
    Reader::from_reader(doc)
}

/// A fresh tokenizer over `doc`, positioned before the first event.
fn token_reader_new<'a>(doc: &'a [u8]) -> (t: TokenReader<'a>)
    ensures
        t.doc@ == doc@,
        t.pos@ == 0,
        t.done@ == false,
{
    TokenReader {
        inner: xml_reader_new(doc),
        doc: Ghost(doc@),
        pos: Ghost(0),
        done: Ghost(false),
    }
}

/// Relies on quick_xml's `Reader::read_event`: the next event of the
/// stream. Start names and text come back as the tokenizer's UTF-8 text
/// (a decode failure is a tokenizer error); start, end and
/// text events map to their [`SpecTok`]; every other event kind is
/// `Other`; past the last event the read yields end-of-input or an error,
/// by [`xml_ok`].
#[verifier::external_body]
fn token_reader_next(t: &mut TokenReader<'_>) -> (r: ReadTok)
    requires
        !old(t).done@,
        0 <= old(t).pos@ <= xml_tokens(old(t).doc@).len(),
    ensures
        final(t).doc@ == old(t).doc@,
        ({
            let toks = xml_tokens(old(t).doc@);
            let p = old(t).pos@;
            if p < toks.len() {
                &&& !(r is Eof)
                &&& !(r is Fail)
                &&& tok_view(r) == toks[p]
                &&& final(t).pos@ == p + 1
                &&& final(t).done@ == false
            } else {
                &&& (if xml_ok(old(t).doc@) {
                    r is Eof
                } else {
                    r is Fail
                })
                &&& final(t).pos@ == p
                &&& final(t).done@ == true
            }
        }),
{
    match t.inner.read_event() {
        Ok(Event::Start(e)) => ReadTok::Start(e.name().as_ref().to_string()),
        Ok(Event::End(_)) => ReadTok::End,
        Ok(Event::Text(e)) => ReadTok::Text(e.as_ref().to_string()),
        Ok(Event::Eof) => ReadTok::Eof,
        Ok(_) => ReadTok::Other,
        Err(_) => ReadTok::Fail,
    }
}

/// The field a fully-qualified element name binds, if it is one of the
/// fifteen recognized Dublin Core element names.
pub open spec fn field_of_tag(name: Seq<char>) -> Option<MetadataField> {
    if name == "dc:title"@ {
        Some(MetadataField::Title)
    } else if name == "dc:language"@ {
        Some(MetadataField::Language)
    } else if name == "dc:identifier"@ {
        Some(MetadataField::Identifier)
    } else if name == "dc:creator"@ {
        Some(MetadataField::Creator)
    } else if name == "dc:contributor"@ {
        Some(MetadataField::Contributor)
    } else if name == "dc:publisher"@ {
        Some(MetadataField::Publisher)
    } else if name == "dc:subject"@ {
        Some(MetadataField::Subject)
    } else if name == "dc:description"@ {
        Some(MetadataField::Description)
    } else if name == "dc:date"@ {
        Some(MetadataField::Date)
    } else if name == "dc:type"@ {
        Some(MetadataField::TypeTag)
    } else if name == "dc:format"@ {
        Some(MetadataField::Format)
    } else if name == "dc:source"@ {
        Some(MetadataField::Source)
    } else if name == "dc:relation"@ {
        Some(MetadataField::Relation)
    } else if name == "dc:coverage"@ {
        Some(MetadataField::Coverage)
    } else if name == "dc:rights"@ {
        Some(MetadataField::Rights)
    } else {
        None
    }
}

/// Decides [`field_of_tag`] on an element name.
fn tag_field(name: &str) -> (r: Option<MetadataField>)
    ensures
        r == field_of_tag(name@),
{
    if str_eq(name, "dc:title") {
        Some(MetadataField::Title)
    } else if str_eq(name, "dc:language") {
        Some(MetadataField::Language)
    } else if str_eq(name, "dc:identifier") {
        Some(MetadataField::Identifier)
    } else if str_eq(name, "dc:creator") {
        Some(MetadataField::Creator)
    } else if str_eq(name, "dc:contributor") {
        Some(MetadataField::Contributor)
    } else if str_eq(name, "dc:publisher") {
        Some(MetadataField::Publisher)
    } else if str_eq(name, "dc:subject") {
        Some(MetadataField::Subject)
    } else if str_eq(name, "dc:description") {
        Some(MetadataField::Description)
    } else if str_eq(name, "dc:date") {
        Some(MetadataField::Date)
    } else if str_eq(name, "dc:type") {
        Some(MetadataField::TypeTag)
    } else if str_eq(name, "dc:format") {
        Some(MetadataField::Format)
    } else if str_eq(name, "dc:source") {
        Some(MetadataField::Source)
    } else if str_eq(name, "dc:relation") {
        Some(MetadataField::Relation)
    } else if str_eq(name, "dc:coverage") {
        Some(MetadataField::Coverage)
    } else if str_eq(name, "dc:rights") {
        Some(MetadataField::Rights)
    } else {
        None
    }
}

/// The state machine over the event stream from position `i` on:
/// `reg` is the open recognized field, `m` the record so far.
pub open spec fn machine_rec(
    toks: Seq<SpecTok>,
    i: int,
    reg: Option<MetadataField>,
    m: Map<MetadataField, Option<Seq<char>>>,
) -> Map<MetadataField, Option<Seq<char>>>
    decreases toks.len() - i,
{
    if i < 0 || i >= toks.len() {
        m
    } else {
        match toks[i] {
            SpecTok::Start(name) => machine_rec(
                toks,
                i + 1,
                match field_of_tag(name) {
                    Some(f) => Some(f),
                    None => reg,
                },
                m,
            ),
            SpecTok::End => machine_rec(toks, i + 1, None, m),
            SpecTok::Text(s) => match reg {
                Some(f) => machine_rec(toks, i + 1, reg, m.insert(f, Some(s))),
                None => machine_rec(toks, i + 1, reg, m),
            },
            SpecTok::Other => machine_rec(toks, i + 1, reg, m),
        }
    }
}

/// The record the state machine accumulates over a whole document,
/// starting from the fresh record.
pub open spec fn parsed_record(doc: Seq<u8>) -> Map<MetadataField, Option<Seq<char>>> {
    machine_rec(xml_tokens(doc), 0, None, empty_record())
}

/// Runs the state machine over the document's event stream.
///
/// Succeeds exactly when the tokenizer reaches a clean end of input, and
/// then returns the record [`parsed_record`] assigns to the bytes — even
/// when the document was truncated mid-element, in which case the record
/// is simply partial. A tokenizer-level error is `MalformedDocument`.
/// Termination is guaranteed for any bounded byte stream: each read
/// consumes one event of the finite stream.
pub fn parse_package_metadata(doc: &[u8]) -> (r: Result<Metadata, ReadError>)
    ensures
        r is Ok <==> xml_ok(doc@),
        r matches Ok(m) ==> meta_view(m) == parsed_record(doc@),
        r is Err ==> r == Err::<Metadata, ReadError>(ReadError::MalformedDocument),
{
    let mut t = token_reader_new(doc);
    let mut meta = Metadata::default();
    let mut reg: Option<MetadataField> = None;
    let ghost toks = xml_tokens(doc@);
    loop
        invariant
            t.doc@ == doc@,
            t.done@ == false,
            0 <= t.pos@ <= toks.len(),
            toks == xml_tokens(doc@),
            machine_rec(toks, t.pos@, reg, meta_view(meta)) == parsed_record(doc@),
        decreases toks.len() - t.pos@,
    {
        let ghost p = t.pos@;
        let tok = token_reader_next(&mut t);
        match tok {
            ReadTok::Start(name) => {
                match tag_field(name.as_str()) {
                    Some(f) => reg = Some(f),
                    None => {},
                }
            },
            ReadTok::End => {
                reg = None;
            },
            ReadTok::Text(s) => {
                match reg {
                    Some(f) => set_field(&mut meta, f, s),
                    None => {},
                }
            },
            ReadTok::Other => {},
            ReadTok::Eof => {
                return Ok(meta);
            },
            ReadTok::Fail => {
                return Err(ReadError::MalformedDocument);
            },
        }
    }
}

} // verus!
