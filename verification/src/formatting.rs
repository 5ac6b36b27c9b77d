//! The template formatter: a format string holds literal text and
//! `%field%` placeholders; rendering substitutes each placeholder with the
//! named field of a metadata record.
//!
//! The scan runs left to right. `%%` outside a placeholder is an escape
//! for one literal `%`. A `%` outside a placeholder opens one; the next
//! `%` closes it and the enclosed name is resolved against the record. An
//! unknown name aborts with the offset of the closing marker; a template
//! that ends with a placeholder still open aborts with the offset of the
//! opening marker. An optional field the record never declared renders as
//! the empty string.

use vstd::prelude::*;

use crate::book::{field_value, Book, Metadata, MetadataField};
use crate::strutil::str_eq;

verus! {

/// A failed render: the position in the template where resolution failed,
/// and the offending placeholder text (`"%"` for an unterminated
/// placeholder).
#[derive(Debug)]
pub struct Error {
    pub idx: usize,
    pub pat: String,
}

/// A format string with literal segments and `%field%` placeholders.
#[derive(Debug, Copy, Clone)]
pub struct FmtStr<'a>(pub &'a str);

impl<'a> View for FmtStr<'a> {
    type V = Seq<char>;

    open spec fn view(&self) -> Seq<char> {
        self.0@
    }
}

/// The default template, threaded into render calls explicitly.
pub fn default_fmt() -> (r: FmtStr<'static>)
    ensures
        r@ == "%title% - %creator%"@,
{
    FmtStr("%title% - %creator%")
}

/// The field a placeholder name denotes, if any.
pub open spec fn spec_find_field(name: Seq<char>) -> Option<MetadataField> {
    if name == "title"@ {
        Some(MetadataField::Title)
    } else if name == "language"@ {
        Some(MetadataField::Language)
    } else if name == "identifier"@ {
        Some(MetadataField::Identifier)
    } else if name == "creator"@ {
        Some(MetadataField::Creator)
    } else if name == "contributor"@ {
        Some(MetadataField::Contributor)
    } else if name == "publisher"@ {
        Some(MetadataField::Publisher)
    } else if name == "subject"@ {
        Some(MetadataField::Subject)
    } else if name == "description"@ {
        Some(MetadataField::Description)
    } else if name == "date"@ {
        Some(MetadataField::Date)
    } else if name == "type"@ {
        Some(MetadataField::TypeTag)
    } else if name == "format"@ {
        Some(MetadataField::Format)
    } else if name == "source"@ {
        Some(MetadataField::Source)
    } else if name == "relation"@ {
        Some(MetadataField::Relation)
    } else if name == "coverage"@ {
        Some(MetadataField::Coverage)
    } else if name == "rights"@ {
        Some(MetadataField::Rights)
    } else {
        None
    }
}

/// Resolves a placeholder name against the table of field names.
pub fn find_fmter(s: &str) -> (r: Option<MetadataField>)
    ensures
        r == spec_find_field(s@),
{
    if str_eq(s, "title") {
        Some(MetadataField::Title)
    } else if str_eq(s, "language") {
        Some(MetadataField::Language)
    } else if str_eq(s, "identifier") {
        Some(MetadataField::Identifier)
    } else if str_eq(s, "creator") {
        Some(MetadataField::Creator)
    } else if str_eq(s, "contributor") {
        Some(MetadataField::Contributor)
    } else if str_eq(s, "publisher") {
        Some(MetadataField::Publisher)
    } else if str_eq(s, "subject") {
        Some(MetadataField::Subject)
    } else if str_eq(s, "description") {
        Some(MetadataField::Description)
    } else if str_eq(s, "date") {
        Some(MetadataField::Date)
    } else if str_eq(s, "type") {
        Some(MetadataField::TypeTag)
    } else if str_eq(s, "format") {
        Some(MetadataField::Format)
    } else if str_eq(s, "source") {
        Some(MetadataField::Source)
    } else if str_eq(s, "relation") {
        Some(MetadataField::Relation)
    } else if str_eq(s, "coverage") {
        Some(MetadataField::Coverage)
    } else if str_eq(s, "rights") {
        Some(MetadataField::Rights)
    } else {
        None
    }
}

/// What a render yields: the output text, or one of the two structured
/// failures with the offset where resolution failed.
pub enum RenderResult {
    Rendered(Seq<char>),
    UnknownField { at: int, name: Seq<char> },
    Unterminated { at: int },
}

/// Prefixes rendered text; failures pass through unchanged.
pub open spec fn prepend(s: Seq<char>, r: RenderResult) -> RenderResult {
    match r {
        RenderResult::Rendered(o) => RenderResult::Rendered(s + o),
        _ => r,
    }
}

/// The text a resolved field contributes: its value, or the empty string
/// for an optional field the record never declared.
pub open spec fn field_text(m: Metadata, f: MetadataField) -> Seq<char> {
    match field_value(m, f) {
        Some(s) => s,
        None => Seq::empty(),
    }
}

/// The scan from position `i`. `inside` says whether a placeholder is
/// open; while one is, `ns` is the position after its opening marker and
/// `open_at` the marker itself.
pub open spec fn render_rec(
    t: Seq<char>,
    i: int,
    inside: bool,
    ns: int,
    open_at: int,
    m: Metadata,
) -> RenderResult
    decreases t.len() - i,
{
    if i < 0 || i >= t.len() {
        if inside {
            RenderResult::Unterminated { at: open_at }
        } else {
            RenderResult::Rendered(Seq::empty())
        }
    } else if t[i] != '%' {
        if inside {
            render_rec(t, i + 1, true, ns, open_at, m)
        } else {
            prepend(seq![t[i]], render_rec(t, i + 1, false, ns, open_at, m))
        }
    } else if inside {
        let name = t.subrange(ns, i);
        match spec_find_field(name) {
            Some(f) => prepend(field_text(m, f), render_rec(t, i + 1, false, ns, open_at, m)),
            None => RenderResult::UnknownField { at: i, name },
        }
    } else if i + 1 < t.len() && t[i + 1] == '%' {
        prepend(seq!['%'], render_rec(t, i + 2, false, ns, open_at, m))
    } else {
        render_rec(t, i + 1, true, i + 1, i, m)
    }
}

/// What rendering a whole template against a record yields.
pub open spec fn render_spec(t: Seq<char>, m: Metadata) -> RenderResult {
    render_rec(t, 0, false, 0, 0, m)
}

/// Prefixing twice is prefixing the concatenation.
proof fn lemma_prepend_prepend(a: Seq<char>, b: Seq<char>, r: RenderResult)
    ensures
        prepend(a, prepend(b, r)) == prepend(a + b, r),
{
    match r {
        RenderResult::Rendered(o) => {
            assert(a + (b + o) =~= (a + b) + o);
        },
        _ => {},
    }
}

impl<'a> FmtStr<'a> {
    /// Renders this template against the book's metadata record.
    ///
    /// On success the output is exactly what [`render_spec`] assigns to
    /// the template and the record. On failure, the error carries the
    /// offset of the closing marker and the placeholder text for an
    /// unknown field, or the offset of the opening marker and `"%"` for a
    /// placeholder left open at the end of the template.
    pub fn format_book(&self, book: &Book) -> (r: Result<String, Error>)
        ensures
            match r {
                Ok(s) => render_spec(self@, book.meta) == RenderResult::Rendered(s@),
                Err(e) => match render_spec(self@, book.meta) {
                    RenderResult::Rendered(_) => false,
                    RenderResult::UnknownField { at, name } => e.idx == at && e.pat@ == name,
                    RenderResult::Unterminated { at } => e.idx == at && e.pat@ == "%"@,
                },
            },
    {
        let fmt: &str = self.0;
        let n = fmt.unicode_len();
        let mut out = String::new();
        let mut i: usize = 0;
        let mut inside = false;
        let mut ns: usize = 0;
        let mut open_at: usize = 0;
        while i < n
            invariant
                n == fmt@.len(),
                fmt@ == self@,
                i <= n,
                inside ==> ns == open_at + 1 && open_at < i && ns <= i,
                render_spec(self@, book.meta) == prepend(
                    out@,
                    render_rec(fmt@, i as int, inside, ns as int, open_at as int, book.meta),
                ),
            decreases n - i,
        {
            let c = fmt.get_char(i);
            if c != '%' {
                if !inside {
                    let ghost before = out@;
                    let piece = fmt.substring_char(i, i + 1);
                    out.append(piece);
                    proof {
                        assert(piece@ =~= seq![fmt@[i as int]]);
                        lemma_prepend_prepend(
                            before,
                            piece@,
                            render_rec(
                                fmt@,
                                i + 1,
                                false,
                                ns as int,
                                open_at as int,
                                book.meta,
                            ),
                        );
                    }
                }
                i = i + 1;
            } else if inside {
                let name = fmt.substring_char(ns, i);
                match find_fmter(name) {
                    Some(f) => {
                        let ghost before = out@;
                        match f.lookup(&book.meta) {
                            Some(v) => {
                                out.append(v);
                                proof {
                                    assert(field_text(book.meta, f) == v@);
                                }
                            },
                            None => {
                                proof {
                                    assert(field_text(book.meta, f) =~= Seq::<char>::empty());
                                    assert(out@ =~= before + field_text(book.meta, f));
                                }
                            },
                        }
                        proof {
                            assert(out@ == before + field_text(book.meta, f));
                            lemma_prepend_prepend(
                                before,
                                field_text(book.meta, f),
                                render_rec(
                                    fmt@,
                                    i + 1,
                                    false,
                                    ns as int,
                                    open_at as int,
                                    book.meta,
                                ),
                            );
                        }
                        inside = false;
                        i = i + 1;
                    },
                    None => {
                        return Err(Error { idx: i, pat: name.to_owned() });
                    },
                }
            } else {
                let escaped = i + 1 < n && fmt.get_char(i + 1) == '%';
                if escaped {
                    let ghost before = out@;
                    out.append("%");
                    proof {
                        reveal_strlit("%");
                        assert("%"@ =~= seq!['%']);
                        lemma_prepend_prepend(
                            before,
                            "%"@,
                            render_rec(
                                fmt@,
                                i + 2,
                                false,
                                ns as int,
                                open_at as int,
                                book.meta,
                            ),
                        );
                    }
                    i = i + 2;
                } else {
                    inside = true;
                    open_at = i;
                    ns = i + 1;
                    i = i + 1;
                }
            }
        }
        if inside {
            return Err(Error { idx: open_at, pat: "%".to_owned() });
        }
        proof {
            assert(out@ + Seq::<char>::empty() =~= out@);
        }
        Ok(out)
    }
}

/// Escape round trip: rendering the template `"%%"` yields exactly one
/// literal `%`, whatever the record holds.
pub proof fn lemma_escape_round_trip(m: Metadata)
    ensures
        render_spec("%%"@, m) == RenderResult::Rendered("%"@),
{
    reveal_strlit("%%");
    reveal_strlit("%");
    let t = "%%"@;
    assert(render_rec(t, 2, false, 0, 0, m) == RenderResult::Rendered(Seq::<char>::empty()));
    assert(render_spec(t, m) == prepend(seq!['%'], render_rec(t, 2, false, 0, 0, m)));
    assert(seq!['%'] + Seq::<char>::empty() =~= "%"@);
}

} // verus!
