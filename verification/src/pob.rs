//! Path of Building build-code import: the share code is URL-safe base64
//! over zlib-compressed XML; the build summary (character class,
//! ascendancy, level and the equipped item texts) is read from the
//! document's elements.

use vstd::prelude::*;
use vstd::string::StringExecFns;

use base64::Engine;
use std::io::Read;

use crate::text::{
    chars_of, is_whitespace, parse_unsigned, parse_unsigned_spec, starts_with, str_eq,
    str_starts_with, string_from_chars, trim, trim_str, unicode_whitespace,
};

verus! {

/// What a build code decodes to under the standard base64 alphabet with
/// padding; `None` when it is not valid base64.
pub uninterp spec fn base64_standard(input: Seq<char>) -> Option<Seq<u8>>;

/// What a build code decodes to under the standard base64 alphabet without
/// padding; `None` when it is not valid unpadded base64.
pub uninterp spec fn base64_standard_no_pad(input: Seq<char>) -> Option<Seq<u8>>;

/// The UTF-8 text a zlib stream inflates to; `None` when the bytes are not
/// a zlib stream or the text is not UTF-8.
pub uninterp spec fn zlib_text(bytes: Seq<u8>) -> Option<Seq<char>>;

/// `base64::engine::general_purpose::STANDARD.decode`: the contract names
/// the decoded bytes (or failure) as a function of the input alone; the
/// base64 decoding rules themselves are not restated.
#[verifier::external_body]
fn decode_base64_padded(input: &str) -> (r: Option<Vec<u8>>)
    ensures
        match r {
            Some(b) => base64_standard(input@) == Some(b@),
            None => base64_standard(input@) is None,
        },
{
    base64::engine::general_purpose::STANDARD.decode(input).ok()
}

/// `base64::engine::general_purpose::STANDARD_NO_PAD.decode`, named as the
/// padded variant is.
#[verifier::external_body]
fn decode_base64_unpadded(input: &str) -> (r: Option<Vec<u8>>)
    ensures
        match r {
            Some(b) => base64_standard_no_pad(input@) == Some(b@),
            None => base64_standard_no_pad(input@) is None,
        },
{
    base64::engine::general_purpose::STANDARD_NO_PAD.decode(input).ok()
}

/// `flate2::read::ZlibDecoder` read to a string: the contract names the
/// inflated UTF-8 text (or failure) as a function of the bytes alone; the
/// inflate algorithm is not restated.
#[verifier::external_body]
fn inflate_zlib_text(bytes: &Vec<u8>) -> (r: Option<String>)
    ensures
        match r {
            Some(s) => zlib_text(bytes@) == Some(s@),
            None => zlib_text(bytes@) is None,
        },
{
    let mut text = String::new();
    match flate2::read::ZlibDecoder::new(bytes.as_slice()).read_to_string(&mut text) {
        Ok(_) => Some(text),
        Err(_) => None,
    }
}

/// Why a build code was refused.
#[derive(Clone, Copy, Debug, PartialEq, Eq, Structural)]
pub enum PobError {
    /// Nothing but whitespace.
    EmptyCode(),
    /// Not base64 (padded or not).
    InvalidBase64(),
    /// Not a zlib stream of UTF-8 text.
    InflateFailed(),
    /// The document is not well-formed XML.
    Malformed(),
    /// The root element is not a Path of Building document.
    NotPathOfBuilding(),
    /// The document has no element.
    EmptyDocument(),
    /// An attribute of the build element could not be unescaped.
    BadAttribute(),
    /// The text of an item element could not be read.
    BadItem(),
}

/// The URL-safe alphabet mapped to the standard one.
pub open spec fn standard_char(c: char) -> char {
    if c == '-' {
        '+'
    } else if c == '_' {
        '/'
    } else {
        c
    }
}

/// The code without any whitespace, in the standard base64 alphabet.
pub open spec fn spec_normalize(code: Seq<char>) -> Seq<char> {
    code.filter(|c: char| !unicode_whitespace(c)).map_values(|c: char| standard_char(c))
}

/// Remove all whitespace and map `-`/`_` to `+`/`/`.
pub fn normalize_pob_code(code: &str) -> (r: String)
    ensures
        r@ == spec_normalize(code@),
{
    let v = chars_of(code);
    let ghost f = |c: char| !unicode_whitespace(c);
    let ghost g = |c: char| standard_char(c);
    let mut out: Vec<char> = Vec::new();
    let mut i: usize = 0;
    while i < v.len()
        invariant
            i <= v@.len(),
            v@ == code@,
            f == (|c: char| !unicode_whitespace(c)),
            g == (|c: char| standard_char(c)),
            out@ == v@.take(i as int).filter(f).map_values(g),
        decreases v.len() - i,
    {
        let c = v[i];
        proof {
            assert(v@.take(i + 1) =~= v@.take(i as int).push(c));
            v@.take(i as int).lemma_filter_push(c, f);
        }
        if !is_whitespace(c) {
            let m = if c == '-' { '+' } else if c == '_' { '/' } else { c };
            let ghost before = out@;
            out.push(m);
            assert(out@ =~= v@.take(i + 1).filter(f).map_values(g));
        } else {
            assert(out@ =~= v@.take(i + 1).filter(f).map_values(g));
        }
        i += 1;
    }
    assert(v@.take(v@.len() as int) =~= v@);
    string_from_chars(out)
}

/// What decoding a build code yields: the normalized code must be
/// non-empty and base64 (padded, else unpadded) of a zlib stream of text.
pub open spec fn spec_decode_pob_code(code: Seq<char>) -> Result<Seq<char>, PobError> {
    let n = spec_normalize(code);
    if n.len() == 0 {
        Err(PobError::EmptyCode())
    } else {
        let bytes = match base64_standard(n) {
            Some(b) => Some(b),
            None => base64_standard_no_pad(n),
        };
        match bytes {
            None => Err(PobError::InvalidBase64()),
            Some(b) => match zlib_text(b) {
                None => Err(PobError::InflateFailed()),
                Some(t) => Ok(t),
            },
        }
    }
}

/// Decode a build code into its XML document.
pub fn decode_pob_code(code: &str) -> (r: Result<String, PobError>)
    ensures
        match r {
            Ok(s) => spec_decode_pob_code(code@) == Ok::<Seq<char>, PobError>(s@),
            Err(e) => spec_decode_pob_code(code@) == Err::<Seq<char>, PobError>(e),
        },
{
    let normalized = normalize_pob_code(code);
    if normalized.as_str().unicode_len() == 0 {
        return Err(PobError::EmptyCode());
    }
    let bytes = match decode_base64_padded(normalized.as_str()) {
        Some(b) => b,
        None => match decode_base64_unpadded(normalized.as_str()) {
            Some(b) => b,
            None => return Err(PobError::InvalidBase64()),
        },
    };
    match inflate_zlib_text(&bytes) {
        Some(t) => Ok(t),
        None => Err(PobError::InflateFailed()),
    }
}

/// One start (or empty) element of the document, in document order, with
/// its attributes (value `None` when it could not be unescaped) and, for
/// item elements, the raw text they enclose (`None` when unreadable); or
/// the point where the document stops being well-formed.
#[derive(Clone, Debug)]
pub enum PobEvent {
    Element { name: String, attributes: Vec<(String, Option<String>)>, text: Option<Option<String>> },
    Malformed,
}

/// The build summary.
#[derive(Clone, Debug, PartialEq, Eq)]
pub struct PobBuild {
    pub class_name: Option<String>,
    pub ascendancy: Option<String>,
    pub level: Option<u32>,
    /// Raw item text blocks as the document stores them.
    pub items: Vec<String>,
}

/// Mathematical value of a [`PobEvent`].
pub enum PobEventView {
    Element { name: Seq<char>, attributes: Seq<(Seq<char>, Option<Seq<char>>)>, text: Option<Option<Seq<char>>> },
    Malformed,
}

/// Views of attribute (key, value) pairs.
pub open spec fn attr_views(a: Seq<(String, Option<String>)>) -> Seq<(Seq<char>, Option<Seq<char>>)> {
    a.map_values(|x: (String, Option<String>)| (x.0@, opt_str(x.1)))
}

pub open spec fn opt_str(o: Option<String>) -> Option<Seq<char>> {
    match o {
        Some(s) => Some(s@),
        None => None,
    }
}

impl View for PobEvent {
    type V = PobEventView;

    open spec fn view(&self) -> PobEventView {
        match self {
            PobEvent::Element { name, attributes, text } => PobEventView::Element {
                name: name@,
                attributes: attr_views(attributes@),
                text: match text {
                    Some(t) => Some(opt_str(*t)),
                    None => None,
                },
            },
            PobEvent::Malformed => PobEventView::Malformed,
        }
    }
}

/// Mathematical value of a [`PobBuild`].
pub struct PobBuildView {
    pub class_name: Option<Seq<char>>,
    pub ascendancy: Option<Seq<char>>,
    pub level: Option<u32>,
    pub items: Seq<Seq<char>>,
}

impl View for PobBuild {
    type V = PobBuildView;

    open spec fn view(&self) -> PobBuildView {
        PobBuildView {
            class_name: opt_str(self.class_name),
            ascendancy: opt_str(self.ascendancy),
            level: self.level,
            items: self.items@.map_values(|s: String| s@),
        }
    }
}

/// The build element's attributes applied in order: class name, ascendancy
/// and level (a level that is no `u32` reads as absent); the first value
/// that cannot be unescaped fails.
pub open spec fn apply_build_attributes(b: PobBuildView, attrs: Seq<(Seq<char>, Option<Seq<char>>)>) -> Result<PobBuildView, PobError>
    decreases attrs.len(),
{
    if attrs.len() == 0 {
        Ok(b)
    } else {
        match apply_build_attributes(b, attrs.drop_last()) {
            Err(e) => Err(e),
            Ok(prev) => match attrs.last().1 {
                None => Err(PobError::BadAttribute()),
                Some(v) => {
                    let key = attrs.last().0;
                    if key == "className"@ {
                        Ok(PobBuildView { class_name: Some(v), ..prev })
                    } else if key == "ascendClassName"@ {
                        Ok(PobBuildView { ascendancy: Some(v), ..prev })
                    } else if key == "level"@ {
                        Ok(PobBuildView {
                            level: match parse_unsigned_spec(v, u32::MAX as nat) {
                                Some(n) => Some(n as u32),
                                None => None,
                            },
                            ..prev
                        })
                    } else {
                        Ok(prev)
                    }
                },
            },
        }
    }
}

/// The reading state after the events: whether the root was seen and the
/// summary so far. The first element must be the Path of Building root;
/// after it, build elements set the summary's fields and item elements add
/// their trimmed, non-empty texts.
pub open spec fn read_events(events: Seq<PobEventView>) -> Result<(bool, PobBuildView), PobError>
    decreases events.len(),
{
    if events.len() == 0 {
        Ok((false, PobBuildView { class_name: None, ascendancy: None, level: None, items: Seq::empty() }))
    } else {
        match read_events(events.drop_last()) {
            Err(e) => Err(e),
            Ok((saw_root, b)) => match events.last() {
                PobEventView::Malformed => Err(PobError::Malformed()),
                PobEventView::Element { name, attributes, text } => if !saw_root {
                    if starts_with(name, "PathOfBuilding"@) {
                        Ok((true, b))
                    } else {
                        Err(PobError::NotPathOfBuilding())
                    }
                } else if name == "Build"@ {
                    match apply_build_attributes(b, attributes) {
                        Err(e) => Err(e),
                        Ok(nb) => Ok((true, nb)),
                    }
                } else if name == "Item"@ {
                    match text {
                        Some(Some(t)) => if trim(t).len() > 0 {
                            Ok((true, PobBuildView { items: b.items.push(trim(t)), ..b }))
                        } else {
                            Ok((true, b))
                        },
                        _ => Err(PobError::BadItem()),
                    }
                } else {
                    Ok((true, b))
                },
            },
        }
    }
}

/// The summary the events describe; a document without any element fails.
pub open spec fn spec_build_from_events(events: Seq<PobEventView>) -> Result<PobBuildView, PobError> {
    match read_events(events) {
        Err(e) => Err(e),
        Ok((saw_root, b)) => if saw_root {
            Ok(b)
        } else {
            Err(PobError::EmptyDocument())
        },
    }
}

pub open spec fn event_views(e: Seq<PobEvent>) -> Seq<PobEventView> {
    e.map_values(|x: PobEvent| x@)
}

/// Once a prefix of the events fails, all of them fail the same way.
pub proof fn lemma_read_events_err(events: Seq<PobEventView>, n: int)
    requires
        0 <= n <= events.len(),
        read_events(events.take(n)) is Err,
    ensures
        read_events(events) == read_events(events.take(n)),
    decreases events.len() - n,
{
    if n < events.len() {
        assert(events.take(n + 1).drop_last() =~= events.take(n));
        lemma_read_events_err(events, n + 1);
    } else {
        assert(events.take(n) =~= events);
    }
}

fn apply_attributes(build: &mut PobBuild, attrs: &Vec<(String, Option<String>)>) -> (r: Result<(), PobError>)
    ensures
        match apply_build_attributes(old(build)@, attr_views(attrs@)) {
            Ok(b) => r is Ok && final(build)@ == b,
            Err(e) => r == Err::<(), PobError>(e),
        },
{
    let ghost av = attr_views(attrs@);
    let ghost start = build@;
    let mut i: usize = 0;
    while i < attrs.len()
        invariant
            i <= attrs@.len(),
            av == attr_views(attrs@),
            start == old(build)@,
            apply_build_attributes(start, av.take(i as int)) == Ok::<PobBuildView, PobError>(build@),
        decreases attrs.len() - i,
    {
        assert(av.take(i + 1).drop_last() =~= av.take(i as int));
        assert(av[i as int] == (attrs@[i as int].0@, opt_str(attrs@[i as int].1)));
        let key = attrs[i].0.as_str();
        let value = match &attrs[i].1 {
            Some(v) => v,
            None => {
                proof {
                    lemma_apply_attributes_err(start, av, i + 1);
                }
                return Err(PobError::BadAttribute());
            },
        };
        if str_eq(key, "className") {
            build.class_name = Some(value.clone());
        } else if str_eq(key, "ascendClassName") {
            build.ascendancy = Some(value.clone());
        } else if str_eq(key, "level") {
            build.level = match parse_unsigned(value.as_str(), 4294967295) {
                Some(n) => Some(n as u32),
                None => None,
            };
        }
        i += 1;
    }
    assert(av.take(attrs@.len() as int) =~= av);
    Ok(())
}

proof fn lemma_apply_attributes_err(b: PobBuildView, attrs: Seq<(Seq<char>, Option<Seq<char>>)>, n: int)
    requires
        0 <= n <= attrs.len(),
        apply_build_attributes(b, attrs.take(n)) is Err,
    ensures
        apply_build_attributes(b, attrs) == apply_build_attributes(b, attrs.take(n)),
    decreases attrs.len() - n,
{
    if n < attrs.len() {
        assert(attrs.take(n + 1).drop_last() =~= attrs.take(n));
        lemma_apply_attributes_err(b, attrs, n + 1);
    } else {
        assert(attrs.take(n) =~= attrs);
    }
}

/// Read the build summary from the document's events.
pub fn build_from_events(events: &Vec<PobEvent>) -> (r: Result<PobBuild, PobError>)
    ensures
        match r {
            Ok(b) => spec_build_from_events(event_views(events@)) == Ok::<PobBuildView, PobError>(b@),
            Err(e) => spec_build_from_events(event_views(events@)) == Err::<PobBuildView, PobError>(e),
        },
{
    let ghost ev = event_views(events@);
    let mut build = PobBuild { class_name: None, ascendancy: None, level: None, items: Vec::new() };
    let mut saw_root = false;
    let mut i: usize = 0;
    assert(build@.items =~= Seq::<Seq<char>>::empty());
    assert(ev.take(0) =~= Seq::<PobEventView>::empty());
    while i < events.len()
        invariant
            i <= events@.len(),
            ev == event_views(events@),
            read_events(ev.take(i as int)) == Ok::<(bool, PobBuildView), PobError>((saw_root, build@)),
        decreases events.len() - i,
    {
        assert(ev.take(i + 1).drop_last() =~= ev.take(i as int));
        assert(ev[i as int] == events@[i as int]@);
        match &events[i] {
            PobEvent::Malformed => {
                proof {
                    lemma_read_events_err(ev, i + 1);
                }
                return Err(PobError::Malformed());
            },
            PobEvent::Element { name, attributes, text } => {
                if !saw_root {
                    if str_starts_with(name.as_str(), "PathOfBuilding") {
                        saw_root = true;
                    } else {
                        proof {
                            lemma_read_events_err(ev, i + 1);
                        }
                        return Err(PobError::NotPathOfBuilding());
                    }
                } else if str_eq(name.as_str(), "Build") {
                    match apply_attributes(&mut build, attributes) {
                        Ok(()) => {},
                        Err(e) => {
                            proof {
                                lemma_read_events_err(ev, i + 1);
                            }
                            return Err(e);
                        },
                    }
                } else if str_eq(name.as_str(), "Item") {
                    match text {
                        Some(Some(t)) => {
                            let trimmed = trim_str(t.as_str());
                            if trimmed.unicode_len() > 0 {
                                let ghost before = build@;
                                build.items.push(String::from_str(trimmed));
                                assert(build@.items =~= before.items.push(trim(t@)));
                            }
                        },
                        _ => {
                            proof {
                                lemma_read_events_err(ev, i + 1);
                            }
                            return Err(PobError::BadItem());
                        },
                    }
                }
            },
        }
        i += 1;
    }
    assert(ev.take(events@.len() as int) =~= ev);
    if !saw_root {
        return Err(PobError::EmptyDocument());
    }
    Ok(build)
}

/// An XML reader over a document held in memory.
#[verifier::external_type_specification]
#[verifier::external_body]
#[verifier::reject_recursive_types(R)]
pub struct ExXmlReader<R>(quick_xml::Reader<R>);

/// One event of the XML reader, as far as the build import reads it.
#[derive(Clone, Debug)]
pub enum XmlItem {
    /// A start or empty element with its name and attributes in order: an
    /// attribute is `None` when it is malformed, and its value is `None`
    /// when it cannot be unescaped.
    Element { name: String, attributes: Vec<Option<(String, Option<String>)>> },
    /// The end of the document.
    End,
    /// Any other event: text, end tags, comments, declarations.
    Other,
    /// The document is not well-formed at this point.
    Error,
}

/// Raw attributes as read: (name, value) texts, or `None` when malformed.
pub type RawAttributes = Seq<Option<(Seq<char>, Option<Seq<char>>)>>;

/// Mathematical value of an [`XmlItem`].
pub enum XmlItemView {
    Element { name: Seq<char>, attributes: RawAttributes },
    End,
    Other,
    Error,
}

/// Views of raw attributes.
pub open spec fn raw_attr_views(a: Seq<Option<(String, Option<String>)>>) -> RawAttributes {
    a.map_values(|x: Option<(String, Option<String>)>| match x {
        Some(p) => Some((p.0@, opt_str(p.1))),
        None => None,
    })
}

impl View for XmlItem {
    type V = XmlItemView;

    open spec fn view(&self) -> XmlItemView {
        match self {
            XmlItem::Element { name, attributes } => XmlItemView::Element { name: name@, attributes: raw_attr_views(attributes@) },
            XmlItem::End => XmlItemView::End,
            XmlItem::Other => XmlItemView::Other,
            XmlItem::Error => XmlItemView::Error,
        }
    }
}

/// The event the XML reader reports on a document in the reading state
/// `pos`, and the reading state after it. States stand for how far the
/// reader has got: `0` is a reader just opened on the document, and each
/// read leads to the state this name (or [`xml_text`]) gives.
pub uninterp spec fn xml_next(doc: Seq<char>, pos: nat) -> (XmlItemView, nat);

/// The raw text the XML reader reads on a document in the reading state
/// `pos` up to the end tag `name` (`None` when it cannot be read), and the
/// reading state after it.
pub uninterp spec fn xml_text(doc: Seq<char>, pos: nat, name: Seq<char>) -> (Option<Seq<char>>, nat);

/// An XML reader over an in-memory document, with the document and the
/// reading state it is in.
pub struct XmlCursor<'a> {
    reader: quick_xml::Reader<&'a [u8]>,
    pub doc: Ghost<Seq<char>>,
    pub pos: Ghost<nat>,
}

/// `quick_xml::Reader::from_str`: a reader at the start of the document,
/// with the default configuration (text is not trimmed).
#[verifier::external_body]
fn open_xml_reader(xml: &str) -> (r: quick_xml::Reader<&[u8]>) {
    quick_xml::Reader::from_str(xml)
}

/// A cursor at the start of a document.
fn open_xml<'a>(xml: &'a str) -> (r: XmlCursor<'a>)
    ensures
        r.doc@ == xml@,
        r.pos@ == 0,
{
    XmlCursor { reader: open_xml_reader(xml), doc: Ghost(xml@), pos: Ghost(0) }
}

/// `quick_xml::Reader::read_event`: start and empty elements come back with
/// their names and attributes (`BytesStart::attributes`, each value
/// unescaped with the predefined entities by `Attribute::normalized_value`).
/// The event and the next reading state are what [`xml_next`] names for the
/// document and the current state: the reader's answer depends on the
/// document and the reads made so far alone.
#[verifier::external_body]
fn next_xml_item(cursor: &mut XmlCursor) -> (r: XmlItem)
    ensures
        final(cursor).doc == old(cursor).doc,
        (r@, final(cursor).pos@) == xml_next(old(cursor).doc@, old(cursor).pos@),
{
    match cursor.reader.read_event() {
        Ok(quick_xml::events::Event::Start(e)) | Ok(quick_xml::events::Event::Empty(e)) => XmlItem::Element {
            name: e.name().into_inner().to_string(),
            attributes: e.attributes().map(|a| a.ok().map(|a| (
                a.key.into_inner().to_string(),
                a.normalized_value(quick_xml::XmlVersion::Implicit1_0).ok().map(|v| v.into_owned()),
            ))).collect(),
        },
        Ok(quick_xml::events::Event::Eof) => XmlItem::End,
        Ok(_) => XmlItem::Other,
        Err(_) => XmlItem::Error,
    }
}

/// `quick_xml::Reader::read_text`: the raw text up to the end tag `name`
/// of the element just read (`None` when it cannot be read). The text and
/// the next reading state are what [`xml_text`] names for the document,
/// the current state and the name.
#[verifier::external_body]
fn read_element_text(cursor: &mut XmlCursor, name: &str) -> (r: Option<String>)
    ensures
        final(cursor).doc == old(cursor).doc,
        (opt_str(r), final(cursor).pos@) == xml_text(old(cursor).doc@, old(cursor).pos@, name@),
{
    cursor.reader.read_text(quick_xml::name::QName(name)).ok().map(|t| String::from(&*t))
}

/// Whether a result is the one a summary describes.
pub open spec fn outcome_is(r: Result<PobBuild, PobError>, s: Result<PobBuildView, PobError>) -> bool {
    match r {
        Ok(b) => s == Ok::<PobBuildView, PobError>(b@),
        Err(e) => s == Err::<PobBuildView, PobError>(e),
    }
}

/// The attributes that parsed, in order; malformed ones are left out.
pub open spec fn parsed_attr_views(a: RawAttributes) -> Seq<(Seq<char>, Option<Seq<char>>)>
    decreases a.len(),
{
    if a.len() == 0 {
        Seq::empty()
    } else {
        let p = parsed_attr_views(a.drop_last());
        match a.last() {
            Some(x) => p.push(x),
            None => p,
        }
    }
}

/// The attributes that parsed, in order; malformed ones are skipped.
fn parsed_attributes(attrs: Vec<Option<(String, Option<String>)>>) -> (r: Vec<(String, Option<String>)>)
    ensures
        attr_views(r@) == parsed_attr_views(raw_attr_views(attrs@)),
{
    let ghost av = raw_attr_views(attrs@);
    let mut out: Vec<(String, Option<String>)> = Vec::new();
    let mut i: usize = 0;
    assert(attr_views(out@) =~= parsed_attr_views(av.take(0)));
    while i < attrs.len()
        invariant
            i <= attrs@.len(),
            av == raw_attr_views(attrs@),
            attr_views(out@) == parsed_attr_views(av.take(i as int)),
        decreases attrs.len() - i,
    {
        assert(av.take(i + 1).drop_last() =~= av.take(i as int));
        assert(av.take(i + 1).last() == av[i as int]);
        match &attrs[i] {
            Some(a) => {
                let value = match &a.1 {
                    Some(v) => Some(v.clone()),
                    None => None,
                };
                let ghost before = out@;
                out.push((a.0.clone(), value));
                assert(attr_views(out@) =~= attr_views(before).push((a.0@, opt_str(a.1))));
            },
            None => {},
        }
        i += 1;
    }
    assert(av.take(attrs@.len() as int) =~= av);
    out
}

/// An event after which reading stops: the document is malformed there, or
/// an item's text could not be read.
pub open spec fn ends_reading(e: PobEventView) -> bool {
    match e {
        PobEventView::Malformed => true,
        PobEventView::Element { text, .. } => text == Some(None::<Seq<char>>),
    }
}

/// The shape of a read event list: an element carries the text it encloses
/// exactly when it is an item element after the first event, and only the
/// last event may end the reading.
pub open spec fn events_well_read(ev: Seq<PobEventView>) -> bool {
    &&& forall|i: int| 0 <= i < ev.len() ==> match #[trigger] ev[i] {
        PobEventView::Element { name, text, .. } => (text is Some) == (i > 0 && name == "Item"@),
        PobEventView::Malformed => true,
    }
    &&& forall|i: int| 0 <= i < ev.len() - 1 ==> !ends_reading(#[trigger] ev[i])
}

/// The element events read from state `pos` on, after the events `evs`,
/// with at most `budget` more reads: the first element as read, the item
/// elements after it with the text they enclose. Reading stops at the end
/// of the document, where it stops being well-formed, or at an item whose
/// text cannot be read.
pub open spec fn events_from(doc: Seq<char>, pos: nat, evs: Seq<PobEventView>, budget: nat) -> Seq<PobEventView>
    decreases budget,
{
    let (item, p1) = xml_next(doc, pos);
    match item {
        XmlItemView::End => evs,
        XmlItemView::Error => evs.push(PobEventView::Malformed),
        XmlItemView::Other => if budget == 0 {
            evs
        } else {
            events_from(doc, p1, evs, (budget - 1) as nat)
        },
        XmlItemView::Element { name, attributes } => {
            let reads_text = evs.len() > 0 && name == "Item"@;
            let text = if reads_text { Some(xml_text(doc, p1, name).0) } else { None };
            let p2 = if reads_text { xml_text(doc, p1, name).1 } else { p1 };
            let evs2 = evs.push(PobEventView::Element { name, attributes: parsed_attr_views(attributes), text });
            if text == Some(None::<Seq<char>>) || budget == 0 {
                evs2
            } else {
                events_from(doc, p2, evs2, (budget - 1) as nat)
            }
        },
    }
}

/// The element events of a document. Every event but the last consumes
/// at least one character of the document, so a document of `n`
/// characters is read in at most `n + 1` steps.
pub open spec fn pob_events(doc: Seq<char>) -> Seq<PobEventView> {
    events_from(doc, 0, Seq::empty(), doc.len())
}

/// The document's element events (see [`pob_events`]).
fn xml_events(xml: &str) -> (r: Vec<PobEvent>)
    ensures
        events_well_read(event_views(r@)),
        event_views(r@) == pob_events(xml@),
{
    let mut cursor = open_xml(xml);
    let mut events: Vec<PobEvent> = Vec::new();
    let mut budget: usize = xml.unicode_len();
    assert(event_views(events@) =~= Seq::<PobEventView>::empty());
    loop
        invariant_except_break
            forall|i: int| 0 <= i < events@.len() ==> !ends_reading(#[trigger] event_views(events@)[i]),
            cursor.doc@ == xml@,
            pob_events(xml@) == events_from(xml@, cursor.pos@, event_views(events@), budget as nat),
        invariant
            forall|i: int| 0 <= i < events@.len() ==> match #[trigger] event_views(events@)[i] {
                PobEventView::Element { name, text, .. } => (text is Some) == (i > 0 && name == "Item"@),
                PobEventView::Malformed => true,
            },
        ensures
            events_well_read(event_views(events@)),
            event_views(events@) == pob_events(xml@),
        decreases budget,
    {
        let ghost before = events@;
        let ghost pos0 = cursor.pos@;
        let item = next_xml_item(&mut cursor);
        let ghost p1 = cursor.pos@;
        match item {
            XmlItem::End => break,
            XmlItem::Error => {
                events.push(PobEvent::Malformed);
                assert(event_views(events@) =~= event_views(before).push(PobEventView::Malformed));
                break;
            },
            XmlItem::Other => {},
            XmlItem::Element { name, attributes } => {
                let reads_text = events.len() > 0 && str_eq(name.as_str(), "Item");
                let text = if reads_text {
                    Some(read_element_text(&mut cursor, name.as_str()))
                } else {
                    None
                };
                let unreadable = match &text {
                    Some(None) => true,
                    _ => false,
                };
                let ghost raw = attributes@;
                let attributes = parsed_attributes(attributes);
                let ghost pushed = PobEvent::Element { name, attributes, text };
                events.push(PobEvent::Element { name, attributes, text });
                assert(event_views(events@) =~= event_views(before).push(pushed@));
                if unreadable {
                    break;
                }
                if budget == 0 {
                    break;
                }
                budget -= 1;
                continue;
            },
        }
        if budget == 0 {
            break;
        }
        budget -= 1;
    }
    events
}

/// Read the build summary from an XML document: the summary of the
/// document's element events (see [`pob_events`] and [`build_from_events`]).
pub fn parse_pob_xml(xml: &str) -> (r: Result<PobBuild, PobError>)
    ensures
        outcome_is(r, spec_build_from_events(pob_events(xml@))),
{
    let events = xml_events(xml);
    build_from_events(&events)
}

/// Decode a build code and read its build summary: a code that does not
/// decode fails as [`decode_pob_code`] says; otherwise the result is the
/// summary of the document's element events.
pub fn parse_pob_build(code: &str) -> (r: Result<PobBuild, PobError>)
    ensures
        match spec_decode_pob_code(code@) {
            Err(e) => r == Err::<PobBuild, PobError>(e),
            Ok(xml) => outcome_is(r, spec_build_from_events(pob_events(xml))),
        },
{
    match decode_pob_code(code) {
        Err(e) => Err(e),
        Ok(xml) => parse_pob_xml(xml.as_str()),
    }
}

} // verus!
