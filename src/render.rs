use crate::error::ParseError;
use vstd::prelude::*;

verus! {

/// How a piece of a printed line is highlighted.
#[derive(Debug, Clone, Copy, PartialEq, Eq, Structural)]
pub enum Style {
    /// The status line.
    Status,
    /// The name of a header.
    HeaderName,
    /// A body pretty-printed as JSON.
    Json,
    /// No highlight.
    Plain,
}

/// One line of output: a highlighted part, then a part printed as it is.
#[derive(Debug)]
pub struct Line {
    pub styled: String,
    pub style: Style,
    pub plain: String,
}

/// A response header: its name, its value as shown to the user (quoted,
/// with escapes), and its value as text where it can be read as text.
#[derive(Debug)]
pub struct Header {
    pub name: String,
    pub shown: String,
    pub text: Option<String>,
}

/// How the body is printed, as the `Content-Type` header decides.
#[derive(Debug, Clone, Copy, PartialEq, Eq, Structural)]
pub enum ContentKind {
    Json,
    Other,
}

/// `l` holds exactly these parts.
pub open spec fn line_is(l: Line, styled: Seq<char>, style: Style, plain: Seq<char>) -> bool {
    l.styled@ == styled && l.style == style && l.plain@ == plain
}

/// `l` is an empty line.
pub open spec fn is_blank(l: Line) -> bool {
    line_is(l, Seq::empty(), Style::Plain, Seq::empty())
}

/// The line that shows a header: `name: value`, the name highlighted.
pub open spec fn is_header_line(l: Line, h: Header) -> bool {
    line_is(l, h.name@, Style::HeaderName, ": "@ + h.shown@)
}

/// `r` holds a blank line, then one body line of these parts.
pub open spec fn is_body_output(
    r: Result<Vec<Line>, ParseError>,
    styled: Seq<char>,
    style: Style,
    plain: Seq<char>,
) -> bool {
    match r {
        Ok(ls) => ls@.len() == 2 && is_blank(ls@[0]) && line_is(ls@[1], styled, style, plain),
        Err(_) => false,
    }
}

/// Without a `Content-Type` header the body is printed as it is.
pub proof fn lemma_no_content_type_is_plain(hs: Seq<Header>)
    requires
        forall|i: int| 0 <= i < hs.len() ==> hs[i].name@ != content_type_name(),
    ensures
        content_kind_of(hs) == Ok::<ContentKind, ParseError>(ContentKind::Other),
{
    lemma_absent_name(hs, content_type_name());
}

proof fn lemma_absent_name(hs: Seq<Header>, name: Seq<char>)
    requires
        forall|i: int| 0 <= i < hs.len() ==> hs[i].name@ != name,
    ensures
        first_with_name(hs, name) is None,
    decreases hs.len(),
{
    if hs.len() > 0 {
        assert(hs[0].name@ != name);
        assert forall|i: int| 0 <= i < hs.drop_first().len() implies hs.drop_first()[i].name@ != name by {
            assert(hs.drop_first()[i] == hs[i + 1]);
        }
        lemma_absent_name(hs.drop_first(), name);
    }
}

/// A first `Content-Type` that is text and a media type other than
/// `application/json` has the body printed as it is.
pub proof fn lemma_other_content_type_is_plain(hs: Seq<Header>, i: int, t: String)
    requires
        0 <= i < hs.len(),
        hs[i].name@ == content_type_name(),
        forall|j: int| 0 <= j < i ==> hs[j].name@ != content_type_name(),
        hs[i].text == Some(t),
        json_media_of(t@) == Some(false),
    ensures
        content_kind_of(hs) == Ok::<ContentKind, ParseError>(ContentKind::Other),
{
    lemma_first_named(hs, content_type_name(), i);
}

proof fn lemma_first_named(hs: Seq<Header>, name: Seq<char>, i: int)
    requires
        0 <= i < hs.len(),
        hs[i].name@ == name,
        forall|j: int| 0 <= j < i ==> hs[j].name@ != name,
    ensures
        first_with_name(hs, name) == Some(hs[i]),
    decreases i,
{
    if i > 0 {
        assert(hs[0].name@ != name);
        assert forall|j: int| 0 <= j < i - 1 implies hs.drop_first()[j].name@ != name by {
            assert(hs.drop_first()[j] == hs[j + 1]);
        }
        lemma_first_named(hs.drop_first(), name, i - 1);
    }
}

/// The name under which the media type of a body is sent.
pub open spec fn content_type_name() -> Seq<char> {
    "content-type"@
}

/// The first header in `hs` whose name is `name`.
pub open spec fn first_with_name(hs: Seq<Header>, name: Seq<char>) -> Option<Header>
    decreases hs.len(),
{
    if hs.len() == 0 {
        None
    } else if hs[0].name@ == name {
        Some(hs[0])
    } else {
        first_with_name(hs.drop_first(), name)
    }
}

/// What the media parser's verdict on a `Content-Type` value means for the body.
pub open spec fn kind_of_verdict(verdict: Option<bool>) -> Result<ContentKind, ParseError> {
    match verdict {
        None => Err(ParseError::InvalidContentType),
        Some(true) => Ok(ContentKind::Json),
        Some(false) => Ok(ContentKind::Other),
    }
}

/// How the body of a response with headers `hs` is printed: as JSON only
/// where the first `Content-Type` is `application/json`.
pub open spec fn content_kind_of(hs: Seq<Header>) -> Result<ContentKind, ParseError> {
    match first_with_name(hs, content_type_name()) {
        None => Ok(ContentKind::Other),
        Some(h) => match h.text {
            None => Err(ParseError::HeaderDecodeFailure),
            Some(t) => kind_of_verdict(json_media_of(t@)),
        },
    }
}

/// Whether `s` parses as a media type (`None` if not), and if so whether
/// that media type is `application/json`.
pub uninterp spec fn json_media_of(s: Seq<char>) -> Option<bool>;

/// Relies on `mime::Mime`'s `FromStr` and its `==` with
/// `mime::APPLICATION_JSON`: both depend on the text alone.
#[verifier::external_body]
fn media_is_json(s: &str) -> (r: Option<bool>)
    ensures
        r == json_media_of(s@),
{
    match s.parse::<mime::Mime>() {
        Ok(m) => Some(m == mime::APPLICATION_JSON),
        Err(_) => None,
    }
}

/// Whether `s` is one JSON value, with nothing but whitespace around it.
pub uninterp spec fn is_json_text(s: Seq<char>) -> bool;

/// Relies on `serde_json::from_str::<serde_json::Value>`: whether it
/// succeeds depends on the text alone.
#[verifier::external_body]
fn json_parses(s: &str) -> (r: bool)
    ensures
        r == is_json_text(s@),
{
    serde_json::from_str::<serde_json::Value>(s).is_ok()
}

/// The text pretty-printed as indented JSON, or `None` where the
/// pretty-printer reports a failure.
pub uninterp spec fn pretty_json_of(s: Seq<char>) -> Option<Seq<char>>;

/// Relies on `jsonxf::pretty_print`: its result, an indented text or a
/// failure, depends on the text alone.
#[verifier::external_body]
fn pretty_print_json(s: &str) -> (r: Option<String>)
    ensures
        r matches Some(t) ==> pretty_json_of(s@) == Some(t@),
        r is None ==> pretty_json_of(s@) is None,
{
    jsonxf::pretty_print(s).ok()
}

fn blank_line() -> (r: Line)
    ensures
        is_blank(r),
{
    Line { styled: String::new(), style: Style::Plain, plain: String::new() }
}

/// The status line: the protocol version and the status, highlighted.
pub fn status_line(version: &str, status: &str) -> (r: Line)
    ensures
        line_is(r, version@ + " "@ + status@, Style::Status, Seq::empty()),
{
    let s = String::from_str(version).concat(" ").concat(status);
    Line { styled: s, style: Style::Status, plain: String::new() }
}

/// The line that shows one header.
pub fn header_line(h: &Header) -> (r: Line)
    ensures
        is_header_line(r, *h),
{
    let plain = String::from_str(": ").concat(h.shown.as_str());
    Line { styled: h.name.clone(), style: Style::HeaderName, plain }
}

/// The lines printed before the body: the status line, a blank line, then
/// each header in the order given.
pub fn render_head(version: &str, status: &str, headers: &Vec<Header>) -> (r: Vec<Line>)
    ensures
        r@.len() == headers@.len() + 2,
        line_is(r@[0], version@ + " "@ + status@, Style::Status, Seq::empty()),
        is_blank(r@[1]),
        forall|i: int| 0 <= i < headers@.len() ==> is_header_line(#[trigger] r@[i + 2], headers@[i]),
{
    let mut lines: Vec<Line> = Vec::new();
    lines.push(status_line(version, status));
    lines.push(blank_line());
    let mut i: usize = 0;
    while i < headers.len()
        invariant
            i <= headers@.len(),
            lines@.len() == i + 2,
            line_is(lines@[0], version@ + " "@ + status@, Style::Status, Seq::empty()),
            is_blank(lines@[1]),
            forall|j: int| 0 <= j < i ==> is_header_line(#[trigger] lines@[j + 2], headers@[j]),
        decreases headers@.len() - i,
    {
        lines.push(header_line(&headers[i]));
        i = i + 1;
    }
    lines
}

/// Where the first header named `name` stands, if any.
fn find_header(headers: &Vec<Header>, name: &String) -> (r: Option<usize>)
    ensures
        r matches Some(i) ==> i < headers@.len() && first_with_name(headers@, name@) == Some(headers@[i as int]),
        r is None ==> first_with_name(headers@, name@) is None,
{
    let mut i: usize = 0;
    assert(headers@.subrange(0, headers@.len() as int) =~= headers@);
    while i < headers.len()
        invariant
            i <= headers@.len(),
            first_with_name(headers@, name@) == first_with_name(headers@.subrange(i as int, headers@.len() as int), name@),
        decreases headers@.len() - i,
    {
        proof {
            let rest = headers@.subrange(i as int, headers@.len() as int);
            assert(rest.drop_first() =~= headers@.subrange(i + 1, headers@.len() as int));
            assert(rest[0] == headers@[i as int]);
        }
        if headers[i].name == *name {
            return Some(i);
        }
        i = i + 1;
    }
    None
}

/// What the media parser's verdict on a `Content-Type` value means for the body.
pub fn kind_from_verdict(verdict: Option<bool>) -> (r: Result<ContentKind, ParseError>)
    ensures
        r == kind_of_verdict(verdict),
{
    match verdict {
        None => Err(ParseError::InvalidContentType),
        Some(true) => Ok(ContentKind::Json),
        Some(false) => Ok(ContentKind::Other),
    }
}

/// How the body is printed, as the first `Content-Type` header decides; no
/// such header means a body printed as it is.
pub fn content_kind(headers: &Vec<Header>) -> (r: Result<ContentKind, ParseError>)
    ensures
        r == content_kind_of(headers@),
{
    let name = String::from_str("content-type");
    match find_header(headers, &name) {
        None => Ok(ContentKind::Other),
        Some(i) => match &headers[i].text {
            None => Err(ParseError::HeaderDecodeFailure),
            Some(t) => kind_from_verdict(media_is_json(t.as_str())),
        },
    }
}

/// The body line of a JSON body, from whether the body parses as JSON and
/// what the pretty-printer returned for it.
pub fn json_body_line(valid: bool, pretty: Option<String>) -> (r: Result<Line, ParseError>)
    ensures
        !valid ==> r == Err::<Line, ParseError>(ParseError::InvalidJson),
        valid ==> match pretty {
            Some(t) => (r matches Ok(l) && line_is(l, t@, Style::Json, Seq::empty())),
            None => r == Err::<Line, ParseError>(ParseError::InvalidJson),
        },
{
    if !valid {
        return Err(ParseError::InvalidJson);
    }
    match pretty {
        Some(t) => Ok(Line { styled: t, style: Style::Json, plain: String::new() }),
        None => Err(ParseError::InvalidJson),
    }
}

/// The body line of any other body: the text as it is, with no highlight.
pub fn plain_body_line(body: &str) -> (r: Line)
    ensures
        line_is(r, Seq::empty(), Style::Plain, body@),
{
    Line { styled: String::new(), style: Style::Plain, plain: String::from_str(body) }
}

/// The lines printed after the headers: a blank line, then the body,
/// pretty-printed where the first `Content-Type` is `application/json` and
/// as it is otherwise.
pub fn render_body(headers: &Vec<Header>, body: &str) -> (r: Result<Vec<Line>, ParseError>)
    ensures
        content_kind_of(headers@) matches Err(e) ==> r == Err::<Vec<Line>, ParseError>(e),
        content_kind_of(headers@) == Ok::<ContentKind, ParseError>(ContentKind::Other) ==> is_body_output(
            r,
            Seq::empty(),
            Style::Plain,
            body@,
        ),
        content_kind_of(headers@) == Ok::<ContentKind, ParseError>(ContentKind::Json) && !is_json_text(body@)
            ==> r == Err::<Vec<Line>, ParseError>(ParseError::InvalidJson),
        content_kind_of(headers@) == Ok::<ContentKind, ParseError>(ContentKind::Json) && is_json_text(body@)
            ==> match pretty_json_of(body@) {
            None => r == Err::<Vec<Line>, ParseError>(ParseError::InvalidJson),
            Some(t) => is_body_output(r, t, Style::Json, Seq::empty()),
        },
{
    let kind = content_kind(headers)?;
    let line = match kind {
        ContentKind::Json => {
            let valid = json_parses(body);
            let pretty = if valid {
                pretty_print_json(body)
            } else {
                None
            };
            json_body_line(valid, pretty)?
        },
        ContentKind::Other => plain_body_line(body),
    };
    let mut lines: Vec<Line> = Vec::new();
    lines.push(blank_line());
    lines.push(line);
    Ok(lines)
}

} // verus!
