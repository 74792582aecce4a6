//! What can go wrong while a document is converted.
use vstd::prelude::*;
use vstd::std_specs::convert::FromSpecImpl;
use vstd::string::{StrSliceExecFns, StringExecFns};
use crate::collection::Collection;
use crate::element::Element;
use crate::text::push_char;

verus! {

/// Why a conversion failed.
#[derive(Clone, Debug, PartialEq)]
pub enum ParseError {
    /// The document is not well-formed XML; the generic parser's message.
    XmlParserError(String),
    /// A web address could not be read; the message of the `url` crate.
    UrlParseError(String),
    /// The document could not be read from its source; the message.
    IOError(String),
    /// A tag stands where it may not.
    InvalidTag(String),
    /// A required tag is missing.
    MissingTag(String),
    /// A required attribute is missing: the attribute, then the tag.
    MissingAttribute(String, String),
    /// The tag has no text where text is required.
    MissingValue(String),
    /// A value that the tag does not accept: the value, the attribute, the tag.
    InvalidValue(String, String, String),
    /// Another failure: the tag, then the reason.
    Other(String, String),
}

/// A [`ParseError`] with its strings as character sequences.
pub enum ParseErrorView {
    XmlParserError(Seq<char>),
    UrlParseError(Seq<char>),
    IOError(Seq<char>),
    InvalidTag(Seq<char>),
    MissingTag(Seq<char>),
    MissingAttribute(Seq<char>, Seq<char>),
    MissingValue(Seq<char>),
    InvalidValue(Seq<char>, Seq<char>, Seq<char>),
    Other(Seq<char>, Seq<char>),
}

impl View for ParseError {
    type V = ParseErrorView;

    open spec fn view(&self) -> ParseErrorView {
        match *self {
            ParseError::XmlParserError(m) => ParseErrorView::XmlParserError(m@),
            ParseError::UrlParseError(m) => ParseErrorView::UrlParseError(m@),
            ParseError::IOError(m) => ParseErrorView::IOError(m@),
            ParseError::InvalidTag(t) => ParseErrorView::InvalidTag(t@),
            ParseError::MissingTag(t) => ParseErrorView::MissingTag(t@),
            ParseError::MissingAttribute(a, t) => ParseErrorView::MissingAttribute(a@, t@),
            ParseError::MissingValue(t) => ParseErrorView::MissingValue(t@),
            ParseError::InvalidValue(v, a, t) => ParseErrorView::InvalidValue(v@, a@, t@),
            ParseError::Other(t, r) => ParseErrorView::Other(t@, r@),
        }
    }
}

impl ParseErrorView {
    /// The message of the error.
    pub open spec fn message(self) -> Seq<char> {
        match self {
            ParseErrorView::XmlParserError(m) => "XML parser error: "@ + m,
            ParseErrorView::UrlParseError(m) => "URL parser error: "@ + m,
            ParseErrorView::IOError(m) => "Input/output error: "@ + m + " "@,
            ParseErrorView::InvalidTag(t) => "Invalid tag: "@ + t,
            ParseErrorView::MissingTag(t) => "A required tag is missing: "@ + t,
            ParseErrorView::MissingAttribute(a, t) => "Missing attribute "@ + a
                + " required by tag "@ + t,
            ParseErrorView::MissingValue(t) => "The tag "@ + t + " doesn't have a value"@,
            ParseErrorView::InvalidValue(v, a, t) => "Invalid value "@ + v
                + " passed to attribute "@ + a + " for tag "@ + t,
            ParseErrorView::Other(t, r) => "Error parsing "@ + t + ": "@ + r,
        }
    }
}

impl ParseError {
    /// Creates an invalid value error.
    pub fn invalid_value(val: &str, attr: &str, tag: &str) -> (r: Self)
        ensures
            r@ == ParseErrorView::InvalidValue(val@, attr@, tag@),
    {
        ParseError::InvalidValue(val.to_owned(), attr.to_owned(), tag.to_owned())
    }

    /// Creates an invalid tag error.
    pub fn invalid_tag(tag: &str) -> (r: Self)
        ensures
            r@ == ParseErrorView::InvalidTag(tag@),
    {
        ParseError::InvalidTag(tag.to_owned())
    }

    /// Creates a missing attribute error.
    pub fn missing_attribute(attr: &str, tag: &str) -> (r: Self)
        ensures
            r@ == ParseErrorView::MissingAttribute(attr@, tag@),
    {
        ParseError::MissingAttribute(attr.to_owned(), tag.to_owned())
    }

    /// Creates a missing tag error.
    pub fn missing_tag(tag: &str) -> (r: Self)
        ensures
            r@ == ParseErrorView::MissingTag(tag@),
    {
        ParseError::MissingTag(tag.to_owned())
    }

    /// Creates a missing value error.
    pub fn missing_value(tag: &str) -> (r: Self)
        ensures
            r@ == ParseErrorView::MissingValue(tag@),
    {
        ParseError::MissingValue(tag.to_owned())
    }

    /// Creates an error of another kind, with its reason.
    pub fn other(tag: &str, reason: &str) -> (r: Self)
        ensures
            r@ == ParseErrorView::Other(tag@, reason@),
    {
        ParseError::Other(tag.to_owned(), reason.to_owned())
    }

    /// The message of the error.
    pub fn to_string(&self) -> (r: String)
        ensures
            r@ == self@.message(),
    {
        match self {
            ParseError::XmlParserError(m) => String::from_str("XML parser error: ").concat(
                m.as_str(),
            ),
            ParseError::UrlParseError(m) => String::from_str("URL parser error: ").concat(
                m.as_str(),
            ),
            ParseError::IOError(m) => String::from_str("Input/output error: ").concat(
                m.as_str(),
            ).concat(" "),
            ParseError::InvalidTag(t) => String::from_str("Invalid tag: ").concat(t.as_str()),
            ParseError::MissingTag(t) => String::from_str("A required tag is missing: ").concat(
                t.as_str(),
            ),
            ParseError::MissingAttribute(a, t) => String::from_str("Missing attribute ").concat(
                a.as_str(),
            ).concat(" required by tag ").concat(t.as_str()),
            ParseError::MissingValue(t) => String::from_str("The tag ").concat(
                t.as_str(),
            ).concat(" doesn't have a value"),
            ParseError::InvalidValue(v, a, t) => String::from_str("Invalid value ").concat(
                v.as_str(),
            ).concat(" passed to attribute ").concat(a.as_str()).concat(" for tag ").concat(
                t.as_str(),
            ),
            ParseError::Other(t, r) => String::from_str("Error parsing ").concat(
                t.as_str(),
            ).concat(": ").concat(r.as_str()),
        }
    }
}

/// How many characters of a context are shown: more in the alternate form.
pub open spec fn context_limit(alternate: bool) -> nat {
    if alternate {
        4000
    } else {
        200
    }
}

/// The text `code` cut to `limit` characters; where it was longer, a space
/// and an ellipsis follow.
pub open spec fn snippet_of(code: Seq<char>, limit: nat) -> Seq<char> {
    if code.len() <= limit {
        code
    } else {
        code.take(limit as int) + " \u{2026}"@
    }
}

/// The text `s` with a bar put before every line but the first.
pub open spec fn piped(s: Seq<char>) -> Seq<char>
    decreases s.len(),
{
    if s.len() == 0 {
        Seq::empty()
    } else if s.last() == '\n' {
        piped(s.drop_last()) + "\n | "@
    } else {
        piped(s.drop_last()).push(s.last())
    }
}

/// How a context is shown, given its text `code`: cut to a limit, and, unless
/// for debugging, with a bar before every line.
pub open spec fn context_text(code: Seq<char>, alternate: bool, debug: bool) -> Seq<char> {
    let snippet = snippet_of(code, context_limit(alternate));
    if debug {
        snippet
    } else {
        " | "@ + piped(snippet)
    }
}

/// Cuts `code` to `limit` characters; where it was longer, a space and an
/// ellipsis follow.
pub fn snippet(code: &str, limit: usize) -> (r: String)
    ensures
        r@ == snippet_of(code@, limit as nat),
{
    if code.unicode_len() <= limit {
        code.to_owned()
    } else {
        String::from_str(code.substring_char(0, limit)).concat(" \u{2026}")
    }
}

/// Puts a bar before every line of `text` but the first.
pub fn pipe_lines(text: &str) -> (r: String)
    ensures
        r@ == piped(text@),
{
    let mut out = String::new();
    for c in it: text.chars()
        invariant
            it.seq() == text@,
            out@ == piped(text@.take(it.index() as int)),
    {
        proof {
            let i = it.index() as int;
            assert(text@.take(i + 1).drop_last() =~= text@.take(i));
            assert(text@.take(i + 1).last() == c);
        }
        if c == '\n' {
            out.append("\n | ");
        } else {
            push_char(&mut out, c);
        }
    }
    proof {
        assert(text@.take(text@.len() as int) =~= text@);
    }
    out
}

/// Shows a context, given its text `code`: cut to 200 characters, or to 4000
/// in the alternate form, and, unless for debugging, with a bar before every
/// line.
pub fn display_context(code: &str, alternate: bool, debug: bool) -> (r: String)
    ensures
        r@ == context_text(code@, alternate, debug),
{
    let limit: usize = if alternate {
        4000
    } else {
        200
    };
    let cut = snippet(code, limit);
    if debug {
        cut
    } else {
        let lines = pipe_lines(cut.as_str());
        String::from_str(" | ").concat(lines.as_str())
    }
}

/// Error akin to `ParseError` with context where it occurred.
#[derive(Debug, PartialEq)]
pub struct ContextParseError {
    error: ParseError,
    context: Option<Element>,
}

impl ContextParseError {
    /// The error.
    pub closed spec fn spec_error(&self) -> ParseError {
        self.error
    }

    /// The element in which the error occurred.
    pub closed spec fn spec_context(&self) -> Option<Element> {
        self.context
    }

    /// Create a new error with context from error and context.
    pub fn new(error: ParseError, context: Element) -> (r: Self)
        ensures
            r.spec_error() == error,
            r.spec_context() == Some(context),
    {
        ContextParseError { error, context: Some(context) }
    }

    /// The error.
    pub fn error(&self) -> (r: &ParseError)
        ensures
            *r == self.spec_error(),
    {
        &self.error
    }

    /// The element in which the error occurred.
    pub fn context(&self) -> (r: Option<&Element>)
        ensures
            match r {
                Some(c) => self.spec_context() == Some(*c),
                None => self.spec_context() is None,
            },
    {
        match &self.context {
            Some(c) => Some(c),
            None => None,
        }
    }

    /// The message of the error, and under it the context where one is
    /// given. `code` is the context as text.
    pub fn to_string(&self, code: Option<&str>, alternate: bool) -> (r: String)
        ensures
            r@ == match code {
                Some(c) => self.spec_error()@.message() + "\n"@ + context_text(
                    c@,
                    alternate,
                    false,
                ),
                None => self.spec_error()@.message(),
            },
    {
        let message = self.error.to_string();
        match code {
            Some(c) => {
                let shown = display_context(c, alternate, false);
                message.concat("\n").concat(shown.as_str())
            },
            None => message,
        }
    }
}

impl From<ContextParseError> for ParseError {
    fn from(error: ContextParseError) -> (r: Self)
        ensures
            r == error.spec_error(),
    {
        error.error
    }
}

impl FromSpecImpl<ContextParseError> for ParseError {
    open spec fn obeys_from_spec() -> bool {
        true
    }

    open spec fn from_spec(error: ContextParseError) -> Self {
        error.spec_error()
    }
}

impl From<ParseError> for ContextParseError {
    fn from(error: ParseError) -> (r: Self)
        ensures
            r.spec_error() == error,
            r.spec_context() is None,
    {
        ContextParseError { error, context: None }
    }
}

impl FromSpecImpl<ParseError> for ContextParseError {
    open spec fn obeys_from_spec() -> bool {
        false
    }

    open spec fn from_spec(error: ParseError) -> Self {
        arbitrary()
    }
}

/// The errors of the components of a collection that failed, with the
/// collection of those that did not.
#[derive(Debug, PartialEq)]
pub struct CollectionParseError {
    /// The errors, in the order of the components.
    pub errors: Vec<ContextParseError>,
    /// The collection of the components that did not fail.
    pub partial_collection: Option<Collection>,
}

impl CollectionParseError {
    /// The first of the errors, which there has to be.
    pub fn first_error(self) -> (r: ParseError)
        requires
            self.errors@.len() > 0,
        ensures
            r == self.errors@[0].spec_error(),
    {
        let mut errors = self.errors;
        let first = errors.remove(0);
        first.error
    }
}

impl From<ParseError> for CollectionParseError {
    fn from(error: ParseError) -> (r: Self)
        ensures
            r.errors@.len() == 1,
            r.errors@[0].spec_error() == error,
            r.errors@[0].spec_context() is None,
            r.partial_collection is None,
    {
        let mut errors: Vec<ContextParseError> = Vec::new();
        errors.push(ContextParseError { error, context: None });
        CollectionParseError { errors, partial_collection: None }
    }
}

impl FromSpecImpl<ParseError> for CollectionParseError {
    open spec fn obeys_from_spec() -> bool {
        false
    }

    open spec fn from_spec(error: ParseError) -> Self {
        arbitrary()
    }
}

/// The collection and the errors of a result: of a success the collection
/// and no errors, of a failure what it carries.
pub fn collection_from_result(result: Result<Collection, CollectionParseError>) -> (r: (
    Option<Collection>,
    Vec<ContextParseError>,
))
    ensures
        match result {
            Ok(collection) => r.0 == Some(collection) && r.1@.len() == 0,
            Err(err) => r.0 == err.partial_collection && r.1 == err.errors,
        },
{
    match result {
        Ok(collection) => (Some(collection), Vec::new()),
        Err(err) => (err.partial_collection, err.errors),
    }
}

} // verus!
