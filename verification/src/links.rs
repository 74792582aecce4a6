//! Web addresses. They are read by the `url` crate and carried through the
//! model as that crate's `Url`.
use vstd::prelude::*;
use url::Url;
use crate::error::{ParseError, ParseErrorView};

verus! {

#[verifier::external_type_specification]
#[verifier::external_body]
pub struct ExUrl(url::Url);

/// What `Url::parse` returns for `text`: the address, or the message of the
/// error that it reports.
pub uninterp spec fn url_parse(text: Seq<char>) -> Result<Url, Seq<char>>;

/// `Url::clone`: the copy equals the address it was made from.
#[verifier::external_body]
pub(crate) fn clone_url(u: &Url) -> (r: Url)
    ensures
        r == *u,
{
    u.clone()
}

/// `Url::parse`: reads an absolute web address; an error is handed back as the
/// message that it displays. The result depends on the text alone, and is
/// named by [`url_parse`].
#[verifier::external_body]
fn parse_url(text: &str) -> (r: Result<Url, String>)
    ensures
        match r {
            Ok(u) => url_parse(text@) == Ok::<Url, Seq<char>>(u),
            Err(m) => url_parse(text@) == Err::<Url, Seq<char>>(m@),
        },
{
    Url::parse(text).map_err(|e| e.to_string())
}

/// The address that `text` denotes, or the error that it denotes none, with
/// the message of the `url` crate.
pub open spec fn address_of(text: Seq<char>) -> Result<Url, ParseErrorView> {
    match url_parse(text) {
        Ok(u) => Ok(u),
        Err(m) => Err(ParseErrorView::UrlParseError(m)),
    }
}

/// What a text that was read as an address gives: the address, or the error
/// that holds the message.
pub fn address(parsed: Result<Url, String>) -> (r: Result<Url, ParseError>)
    ensures
        match parsed {
            Ok(u) => r == Ok::<Url, ParseError>(u),
            Err(m) => r is Err && r->Err_0@ == ParseErrorView::UrlParseError(m@),
        },
{
    match parsed {
        Ok(u) => Ok(u),
        Err(m) => Err(ParseError::UrlParseError(m)),
    }
}

/// Reads the address that `text` denotes.
pub fn read_url(text: &str) -> (r: Result<Url, ParseError>)
    ensures
        match r {
            Ok(u) => address_of(text@) == Ok::<Url, ParseErrorView>(u),
            Err(e) => address_of(text@) == Err::<Url, ParseErrorView>(e@),
        },
{
    address(parse_url(text))
}

} // verus!
