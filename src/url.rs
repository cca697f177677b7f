use crate::error::ParseError;
use vstd::prelude::*;

verus! {

/// What the URL parser makes of `s`: `None` where it refuses the text, else
/// whether the URL it read has a host.
pub uninterp spec fn url_host_verdict(s: Seq<char>) -> Option<bool>;

/// Relies on `reqwest::Url::parse` (the `url` crate) and `Url::has_host`:
/// both depend on the text alone, and without a `:` no scheme can be read,
/// so a string without one is refused.
#[verifier::external_body]
fn url_verdict(s: &str) -> (r: Option<bool>)
    ensures
        r == url_host_verdict(s@),
        !s@.contains(':') ==> r is None,
{
    match reqwest::Url::parse(s) {
        Ok(u) => Some(u.has_host()),
        Err(_) => None,
    }
}

/// Whether the parser's verdict on a URL makes it an absolute URL: one that
/// parses and has a host.
pub open spec fn is_absolute_verdict(verdict: Option<bool>) -> bool {
    verdict == Some(true)
}

/// Hands `url` back where the parser's verdict on it shows a URL with a
/// host, and refuses it otherwise.
pub fn url_from_verdict(url: &str, verdict: Option<bool>) -> (r: Result<String, ParseError>)
    ensures
        r is Ok <==> is_absolute_verdict(verdict),
        r matches Ok(s) ==> s@ == url@,
        r matches Err(e) ==> e == ParseError::InvalidUrl,
{
    match verdict {
        Some(true) => Ok(String::from_str(url)),
        _ => Err(ParseError::InvalidUrl),
    }
}

/// Checks that `url` is an absolute URL, a scheme and a host, and hands it
/// back as it was written.
pub fn parse_url(url: &str) -> (r: Result<String, ParseError>)
    ensures
        r is Ok <==> is_absolute_verdict(url_host_verdict(url@)),
        r matches Ok(s) ==> s@ == url@,
        r matches Err(e) ==> e == ParseError::InvalidUrl,
        !url@.contains(':') ==> r is Err,
{
    url_from_verdict(url, url_verdict(url))
}

} // verus!
