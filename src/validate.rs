//! Validation of submitted URLs: a length bound, then an absolute URL whose
//! scheme is http or https.
use crate::error::{ApiError, ApiErrorV};
use crate::text::same_text;
use vstd::prelude::*;
use vstd::string::*;
use vstd::utf8::encode_utf8;

verus! {

/// Longest URL accepted for shortening, in bytes of its UTF-8 text.
pub const URL_LENGTH_LIMIT: usize = 2048;

/// The scheme that `url::Url::parse` reads off `text` (lower case), or
/// `None` where the text does not parse as an absolute URL.
pub uninterp spec fn scheme_of(text: Seq<char>) -> Option<Seq<char>>;

/// Relies on `url::Url::parse` and `Url::scheme`: whether the text parses and
/// which scheme it names depend on the text alone.
#[verifier::external_body]
fn parse_scheme(text: &str) -> (r: Result<String, url::ParseError>)
    ensures
        match r {
            Ok(s) => scheme_of(text@) == Some(s@),
            Err(_) => scheme_of(text@) is None,
        },
{
    match url::Url::parse(text) {
        Ok(parsed) => Ok(parsed.scheme().to_string()),
        Err(e) => Err(e),
    }
}

/// Length of the UTF-8 encoding of `s`.
pub open spec fn byte_len(s: Seq<char>) -> nat {
    encode_utf8(s).len()
}

/// The schemes a short link may point to.
pub open spec fn scheme_allowed(s: Seq<char>) -> bool {
    s == "http"@ || s == "https"@
}

/// The error, if any, for a URL whose parse produced `parsed`.
pub open spec fn scheme_verdict(parsed: Option<Seq<char>>) -> Option<ApiErrorV> {
    match parsed {
        None => Some(ApiErrorV::InvalidUrl),
        Some(s) => if scheme_allowed(s) {
            None
        } else {
            Some(ApiErrorV::UnsupportedScheme { scheme: s })
        },
    }
}

/// The error, if any, for a URL submitted for shortening.
pub open spec fn input_verdict(url: Seq<char>) -> Option<ApiErrorV> {
    if byte_len(url) > URL_LENGTH_LIMIT {
        Some(ApiErrorV::UrlTooLong { max: URL_LENGTH_LIMIT as nat })
    } else {
        scheme_verdict(scheme_of(url))
    }
}

/// `None` for `Ok`, the error's view otherwise.
pub open spec fn verdict(r: Result<(), ApiError>) -> Option<ApiErrorV> {
    match r {
        Ok(_) => None,
        Err(e) => Some(e@),
    }
}

/// Accepts an http or https scheme and rejects any other, naming it.
pub fn check_scheme(scheme: String) -> (r: Result<(), ApiError>)
    ensures
        verdict(r) == scheme_verdict(Some(scheme@)),
{
    let is_http = same_text(scheme.as_str(), "http");
    let is_https = same_text(scheme.as_str(), "https");
    if is_http || is_https {
        Ok(())
    } else {
        Err(ApiError::UnsupportedScheme { scheme })
    }
}

/// Checks that `url` parses as an absolute URL with an http or https scheme.
pub fn validate_url_format(url: &str) -> (r: Result<(), ApiError>)
    ensures
        verdict(r) == scheme_verdict(scheme_of(url@)),
{
    match parse_scheme(url) {
        Ok(scheme) => check_scheme(scheme),
        Err(e) => Err(ApiError::InvalidUrl(e)),
    }
}

/// Checks a URL submitted for shortening: first its length, then its form.
pub fn validate_shorten_input(url: &str) -> (r: Result<(), ApiError>)
    ensures
        verdict(r) == input_verdict(url@),
{
    if url.as_bytes().len() > URL_LENGTH_LIMIT {
        Err(ApiError::UrlTooLong { max: URL_LENGTH_LIMIT })
    } else {
        validate_url_format(url)
    }
}

/// Checks that `url` parses as an absolute http or https URL, answering a
/// rejection with status 400 and a message for the client.
pub fn validate_url(url: &str) -> (r: Result<(), (u16, String)>)
    ensures
        r is Ok <==> scheme_verdict(scheme_of(url@)) is None,
        r matches Err((status, message)) ==> status == 400 && (scheme_of(url@) is Some ==> message@
            == "Only http and https schemes are accepted"@) && (scheme_of(url@) is None ==> exists|t: Seq<char>|
            message@ == "Invalid URL: "@ + t),
{
    match parse_scheme(url) {
        Ok(scheme) => match check_scheme(scheme) {
            Ok(()) => Ok(()),
            Err(_) => Err((400, String::from_str("Only http and https schemes are accepted"))),
        },
        Err(e) => {
            let mut message = String::from_str("Invalid URL: ");
            let detail = e.to_string();
            message.append(detail.as_str());
            Err((400, message))
        },
    }
}

} // verus!
