//! The errors of the request flows, their abstract view, and the HTTP status
//! and message each is answered with.
use crate::text::push_decimal;
use vstd::prelude::*;
use vstd::string::*;

verus! {

/// Declares `url::ParseError`, the failure `url::Url::parse` reports; its
/// values are carried, never inspected.
#[verifier::external_type_specification]
#[verifier::external_body]
pub struct ExParseError(url::ParseError);

/// Why a request could not be served.
#[derive(Debug)]
pub enum ApiError {
    /// The submitted URL is longer than the accepted bound (in bytes).
    UrlTooLong { max: usize },
    /// The submitted text is not an absolute URL.
    InvalidUrl(url::ParseError),
    /// The URL parsed, but its scheme is neither http nor https.
    UnsupportedScheme { scheme: String },
    /// No mapping exists for the code.
    NotFound,
    /// Every candidate code collided with an existing one.
    TooManyCollisions,
    /// The client exceeded the rate limit of the route.
    RateLimited,
    /// The durable store failed; the text describes the failure.
    Database(String),
    /// Recording a click failed; the text describes the failure.
    ClickTrackingFailed(String),
    /// The cache failed; the text describes the failure.
    Cache(String),
}

/// The abstract value of an `ApiError`: texts as sequences, the parse
/// failure's detail left out.
pub enum ApiErrorV {
    UrlTooLong { max: nat },
    InvalidUrl,
    UnsupportedScheme { scheme: Seq<char> },
    NotFound,
    TooManyCollisions,
    RateLimited,
    Database(Seq<char>),
    ClickTrackingFailed(Seq<char>),
    Cache(Seq<char>),
}

impl View for ApiError {
    type V = ApiErrorV;

    open spec fn view(&self) -> ApiErrorV {
        match self {
            ApiError::UrlTooLong { max } => ApiErrorV::UrlTooLong { max: *max as nat },
            ApiError::InvalidUrl(_) => ApiErrorV::InvalidUrl,
            ApiError::UnsupportedScheme { scheme } => ApiErrorV::UnsupportedScheme {
                scheme: scheme@,
            },
            ApiError::NotFound => ApiErrorV::NotFound,
            ApiError::TooManyCollisions => ApiErrorV::TooManyCollisions,
            ApiError::RateLimited => ApiErrorV::RateLimited,
            ApiError::Database(m) => ApiErrorV::Database(m@),
            ApiError::ClickTrackingFailed(m) => ApiErrorV::ClickTrackingFailed(m@),
            ApiError::Cache(m) => ApiErrorV::Cache(m@),
        }
    }
}

/// The HTTP status each error is answered with.
pub open spec fn status_of(e: ApiErrorV) -> u16 {
    match e {
        ApiErrorV::UrlTooLong { .. } => 400,
        ApiErrorV::InvalidUrl => 400,
        ApiErrorV::UnsupportedScheme { .. } => 400,
        ApiErrorV::NotFound => 404,
        ApiErrorV::RateLimited => 429,
        _ => 500,
    }
}

/// The message each error is answered with; `None` for a malformed URL,
/// whose message carries the parser's own description.
pub open spec fn message_of(e: ApiErrorV) -> Option<Seq<char>> {
    match e {
        ApiErrorV::UrlTooLong { max } => Some(
            "URL exceeds maximum length of "@ + crate::text::decimal(max) + " characters"@,
        ),
        ApiErrorV::InvalidUrl => None,
        ApiErrorV::UnsupportedScheme { scheme } => Some("Unsupported URL scheme: "@ + scheme),
        ApiErrorV::NotFound => Some("URL not found"@),
        ApiErrorV::TooManyCollisions => Some("Service temporarily unavailable"@),
        ApiErrorV::RateLimited => Some("Too many requests"@),
        _ => Some("Internal server error"@),
    }
}

impl ApiError {
    /// The status code and message the client receives for this error.
    /// Failures of the store or cache are answered with a generic text, so
    /// no internal detail leaks.
    pub fn response_parts(&self) -> (r: (u16, String))
        ensures
            r.0 == status_of(self@),
            message_of(self@) matches Some(m) ==> r.1@ == m,
            self@ == ApiErrorV::InvalidUrl ==> exists|t: Seq<char>|
                r.1@ == "Invalid URL format: "@ + t,
    {
        match self {
            ApiError::UrlTooLong { max } => {
                let mut m = String::from_str("URL exceeds maximum length of ");
                push_decimal(&mut m, *max as u64);
                m.append(" characters");
                (400, m)
            },
            ApiError::InvalidUrl(e) => {
                let mut m = String::from_str("Invalid URL format: ");
                let detail = e.to_string();
                m.append(detail.as_str());
                (400, m)
            },
            ApiError::UnsupportedScheme { scheme } => {
                let mut m = String::from_str("Unsupported URL scheme: ");
                m.append(scheme.as_str());
                (400, m)
            },
            ApiError::NotFound => (404, String::from_str("URL not found")),
            ApiError::TooManyCollisions => (500, String::from_str("Service temporarily unavailable")),
            ApiError::RateLimited => (429, String::from_str("Too many requests")),
            ApiError::Database(_) => (500, String::from_str("Internal server error")),
            ApiError::ClickTrackingFailed(_) => (500, String::from_str("Internal server error")),
            ApiError::Cache(_) => (500, String::from_str("Internal server error")),
        }
    }
}

} // verus!
