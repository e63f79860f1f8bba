//! The failures that the engine reports.

use reqwest::header::InvalidHeaderValue;
use url::ParseError;
use vstd::prelude::*;

verus! {

/// Why a call failed.
#[derive(Debug)]
pub enum ZoteroError {
    /// The transport failed, or a body that was announced as JSON is not
    /// JSON. Holds the message of the failure.
    HttpRequestError(String),
    /// The response announces a content type that the decoder does not know.
    /// Holds that content type.
    UnsupportedContentType(String),
    /// The address of the request is not a URL.
    UrlParseError(ParseError),
    /// The credential cannot stand in a header.
    HeaderValueError(InvalidHeaderValue),
    /// Every attempt was answered with "too many requests".
    TooManyRequests(String),
    /// A file or a version was asked for and the response does not hold it.
    /// Holds what went wrong, with the status where the status is the cause.
    FileRetrievalError(String),
}

} // verus!
