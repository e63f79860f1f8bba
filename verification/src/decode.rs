//! The response decoder: what a response that is not rate-limited holds.

use crate::errors::ZoteroError;
use crate::retry::ResponseHead;
use crate::text::{decimal, decimal_text, joined, parse_i64, parsed_i64, starts_with};
use bytes::Bytes;
use reqwest::StatusCode;
use serde_json::Value;
use vstd::prelude::*;
use vstd::string::*;
use vstd::utf8::encode_utf8;

verus! {

/// `serde_json::Value`, a JSON document.
#[verifier::external_type_specification]
#[verifier::external_body]
pub struct ExValue(Value);

/// `serde_json::Error`, the refusal of a text as JSON.
#[verifier::external_type_specification]
#[verifier::external_body]
pub struct ExJsonError(serde_json::Error);

/// `bytes::Bytes`, the bytes of a body.
#[verifier::external_type_specification]
#[verifier::external_body]
pub struct ExBytes(Bytes);

/// The content type of structured payloads.
pub const JSON_TYPE: &'static str = "application/json";

/// The content type of text payloads.
pub const HTML_TYPE: &'static str = "text/html";

/// What a response holds, decoded.
#[derive(Debug)]
pub enum Payload {
    /// A JSON document.
    Json(Value),
    /// Text, as it came.
    Text(String),
}

/// How the body of a response is to be read.
#[derive(Clone, Copy, Debug, PartialEq, Eq)]
pub enum BodyPlan {
    /// As bytes, which hold a JSON document.
    Json,
    /// As text.
    Text,
}

/// How a body of the content type `content_type` is read: as JSON where the
/// content type begins with [`JSON_TYPE`], else as text where it begins with
/// [`HTML_TYPE`]; any other content type is not supported. The texts are
/// compared by the bytes of their UTF-8 encoding.
pub open spec fn planned_body(content_type: Seq<u8>) -> Option<BodyPlan> {
    if JSON_TYPE.spec_bytes().is_prefix_of(content_type) {
        Some(BodyPlan::Json)
    } else if HTML_TYPE.spec_bytes().is_prefix_of(content_type) {
        Some(BodyPlan::Text)
    } else {
        None
    }
}

/// Decides by the declared content type alone how the body is read. A
/// response without a readable content type has the content type `""`.
pub fn plan_body(content_type: &str) -> (r: Result<BodyPlan, ZoteroError>)
    ensures
        match planned_body(content_type.spec_bytes()) {
            Some(plan) => r == Ok::<BodyPlan, ZoteroError>(plan),
            None => r matches Err(ZoteroError::UnsupportedContentType(t)) && t@ == content_type@,
        },
{
    if starts_with(content_type, JSON_TYPE) {
        Ok(BodyPlan::Json)
    } else if starts_with(content_type, HTML_TYPE) {
        Ok(BodyPlan::Text)
    } else {
        Err(ZoteroError::UnsupportedContentType(String::from_str(content_type)))
    }
}

/// The content type that a response declares: the empty text where it has no
/// readable `content-type` header.
pub open spec fn declared_type(head: ResponseHead) -> Seq<char> {
    match head.content_type {
        Some(content_type) => content_type@,
        None => Seq::empty(),
    }
}

impl ResponseHead {
    /// Decides how the body of this response is read. The status plays no
    /// part in it.
    pub fn body_plan(&self) -> (r: Result<BodyPlan, ZoteroError>)
        ensures
            match planned_body(encode_utf8(declared_type(*self))) {
                Some(plan) => r == Ok::<BodyPlan, ZoteroError>(plan),
                None => r matches Err(ZoteroError::UnsupportedContentType(t)) && t@
                    == declared_type(*self),
            },
    {
        proof {
            reveal_strlit("");
        }
        match &self.content_type {
            Some(content_type) => plan_body(content_type.as_str()),
            None => {
                assert(""@ =~= Seq::<char>::empty());
                plan_body("")
            },
        }
    }
}

/// The JSON document that the bytes `body` hold, as `serde_json::from_slice`
/// reads it; `None` where it refuses them.
pub uninterp spec fn json_document(body: Seq<u8>) -> Option<Value>;

/// Calls `serde_json::from_slice` for a `serde_json::Value`: the result is
/// the document that [`json_document`] names, and an error exactly where
/// there is none.
#[verifier::external_body]
fn parse_json(body: &[u8]) -> (r: Result<Value, serde_json::Error>)
    ensures
        r is Ok <==> json_document(body@) is Some,
        r matches Ok(v) ==> json_document(body@) == Some(v),
{
    serde_json::from_slice(body)
}

/// Calls `to_string` on a `serde_json::Error`. Nothing is claimed of the
/// message.
#[verifier::external_body]
fn json_error_text(error: &serde_json::Error) -> (message: String) {
    error.to_string()
}

/// The outcome of decoding a JSON body, given what the parser made of it: the
/// document, or a request failure with the parser's message.
pub fn json_outcome(parsed: Result<Value, String>) -> (r: Result<Payload, ZoteroError>)
    ensures
        match parsed {
            Ok(v) => r == Ok::<Payload, ZoteroError>(Payload::Json(v)),
            Err(message) => r == Err::<Payload, ZoteroError>(
                ZoteroError::HttpRequestError(message),
            ),
        },
{
    match parsed {
        Ok(v) => Ok(Payload::Json(v)),
        Err(message) => Err(ZoteroError::HttpRequestError(message)),
    }
}

/// Decodes a body that was announced as JSON. A body that is not JSON is a
/// request failure.
pub fn decode_json(body: &[u8]) -> (r: Result<Payload, ZoteroError>)
    ensures
        match json_document(body@) {
            Some(v) => r == Ok::<Payload, ZoteroError>(Payload::Json(v)),
            None => r matches Err(ZoteroError::HttpRequestError(_)),
        },
{
    match parse_json(body) {
        Ok(v) => json_outcome(Ok(v)),
        Err(e) => json_outcome(Err(json_error_text(&e))),
    }
}

/// Decodes a body that was announced as text: the text is the payload, as it
/// came.
pub fn decode_text(text: String) -> (p: Payload)
    ensures
        p == Payload::Text(text),
{
    Payload::Text(text)
}

/// Whether `status` is a success status: one of 200 to 299.
pub open spec fn is_success_status(status: u16) -> bool {
    200 <= status <= 299
}

/// Tells whether `status` is a success status.
pub fn is_success(status: u16) -> (yes: bool)
    ensures
        yes == is_success_status(status),
{
    200 <= status && status <= 299
}

/// The text of the status `code` as `reqwest::StatusCode` displays it: the
/// number and the reason phrase.
pub uninterp spec fn status_line(code: u16) -> Seq<char>;

/// Calls `reqwest::StatusCode::from_u16` and displays the status that it
/// gives. That function takes the codes from 100 to 999 and no others; for
/// them the result is the text that [`status_line`] names.
#[verifier::external_body]
fn display_status(code: u16) -> (r: Option<String>)
    ensures
        r is Some <==> 100 <= code <= 999,
        r matches Some(line) ==> line@ == status_line(code),
{
    match StatusCode::from_u16(code) {
        Ok(status) => Some(status.to_string()),
        Err(_) => None,
    }
}

/// How a status reads in a message: number and reason phrase for the codes
/// from 100 to 999, the bare number for any other.
pub open spec fn status_text(status: u16) -> Seq<char> {
    if 100 <= status <= 999 {
        status_line(status)
    } else {
        decimal(status as nat)
    }
}

/// The text of a status, given how the status displays, if it does.
pub fn status_text_from(status: u16, displayed: Option<String>) -> (text: String)
    ensures
        text@ == match displayed {
            Some(line) => line@,
            None => decimal(status as nat),
        },
{
    match displayed {
        Some(line) => line,
        None => decimal_text(status as u64),
    }
}

/// Writes a status for a message.
pub fn describe_status(status: u16) -> (text: String)
    ensures
        text@ == status_text(status),
{
    status_text_from(status, display_status(status))
}

/// How the message for a file that could not be had begins.
pub const FILE_FAILURE: &'static str = "Failed to retrieve file: ";

/// How the message for a version that could not be had begins.
pub const VERSION_FAILURE: &'static str = "Failed to retrieve last modified version: ";

/// The message for a version header that is missing or is no number.
pub const VERSION_UNREADABLE: &'static str = "Failed to parse last-modified-version header";

/// What a binary retrieval gives: the body as it came where the status is a
/// success, else a retrieval failure that names the status.
pub fn file_payload(status: u16, body: Bytes) -> (r: Result<Bytes, ZoteroError>)
    ensures
        is_success_status(status) ==> r == Ok::<Bytes, ZoteroError>(body),
        !is_success_status(status) ==> (r matches Err(ZoteroError::FileRetrievalError(message))
            && message@ == FILE_FAILURE@ + status_text(status)),
{
    if is_success(status) {
        Ok(body)
    } else {
        let status_text = describe_status(status);
        Err(ZoteroError::FileRetrievalError(joined(FILE_FAILURE, status_text.as_str())))
    }
}

/// The library version that a response reports in its
/// `last-modified-version` header, where `header` is the text of that header
/// if the response has it and it is readable as text.
pub open spec fn reported_version(status: u16, header: Option<Seq<u8>>) -> Option<i64> {
    if !is_success_status(status) {
        None
    } else {
        match header {
            Some(text) => parsed_i64(text),
            None => None,
        }
    }
}

/// The message for a response that reports no version.
pub open spec fn version_failure(status: u16) -> Seq<char> {
    if is_success_status(status) {
        VERSION_UNREADABLE@
    } else {
        VERSION_FAILURE@ + status_text(status)
    }
}

/// Reads the library version off a response: the number in the
/// `last-modified-version` header of a success response. A status that is no
/// success is a retrieval failure that names the status; a header that is
/// missing or is no number is a retrieval failure too.
pub fn last_modified_version(status: u16, header: Option<&str>) -> (r: Result<i64, ZoteroError>)
    ensures
        match reported_version(
            status,
            match header {
                Some(text) => Some(text.spec_bytes()),
                None => None,
            },
        ) {
            Some(version) => r == Ok::<i64, ZoteroError>(version),
            None => r matches Err(ZoteroError::FileRetrievalError(message)) && message@
                == version_failure(status),
        },
{
    if is_success(status) {
        let parsed = match header {
            Some(text) => parse_i64(text),
            None => None,
        };
        match parsed {
            Some(version) => Ok(version),
            None => Err(ZoteroError::FileRetrievalError(String::from_str(VERSION_UNREADABLE))),
        }
    } else {
        let status_text = describe_status(status);
        Err(ZoteroError::FileRetrievalError(joined(VERSION_FAILURE, status_text.as_str())))
    }
}

} // verus!
