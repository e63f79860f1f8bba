//! The headers that every request carries: who asks, which version of the
//! protocol is spoken, and the credential.

use crate::errors::ZoteroError;
use crate::text::joined;
use reqwest::header::{HeaderMap, HeaderValue, InvalidHeaderValue};
use vstd::prelude::*;
use vstd::string::*;
use vstd::utf8::encode_utf8;

verus! {

/// `reqwest::header::HeaderMap`, a set of header fields. What it holds is
/// [`header_fields`].
#[verifier::external_type_specification]
#[verifier::external_body]
#[verifier::reject_recursive_types(T)]
pub struct ExHeaderMap<T>(HeaderMap<T>);

/// `reqwest::header::HeaderValue`, the value of one header field. Its bytes
/// are [`header_value_bytes`].
#[verifier::external_type_specification]
#[verifier::external_body]
pub struct ExHeaderValue(HeaderValue);

/// `reqwest::header::InvalidHeaderValue`, the refusal of a text as a header
/// value.
#[verifier::external_type_specification]
#[verifier::external_body]
pub struct ExInvalidHeaderValue(InvalidHeaderValue);

/// The version of this client.
pub const VERSION: &'static str = "1";

/// The version of the protocol that this client speaks.
pub const API_VERSION: &'static str = "3";

/// The name of this client; its version follows.
pub const CLIENT_NAME: &'static str = "zotero-rust/";

/// What stands before the credential in the authorization header.
pub const BEARER: &'static str = "Bearer ";

/// The name of the header that says who asks.
pub const USER_AGENT_NAME: &'static str = "user-agent";

/// The name of the header that says which version of the protocol is spoken.
pub const API_VERSION_NAME: &'static str = "zotero-api-version";

/// The name of the header that carries the credential.
pub const AUTHORIZATION_NAME: &'static str = "authorization";

/// The bytes of a header value.
pub uninterp spec fn header_value_bytes(value: HeaderValue) -> Seq<u8>;

/// What a header map holds: for each name that it has, in lower case, the
/// bytes of the first value under that name.
pub uninterp spec fn header_fields(map: HeaderMap) -> Map<Seq<char>, Seq<u8>>;

/// Whether `c` may stand in a header value that is made from text: any
/// character from the space on but the delete character, and the tab.
pub open spec fn is_header_char(c: char) -> bool {
    (' ' <= c && c != '\u{7f}') || c == '\t'
}

/// Whether `text` may stand as a header value.
pub open spec fn is_header_text(text: Seq<char>) -> bool {
    forall|i: int| 0 <= i < text.len() ==> is_header_char(#[trigger] text[i])
}

/// Whether `c` is a lower-case letter, a digit or a hyphen.
pub open spec fn is_name_char(c: char) -> bool {
    ('a' <= c <= 'z') || ('0' <= c <= '9') || c == '-'
}

/// Whether `name` is a header name of the plainest kind: one to sixty-four
/// lower-case letters, digits and hyphens.
pub open spec fn is_plain_name(name: Seq<char>) -> bool {
    &&& 0 < name.len() <= 64
    &&& forall|i: int| 0 <= i < name.len() ==> is_name_char(#[trigger] name[i])
}

/// How many names a map may hold when one more is inserted.
pub open spec fn header_room() -> nat {
    4096
}

/// Calls `HeaderValue::from_str`. It refuses a text exactly where one of its
/// bytes is below 32 and no tab, or is 127; the bytes of a character beyond
/// ASCII are all above 127. The value holds the bytes of the text.
#[verifier::external_body]
fn header_value(text: &str) -> (r: Result<HeaderValue, InvalidHeaderValue>)
    ensures
        r is Ok <==> is_header_text(text@),
        r matches Ok(value) ==> header_value_bytes(value) == encode_utf8(text@),
{
    HeaderValue::from_str(text)
}

/// Calls `HeaderMap::new`: the map holds nothing.
#[verifier::external_body]
fn new_header_map() -> (map: HeaderMap)
    ensures
        header_fields(map) =~= Map::empty(),
{
    HeaderMap::new()
}

/// Calls `HeaderMap::insert` with a name given as text. The map then holds
/// `value` under that name and, under every other name, what it held. The
/// call panics on a text that is no header name and on a map that cannot
/// grow: plain names and maps with room are neither.
#[verifier::external_body]
fn insert_header(map: &mut HeaderMap, name: &'static str, value: HeaderValue)
    requires
        is_plain_name(name@),
        header_fields(*old(map)).dom().finite(),
        header_fields(*old(map)).dom().len() < header_room(),
    ensures
        header_fields(*final(map)) == header_fields(*old(map)).insert(
            name@,
            header_value_bytes(value),
        ),
{
    map.insert(name, value);
}

/// The fields of the header set that a client with the credential `api_key`
/// sends.
pub open spec fn default_fields(api_key: Seq<char>) -> Map<Seq<char>, Seq<u8>> {
    Map::<Seq<char>, Seq<u8>>::empty().insert(
        USER_AGENT_NAME@,
        encode_utf8(CLIENT_NAME@ + VERSION@),
    ).insert(API_VERSION_NAME@, encode_utf8(API_VERSION@)).insert(
        AUTHORIZATION_NAME@,
        encode_utf8(BEARER@ + api_key),
    )
}

proof fn lemma_fixed_texts()
    ensures
        is_plain_name(USER_AGENT_NAME@),
        is_plain_name(API_VERSION_NAME@),
        is_plain_name(AUTHORIZATION_NAME@),
        USER_AGENT_NAME@ != API_VERSION_NAME@,
        USER_AGENT_NAME@ != AUTHORIZATION_NAME@,
        API_VERSION_NAME@ != AUTHORIZATION_NAME@,
        is_header_text(CLIENT_NAME@ + VERSION@),
        is_header_text(API_VERSION@),
        is_header_text(BEARER@),
{
    reveal_strlit("user-agent");
    reveal_strlit("zotero-api-version");
    reveal_strlit("authorization");
    reveal_strlit("zotero-rust/");
    reveal_strlit("1");
    reveal_strlit("3");
    reveal_strlit("Bearer ");
    assert(USER_AGENT_NAME@.len() != API_VERSION_NAME@.len());
    assert(USER_AGENT_NAME@.len() != AUTHORIZATION_NAME@.len());
    assert(API_VERSION_NAME@.len() != AUTHORIZATION_NAME@.len());
}

/// The header set of every request: the client's name and version, the
/// version of the protocol, and the credential `api_key` as a bearer token.
/// It fails only on a credential that cannot stand in a header.
pub fn default_headers(api_key: &str) -> (r: Result<HeaderMap, ZoteroError>)
    ensures
        r is Ok <==> is_header_text(api_key@),
        r matches Ok(map) ==> header_fields(map) == default_fields(api_key@) && header_fields(
            map,
        ).dom().len() == 3,
        r matches Err(e) ==> e is HeaderValueError,
{
    proof {
        lemma_fixed_texts();
    }
    let client = joined(CLIENT_NAME, VERSION);
    let bearer = joined(BEARER, api_key);
    assert(is_header_text(bearer@) <==> is_header_text(api_key@)) by {
        if is_header_text(api_key@) {
            assert forall|i: int| 0 <= i < bearer@.len() implies is_header_char(
                #[trigger] bearer@[i],
            ) by {
                if i >= BEARER@.len() {
                    assert(bearer@[i] == api_key@[i - BEARER@.len()]);
                } else {
                    assert(bearer@[i] == BEARER@[i]);
                }
            }
        }
        if is_header_text(bearer@) {
            assert forall|i: int| 0 <= i < api_key@.len() implies is_header_char(
                #[trigger] api_key@[i],
            ) by {
                assert(api_key@[i] == bearer@[i + BEARER@.len()]);
            }
        }
    }
    let mut map = new_header_map();
    match header_value(client.as_str()) {
        Ok(value) => {
            insert_header(&mut map, USER_AGENT_NAME, value);
        },
        Err(e) => {
            return Err(ZoteroError::HeaderValueError(e));
        },
    }
    match header_value(API_VERSION) {
        Ok(value) => {
            insert_header(&mut map, API_VERSION_NAME, value);
        },
        Err(e) => {
            return Err(ZoteroError::HeaderValueError(e));
        },
    }
    match header_value(bearer.as_str()) {
        Ok(value) => {
            insert_header(&mut map, AUTHORIZATION_NAME, value);
        },
        Err(e) => {
            return Err(ZoteroError::HeaderValueError(e));
        },
    }
    Ok(map)
}

} // verus!
