//! The address of a request: a URL, and the query pairs that are appended to
//! it.

use crate::errors::ZoteroError;
use url::{ParseError, Url};
use vstd::prelude::*;
use vstd::string::*;
use vstd::utf8::encode_utf8;

verus! {

/// `url::Url`, a parsed URL. Its text is [`url_text`].
#[verifier::external_type_specification]
#[verifier::external_body]
pub struct ExUrl(Url);

/// `url::ParseError`, the reasons for which `url::Url::parse` refuses a text.
#[verifier::external_type_specification]
pub struct ExParseError(ParseError);

/// The text of a URL, as `url::Url::as_str` gives it. The `url` crate keeps a
/// URL such that parsing its text gives the same URL again, so the text says
/// all there is to say of it.
pub uninterp spec fn url_text(url: Url) -> Seq<char>;

/// What `url::Url::parse` makes of `input`: the text of the URL, or the
/// reason for which it refuses.
pub uninterp spec fn url_parsed(input: Seq<char>) -> Result<Seq<char>, ParseError>;

/// The text of the URL `url` after `url::Url::query_pairs_mut` was called on
/// it and nothing appended: a URL without a query has an empty one then.
pub uninterp spec fn url_with_query(url: Seq<char>) -> Seq<char>;

/// The text of the URL `url` after the pair of `key` and `value` was appended
/// to its query, as `form_urlencoded::Serializer::append_pair` encodes it.
pub uninterp spec fn url_with_query_pair(url: Seq<char>, key: Seq<char>, value: Seq<char>) -> Seq<
    char,
>;

/// The length of a text in bytes.
pub open spec fn byte_len(text: Seq<char>) -> nat {
    encode_utf8(text).len()
}

/// Whether the URL `url` has room for `extra` more bytes: the `url` crate
/// keeps positions within a URL in 32 bits.
pub open spec fn has_room(url: Seq<char>, extra: nat) -> bool {
    byte_len(url) + extra <= u32::MAX
}

/// The most bytes by which a pair of `key` and `value` lengthens a URL: each
/// byte of them becomes three bytes at most, and up to three separators
/// (`?`, `&`, `=`) come with them.
pub open spec fn pair_cost(key: Seq<char>, value: Seq<char>) -> nat {
    3 * (byte_len(key) + byte_len(value)) + 3
}

/// Calls `url::Url::parse`: the result is what [`url_parsed`] names.
#[verifier::external_body]
fn parse_url(input: &str) -> (r: Result<Url, ParseError>)
    ensures
        match r {
            Ok(url) => url_parsed(input@) == Ok::<Seq<char>, ParseError>(url_text(url)),
            Err(e) => url_parsed(input@) == Err::<Seq<char>, ParseError>(e),
        },
{
    Url::parse(input)
}

/// Calls `url::Url::as_str`: the text of the URL.
#[verifier::external_body]
fn url_str(url: &Url) -> (text: &str)
    ensures
        text@ == url_text(*url),
{
    url.as_str()
}

/// Calls `url::Url::query_pairs_mut` and lets go of what it gives. The call
/// panics where a position in the URL does not fit in 32 bits; it adds one
/// byte at most.
#[verifier::external_body]
fn open_query(url: &mut Url)
    requires
        has_room(url_text(*old(url)), 1),
    ensures
        url_text(*final(url)) == url_with_query(url_text(*old(url))),
{
    url.query_pairs_mut();
}

/// Calls `url::Url::query_pairs_mut` and, on what it gives,
/// `form_urlencoded::Serializer::append_pair`. The calls panic where a
/// position in the URL does not fit in 32 bits; they add [`pair_cost`] bytes
/// at most.
#[verifier::external_body]
fn append_query_pair(url: &mut Url, key: &str, value: &str)
    requires
        has_room(url_text(*old(url)), pair_cost(key@, value@)),
    ensures
        url_text(*final(url)) == url_with_query_pair(url_text(*old(url)), key@, value@),
{
    url.query_pairs_mut().append_pair(key, value);
}

/// A query as contracts see it: its pairs of key and value, as texts.
pub open spec fn pairs_view(pairs: Seq<(&str, &str)>) -> Seq<(Seq<char>, Seq<char>)> {
    pairs.map_values(|pair: (&str, &str)| (pair.0@, pair.1@))
}

/// The text of the URL `url` with one more pair in its query; `None` where
/// the URL has no room for the pair.
pub open spec fn with_pair(url: Seq<char>, key: Seq<char>, value: Seq<char>) -> Option<
    Seq<char>,
> {
    if has_room(url, pair_cost(key, value)) {
        Some(url_with_query_pair(url, key, value))
    } else {
        None
    }
}

/// The text of the URL `url` with the pairs `pairs` appended to its query,
/// first to last; `None` where the URL has no room for one of them.
pub open spec fn with_pairs(url: Seq<char>, pairs: Seq<(Seq<char>, Seq<char>)>) -> Option<
    Seq<char>,
>
    decreases pairs.len(),
{
    if pairs.len() == 0 {
        Some(url)
    } else {
        match with_pair(url, pairs[0].0, pairs[0].1) {
            Some(longer) => with_pairs(longer, pairs.drop_first()),
            None => None,
        }
    }
}

/// The text of the URL `url` with a query made of the pairs `pairs`: the
/// query is there even where `pairs` is empty.
pub open spec fn with_query(url: Seq<char>, pairs: Seq<(Seq<char>, Seq<char>)>) -> Option<
    Seq<char>,
> {
    if has_room(url, 1) {
        with_pairs(url_with_query(url), pairs)
    } else {
        None
    }
}

/// Whether `r` is the URL with the text `text`, or, where there is none, the
/// failure that says that a URL would be too long.
pub open spec fn is_url_or_overflow(r: Result<Url, ZoteroError>, text: Option<Seq<char>>) -> bool {
    match text {
        Some(t) => r matches Ok(url) && url_text(url) == t,
        None => r matches Err(ZoteroError::UrlParseError(ParseError::Overflow)),
    }
}

/// The outcome of resolving an address, given what the parser made of it: the
/// URL, or the failure with the parser's reason.
pub fn parsed_outcome(parsed: Result<Url, ParseError>) -> (r: Result<Url, ZoteroError>)
    ensures
        match parsed {
            Ok(url) => r == Ok::<Url, ZoteroError>(url),
            Err(e) => r == Err::<Url, ZoteroError>(ZoteroError::UrlParseError(e)),
        },
{
    match parsed {
        Ok(url) => Ok(url),
        Err(e) => Err(ZoteroError::UrlParseError(e)),
    }
}

/// Parses `input` as a URL.
pub fn parse(input: &str) -> (r: Result<Url, ZoteroError>)
    ensures
        match url_parsed(input@) {
            Ok(text) => r matches Ok(url) && url_text(url) == text,
            Err(e) => r == Err::<Url, ZoteroError>(ZoteroError::UrlParseError(e)),
        },
{
    parsed_outcome(parse_url(input))
}

/// Tells whether the URL has room for `extra` more bytes.
fn room_for(url: &Url, extra: u128) -> (yes: bool)
    ensures
        yes == has_room(url_text(*url), extra as nat),
{
    let len = url_str(url).as_bytes().len();
    let limit: u128 = 0xffff_ffff;
    extra <= limit && len as u128 <= limit - extra
}

/// Appends the pair of `key` and `value` to the query of `url`. A URL that
/// has no room for the pair is refused as too long.
pub fn append_pair(url: Url, key: &str, value: &str) -> (r: Result<Url, ZoteroError>)
    ensures
        is_url_or_overflow(r, with_pair(url_text(url), key@, value@)),
{
    let cost: u128 = 3 * (key.as_bytes().len() as u128 + value.as_bytes().len() as u128) + 3;
    if room_for(&url, cost) {
        let mut url = url;
        append_query_pair(&mut url, key, value);
        Ok(url)
    } else {
        Err(ZoteroError::UrlParseError(ParseError::Overflow))
    }
}

/// Appends the pairs `pairs` to the query of `url`, first to last.
pub fn append_pairs(url: Url, pairs: &[(&str, &str)]) -> (r: Result<Url, ZoteroError>)
    ensures
        is_url_or_overflow(r, with_pairs(url_text(url), pairs_view(pairs@))),
{
    let ghost all = pairs_view(pairs@);
    let ghost goal = with_pairs(url_text(url), all);
    let mut current = url;
    let mut i: usize = 0;
    assert(all.skip(0) =~= all);
    while i < pairs.len()
        invariant
            i <= pairs.len(),
            all == pairs_view(pairs@),
            goal == with_pairs(url_text(url), all),
            goal == with_pairs(url_text(current), all.skip(i as int)),
        decreases pairs.len() - i,
    {
        let pair = pairs[i];
        let ghost rest = all.skip(i as int);
        let ghost before = url_text(current);
        assert(rest[0] == (pair.0@, pair.1@));
        assert(rest.drop_first() =~= all.skip(i + 1));
        assert(with_pairs(before, rest) == match with_pair(before, pair.0@, pair.1@) {
            Some(longer) => with_pairs(longer, rest.drop_first()),
            None => None,
        });
        match append_pair(current, pair.0, pair.1) {
            Ok(longer) => {
                current = longer;
            },
            Err(e) => {
                assert(goal is None);
                return Err(e);
            },
        }
        i = i + 1;
    }
    assert(all.skip(i as int).len() == 0);
    Ok(current)
}

/// Gives `url` a query made of the pairs `pairs`.
pub fn append_query(url: Url, pairs: &[(&str, &str)]) -> (r: Result<Url, ZoteroError>)
    ensures
        is_url_or_overflow(r, with_query(url_text(url), pairs_view(pairs@))),
{
    if room_for(&url, 1) {
        let mut url = url;
        open_query(&mut url);
        append_pairs(url, pairs)
    } else {
        Err(ZoteroError::UrlParseError(ParseError::Overflow))
    }
}

} // verus!
