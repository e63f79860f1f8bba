//! The configuration of a client, and the request that each operation makes.

use crate::address::{
    append_pair, append_query, pairs_view, parse, url_parsed, url_text, with_pair, with_pairs,
    with_query,
};
use crate::batch::{
    batch_pairs, batch_path, BatchCursor, BatchRequest, BatchTarget, ZoteroItemsBatcher,
    BATCH_DIRECTION, BATCH_SORT, COLLECTIONS_PATH, ITEMS_PATH, TRASH_PATH,
};
use crate::errors::ZoteroError;
use crate::headers::{default_fields, default_headers, header_fields, is_header_text};
use crate::retry::{RetryCoordinator, RetryModel, DEFAULT_MAX_RETRIES};
use crate::text::{decimal_text, joined};
use reqwest::header::HeaderMap;
use url::{ParseError, Url};
use vstd::prelude::*;
use vstd::string::*;

verus! {

/// Where the service is reached unless another endpoint is set.
pub const DEFAULT_ENDPOINT: &'static str = "https://api.zotero.org";

/// The locale of a fresh client.
pub const DEFAULT_LOCALE: &'static str = "en-US";

/// The part of an address that stands for the libraries of users.
pub const USER_LIBRARIES: &'static str = "users";

/// The part of an address that stands for the libraries of groups.
pub const GROUP_LIBRARIES: &'static str = "groups";

/// The key of the query pair that names the locale.
pub const LOCALE_KEY: &'static str = "locale";

/// After how many seconds a request is given up.
pub const REQUEST_TIMEOUT_SECS: u64 = 30;

/// A request, ready to be sent: a GET of `url` with the headers `headers`.
#[derive(Debug)]
pub struct RequestDescriptor {
    pub url: Url,
    pub headers: HeaderMap,
}

/// The configuration of a client as contracts see it.
pub struct ZoteroConfig {
    pub api_key: Seq<char>,
    pub endpoint: Seq<char>,
    pub library_id: Seq<char>,
    pub library_type: Seq<char>,
    pub locale: Option<Seq<char>>,
    pub max_retries: nat,
}

/// A query that may be missing, as contracts see it.
pub open spec fn params_view(params: Option<&[(&str, &str)]>) -> Option<
    Seq<(Seq<char>, Seq<char>)>,
> {
    match params {
        Some(pairs) => Some(pairs_view(pairs@)),
        None => None,
    }
}

impl ZoteroConfig {
    /// The configuration of a fresh client.
    pub open spec fn fresh(library_id: Seq<char>, library_type: Seq<char>, api_key: Seq<char>)
        -> ZoteroConfig {
        ZoteroConfig {
            api_key,
            endpoint: DEFAULT_ENDPOINT@,
            library_id,
            library_type,
            locale: Some(DEFAULT_LOCALE@),
            max_retries: DEFAULT_MAX_RETRIES as nat,
        }
    }

    /// The address of `path` in the library, before it is parsed: endpoint,
    /// kind of library, library and path, with a slash between them.
    pub open spec fn location(self, path: Seq<char>) -> Seq<char> {
        self.endpoint + seq!['/'] + self.library_type + seq!['/'] + self.library_id + seq!['/']
            + path
    }

    /// The text of the URL for `path`: the location, parsed, then the locale
    /// where one is set, then a query of `params` where they are given, then
    /// the pairs `more`. An error where the location is no URL or the URL
    /// would be too long.
    pub open spec fn resolved(
        self,
        path: Seq<char>,
        params: Option<Seq<(Seq<char>, Seq<char>)>>,
        more: Seq<(Seq<char>, Seq<char>)>,
    ) -> Result<Seq<char>, ParseError> {
        match url_parsed(self.location(path)) {
            Err(e) => Err(e),
            Ok(bare) => {
                let localized = match self.locale {
                    Some(locale) => with_pair(bare, LOCALE_KEY@, locale),
                    None => Some(bare),
                };
                let queried = match (localized, params) {
                    (Some(url), Some(pairs)) => with_query(url, pairs),
                    (Some(url), None) => Some(url),
                    (None, _) => None,
                };
                let full = match queried {
                    Some(url) => with_pairs(url, more),
                    None => None,
                };
                match full {
                    Some(url) => Ok(url),
                    None => Err(ParseError::Overflow),
                }
            },
        }
    }

    /// The text of the URL for `path` with the query `params`.
    pub open spec fn plain(self, path: Seq<char>, params: Option<Seq<(Seq<char>, Seq<char>)>>)
        -> Result<Seq<char>, ParseError> {
        self.resolved(path, params, Seq::empty())
    }

    /// The text of the URL for `path` with the query `params`, and after it
    /// the watermark `since`.
    pub open spec fn with_since(
        self,
        path: Seq<char>,
        params: Option<Seq<(Seq<char>, Seq<char>)>>,
        since: Seq<char>,
    ) -> Result<Seq<char>, ParseError> {
        self.resolved(path, params, seq![("since"@, since)])
    }

    /// Whether `r` is the URL with the text `text`, or the failure `text`.
    pub open spec fn is_address(r: Result<Url, ZoteroError>, text: Result<Seq<char>, ParseError>)
        -> bool {
        match text {
            Ok(t) => r matches Ok(url) && url_text(url) == t,
            Err(e) => r == Err::<Url, ZoteroError>(ZoteroError::UrlParseError(e)),
        }
    }

    /// Whether `r` is the request for the URL with the text `text` by a
    /// client with this configuration. An address that fails makes the
    /// request fail in the same way; else a credential that cannot stand in a
    /// header makes it fail.
    pub open spec fn is_request(
        self,
        r: Result<RequestDescriptor, ZoteroError>,
        text: Result<Seq<char>, ParseError>,
    ) -> bool {
        match text {
            Err(e) => r == Err::<RequestDescriptor, ZoteroError>(ZoteroError::UrlParseError(e)),
            Ok(t) => if is_header_text(self.api_key) {
                r matches Ok(request) && url_text(request.url) == t && header_fields(
                    request.headers,
                ) == default_fields(self.api_key)
            } else {
                r matches Err(e) && e is HeaderValueError
            },
        }
    }
}

/// The configuration of a client: whose library is read, where, and with
/// which credential.
#[derive(Debug)]
pub struct Zotero {
    api_key: String,
    endpoint: String,
    library_id: String,
    library_type: String,
    locale: Option<String>,
    max_retries: u8,
}

impl View for Zotero {
    type V = ZoteroConfig;

    closed spec fn view(&self) -> ZoteroConfig {
        ZoteroConfig {
            api_key: self.api_key@,
            endpoint: self.endpoint@,
            library_id: self.library_id@,
            library_type: self.library_type@,
            locale: match self.locale {
                Some(locale) => Some(locale@),
                None => None,
            },
            max_retries: self.max_retries as nat,
        }
    }
}

impl Zotero {
    /// A client for the library of the user `user_id`.
    pub fn user_lib(user_id: &str, api_key: &str) -> (z: Zotero)
        ensures
            z@ == ZoteroConfig::fresh(user_id@, USER_LIBRARIES@, api_key@),
    {
        Zotero::new(
            String::from_str(user_id),
            String::from_str(USER_LIBRARIES),
            String::from_str(api_key),
        )
    }

    /// A client for the library of the group `library_id`.
    pub fn group_lib(library_id: &str, api_key: &str) -> (z: Zotero)
        ensures
            z@ == ZoteroConfig::fresh(library_id@, GROUP_LIBRARIES@, api_key@),
    {
        Zotero::new(
            String::from_str(library_id),
            String::from_str(GROUP_LIBRARIES),
            String::from_str(api_key),
        )
    }

    fn new(library_id: String, library_type: String, api_key: String) -> (z: Zotero)
        ensures
            z@ == ZoteroConfig::fresh(library_id@, library_type@, api_key@),
    {
        Zotero {
            api_key,
            endpoint: String::from_str(DEFAULT_ENDPOINT),
            library_id,
            library_type,
            locale: Some(String::from_str(DEFAULT_LOCALE)),
            max_retries: DEFAULT_MAX_RETRIES,
        }
    }

    /// Sets where the service is reached.
    pub fn set_endpoint(&mut self, endpoint: &str)
        ensures
            final(self)@ == (ZoteroConfig { endpoint: endpoint@, ..old(self)@ }),
    {
        self.endpoint = String::from_str(endpoint);
    }

    /// Sets the locale that every request names.
    pub fn set_locale(&mut self, locale: &str)
        ensures
            final(self)@ == (ZoteroConfig { locale: Some(locale@), ..old(self)@ }),
    {
        self.locale = Some(String::from_str(locale));
    }

    /// Sets how often a request may be sent.
    pub fn set_max_retries(&mut self, max_retries: u8)
        ensures
            final(self)@ == (ZoteroConfig { max_retries: max_retries as nat, ..old(self)@ }),
    {
        self.max_retries = max_retries;
    }

    /// How often a request may be sent.
    pub fn max_retries(&self) -> (n: u8)
        ensures
            n == self@.max_retries,
    {
        self.max_retries
    }

    /// A coordinator for one call of this client.
    pub fn retry_coordinator(&self) -> (c: RetryCoordinator)
        ensures
            c@ == RetryModel::start(self@.max_retries),
    {
        RetryCoordinator::new(self.max_retries)
    }

    /// The headers of every request of this client.
    pub fn default_headers(&self) -> (r: Result<HeaderMap, ZoteroError>)
        ensures
            r is Ok <==> is_header_text(self@.api_key),
            r matches Ok(map) ==> header_fields(map) == default_fields(self@.api_key),
            r matches Err(e) ==> e is HeaderValueError,
    {
        default_headers(self.api_key.as_str())
    }

    fn location(&self, path: &str) -> (text: String)
        ensures
            text@ == self@.location(path@),
    {
        proof {
            reveal_strlit("/");
        }
        let mut text = joined(self.endpoint.as_str(), "/");
        text.append(self.library_type.as_str());
        text.append("/");
        text.append(self.library_id.as_str());
        text.append("/");
        text.append(path);
        assert(text@ =~= self@.location(path@));
        text
    }

    /// The URL of `path` in the library, with the locale and the query
    /// `params`.
    pub fn build_url(&self, path: &str, params: Option<&[(&str, &str)]>) -> (r: Result<
        Url,
        ZoteroError,
    >)
        ensures
            ZoteroConfig::is_address(r, self@.plain(path@, params_view(params))),
    {
        let location = self.location(path);
        let bare = match parse(location.as_str()) {
            Ok(url) => url,
            Err(e) => {
                return Err(e);
            },
        };
        let localized = match &self.locale {
            Some(locale) => {
                match append_pair(bare, LOCALE_KEY, locale.as_str()) {
                    Ok(url) => url,
                    Err(e) => {
                        return Err(e);
                    },
                }
            },
            None => bare,
        };
        match params {
            Some(pairs) => append_query(localized, pairs),
            None => Ok(localized),
        }
    }

    /// Puts the headers of this client to an address.
    fn with_headers(&self, address: Result<Url, ZoteroError>) -> (r: Result<
        RequestDescriptor,
        ZoteroError,
    >)
        ensures
            match address {
                Err(e) => r == Err::<RequestDescriptor, ZoteroError>(e),
                Ok(url) => if is_header_text(self@.api_key) {
                    r matches Ok(request) && request.url == url && header_fields(request.headers)
                        == default_fields(self@.api_key)
                } else {
                    r matches Err(e) && e is HeaderValueError
                },
            },
    {
        match address {
            Err(e) => Err(e),
            Ok(url) => match self.default_headers() {
                Ok(headers) => Ok(RequestDescriptor { url, headers }),
                Err(e) => Err(e),
            },
        }
    }

    /// The request for `path` in the library, with the query `params`.
    pub fn request(&self, path: &str, params: Option<&[(&str, &str)]>) -> (r: Result<
        RequestDescriptor,
        ZoteroError,
    >)
        ensures
            self@.is_request(r, self@.plain(path@, params_view(params))),
    {
        self.with_headers(self.build_url(path, params))
    }

    /// The request for `path` in the library, with the query `params` and
    /// after it the watermark `since`.
    fn request_since(&self, path: &str, since: &str, params: Option<&[(&str, &str)]>) -> (r:
        Result<RequestDescriptor, ZoteroError>)
        ensures
            self@.is_request(r, self@.with_since(path@, params_view(params), since@)),
    {
        let ghost more = seq![("since"@, since@)];
        let address = match self.build_url(path, params) {
            Ok(url) => {
                assert(with_pairs(url_text(url), more) == with_pair(
                    url_text(url),
                    "since"@,
                    since@,
                )) by {
                    assert(more.drop_first().len() == 0);
                    match with_pair(url_text(url), more[0].0, more[0].1) {
                        Some(longer) => {
                            assert(with_pairs(longer, more.drop_first()) == Some(longer));
                        },
                        None => {},
                    }
                }
                append_pair(url, "since", since)
            },
            Err(e) => Err(e),
        };
        self.with_headers(address)
    }

    /// The request for what the credential of this client permits.
    pub fn get_key_info(&self, params: Option<&[(&str, &str)]>) -> (r: Result<
        RequestDescriptor,
        ZoteroError,
    >)
        ensures
            self@.is_request(r, self@.plain("keys/"@ + self@.api_key, params_view(params))),
    {
        let path = joined("keys/", self.api_key.as_str());
        self.request(path.as_str(), params)
    }

    /// The request for the top-level items of the library.
    pub fn get_top(&self, params: Option<&[(&str, &str)]>) -> (r: Result<
        RequestDescriptor,
        ZoteroError,
    >)
        ensures
            self@.is_request(r, self@.plain("items/top"@, params_view(params))),
    {
        self.request("items/top", params)
    }

    /// The request for the collections of the library.
    pub fn get_collections(&self, params: Option<&[(&str, &str)]>) -> (r: Result<
        RequestDescriptor,
        ZoteroError,
    >)
        ensures
            self@.is_request(r, self@.plain("collections"@, params_view(params))),
    {
        self.request("collections", params)
    }

    /// The request for the collection `collection_id`.
    pub fn get_collection(&self, collection_id: &str, params: Option<&[(&str, &str)]>) -> (r:
        Result<RequestDescriptor, ZoteroError>)
        ensures
            self@.is_request(
                r,
                self@.plain("collections/"@ + collection_id@, params_view(params)),
            ),
    {
        let path = joined("collections/", collection_id);
        self.request(path.as_str(), params)
    }

    /// The request for the top-level collections of the library.
    pub fn get_collections_top(&self, params: Option<&[(&str, &str)]>) -> (r: Result<
        RequestDescriptor,
        ZoteroError,
    >)
        ensures
            self@.is_request(r, self@.plain("collections/top"@, params_view(params))),
    {
        self.request("collections/top", params)
    }

    /// The request for the collections within the collection `collection_id`.
    pub fn get_collections_sub(&self, collection_id: &str, params: Option<&[(&str, &str)]>) -> (r:
        Result<RequestDescriptor, ZoteroError>)
        ensures
            self@.is_request(
                r,
                self@.plain(
                    "collections/"@ + collection_id@ + "/collections"@,
                    params_view(params),
                ),
            ),
    {
        let mut path = joined("collections/", collection_id);
        path.append("/collections");
        self.request(path.as_str(), params)
    }

    /// The request for the items of the collection `collection_id`.
    pub fn get_collection_items(&self, collection_id: &str, params: Option<&[(&str, &str)]>) -> (r:
        Result<RequestDescriptor, ZoteroError>)
        ensures
            self@.is_request(
                r,
                self@.plain("collections/"@ + collection_id@ + "/items"@, params_view(params)),
            ),
    {
        let mut path = joined("collections/", collection_id);
        path.append("/items");
        self.request(path.as_str(), params)
    }

    /// The request for the item `item_id`.
    pub fn get_item(&self, item_id: &str, params: Option<&[(&str, &str)]>) -> (r: Result<
        RequestDescriptor,
        ZoteroError,
    >)
        ensures
            self@.is_request(r, self@.plain("items/"@ + item_id@, params_view(params))),
    {
        let path = joined("items/", item_id);
        self.request(path.as_str(), params)
    }

    /// The request for the items of the library.
    pub fn get_items(&self, params: Option<&[(&str, &str)]>) -> (r: Result<
        RequestDescriptor,
        ZoteroError,
    >)
        ensures
            self@.is_request(r, self@.plain("items"@, params_view(params))),
    {
        self.request("items", params)
    }

    /// The request for the full text of the item `item_key`.
    pub fn get_fulltext_item(&self, item_key: &str, params: Option<&[(&str, &str)]>) -> (r:
        Result<RequestDescriptor, ZoteroError>)
        ensures
            self@.is_request(
                r,
                self@.plain("items/"@ + item_key@ + "/fulltext"@, params_view(params)),
            ),
    {
        let mut path = joined("items/", item_key);
        path.append("/fulltext");
        self.request(path.as_str(), params)
    }

    /// The request for the full texts that are newer than the version `since`.
    pub fn get_new_fulltext(&self, since: &str, params: Option<&[(&str, &str)]>) -> (r: Result<
        RequestDescriptor,
        ZoteroError,
    >)
        ensures
            self@.is_request(r, self@.with_since("fulltext"@, params_view(params), since@)),
    {
        self.request_since("fulltext", since, params)
    }

    /// The request for the items in the trash.
    pub fn get_trash(&self, params: Option<&[(&str, &str)]>) -> (r: Result<
        RequestDescriptor,
        ZoteroError,
    >)
        ensures
            self@.is_request(r, self@.plain("items/trash"@, params_view(params))),
    {
        self.request("items/trash", params)
    }

    /// The request for what was deleted after the version `since`.
    pub fn get_deleted(&self, since: &str, params: Option<&[(&str, &str)]>) -> (r: Result<
        RequestDescriptor,
        ZoteroError,
    >)
        ensures
            self@.is_request(r, self@.with_since("deleted"@, params_view(params), since@)),
    {
        self.request_since("deleted", since, params)
    }

    /// The request for the children of the item `item_id`.
    pub fn get_children(&self, item_id: &str, params: Option<&[(&str, &str)]>) -> (r: Result<
        RequestDescriptor,
        ZoteroError,
    >)
        ensures
            self@.is_request(
                r,
                self@.plain("items/"@ + item_id@ + "/children"@, params_view(params)),
            ),
    {
        let mut path = joined("items/", item_id);
        path.append("/children");
        self.request(path.as_str(), params)
    }

    /// The request for the tags of the library.
    pub fn get_tags(&self, params: Option<&[(&str, &str)]>) -> (r: Result<
        RequestDescriptor,
        ZoteroError,
    >)
        ensures
            self@.is_request(r, self@.plain("tags"@, params_view(params))),
    {
        self.request("tags", params)
    }

    /// The request for the tags of the item `item_id`.
    pub fn get_item_tags(&self, item_id: &str, params: Option<&[(&str, &str)]>) -> (r: Result<
        RequestDescriptor,
        ZoteroError,
    >)
        ensures
            self@.is_request(
                r,
                self@.plain("items/"@ + item_id@ + "/tags"@, params_view(params)),
            ),
    {
        let mut path = joined("items/", item_id);
        path.append("/tags");
        self.request(path.as_str(), params)
    }

    /// The request for the file of the item `item_id`. What the response
    /// holds is [`crate::decode::file_payload`].
    pub fn get_file(&self, item_id: &str, params: Option<&[(&str, &str)]>) -> (r: Result<
        RequestDescriptor,
        ZoteroError,
    >)
        ensures
            self@.is_request(
                r,
                self@.plain("items/"@ + item_id@ + "/file"@, params_view(params)),
            ),
    {
        let mut path = joined("items/", item_id);
        path.append("/file");
        self.request(path.as_str(), params)
    }

    /// The request whose response reports the version of the library: that
    /// for the items, with `params` and a limit of one item. What the
    /// response reports is [`crate::decode::last_modified_version`].
    pub fn get_last_modified_version(&self, params: Option<&[(&str, &str)]>) -> (r: Result<
        RequestDescriptor,
        ZoteroError,
    >)
        ensures
            self@.is_request(
                r,
                self@.plain(
                    "items"@,
                    Some(
                        match params_view(params) {
                            Some(pairs) => pairs,
                            None => Seq::empty(),
                        }.push(("limit"@, "1"@)),
                    ),
                ),
            ),
    {
        let mut pairs: Vec<(&str, &str)> = Vec::new();
        match params {
            Some(given) => {
                let mut i: usize = 0;
                while i < given.len()
                    invariant
                        i <= given.len(),
                        pairs@ == given@.take(i as int),
                    decreases given.len() - i,
                {
                    pairs.push(given[i]);
                    assert(pairs@ =~= given@.take(i + 1));
                    i = i + 1;
                }
                assert(pairs@ =~= given@);
            },
            None => {},
        }
        let ghost before = pairs_view(pairs@);
        assert(before =~= match params_view(params) {
            Some(pairs) => pairs,
            None => Seq::empty(),
        });
        pairs.push(("limit", "1"));
        assert(pairs_view(pairs@) =~= before.push(("limit"@, "1"@)));
        self.request("items", Some(pairs.as_slice()))
    }

    /// A batcher over the items of the library whose version is above
    /// `since`, in batches of `batch_size`.
    pub fn get_items_in_batch(&self, since: usize, batch_size: usize) -> (b: ZoteroItemsBatcher)
        ensures
            b@ == BatchCursor::start(since as nat, batch_size as nat),
    {
        ZoteroItemsBatcher::new(since, batch_size)
    }

    /// The request that fetches the batch `batch` of the resource `target`.
    pub fn get_batch(&self, target: BatchTarget, batch: &BatchRequest) -> (r: Result<
        RequestDescriptor,
        ZoteroError,
    >)
        ensures
            self@.is_request(
                r,
                self@.plain(batch_path(target), Some(batch_pairs(target, *batch))),
            ),
    {
        let start = decimal_text(batch.start as u64);
        let since = decimal_text(batch.since as u64);
        let limit = decimal_text(batch.limit as u64);
        let mut pairs: Vec<(&str, &str)> = Vec::new();
        pairs.push(("start", start.as_str()));
        let path = match target {
            BatchTarget::Items => {
                pairs.push(("since", since.as_str()));
                ITEMS_PATH
            },
            BatchTarget::Trash => {
                pairs.push(("since", since.as_str()));
                TRASH_PATH
            },
            BatchTarget::Collections => COLLECTIONS_PATH,
        };
        pairs.push(("limit", limit.as_str()));
        pairs.push(("sort", BATCH_SORT));
        pairs.push(("direction", BATCH_DIRECTION));
        assert(pairs_view(pairs@) =~= batch_pairs(target, *batch));
        self.request(path, Some(pairs.as_slice()))
    }
}

} // verus!
