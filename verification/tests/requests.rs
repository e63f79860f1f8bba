use url::ParseError;
use zotero_rs::address::{append_pair, append_pairs, append_query, parse};
use zotero_rs::client::REQUEST_TIMEOUT_SECS;
use zotero_rs::headers::default_headers;
use zotero_rs::{Zotero, ZoteroError};

fn zot() -> Zotero {
    Zotero::user_lib("myuserID", "myuserkey")
}

#[test]
fn test_synchronous_test_get_items() {
    let mut zot = Zotero::user_lib("myuserID", "myuserkey");
    zot.set_endpoint("http://127.0.0.1:5000");
    let request = zot.get_items(None).unwrap();
    assert_eq!(request.url.path(), "/users/myuserID/items");
    assert_eq!(request.url.host_str(), Some("127.0.0.1"));
    assert_eq!(request.url.port(), Some(5000));
    println!("{:?}", request);
}

#[test]
fn test_synchronous_test_locale() {
    let mut zot = Zotero::user_lib("myuserID", "myuserkey");
    zot.set_locale("en-US");
    zot.set_endpoint("http://127.0.0.1:5000");
    let request = zot.get_items(None).unwrap();
    assert_eq!(request.url.path(), "/users/myuserID/items");
    let pairs: Vec<(String, String)> = request.url.query_pairs().into_owned().collect();
    assert_eq!(pairs, vec![("locale".to_string(), "en-US".to_string())]);
}

#[test]
fn test_last_modified_version() {
    let mut zot = Zotero::user_lib("myuserID", "myuserkey");
    zot.set_endpoint("http://127.0.0.1:5000");
    let request = zot.get_last_modified_version(None).unwrap();
    assert_eq!(request.url.path(), "/users/myuserID/items");
    assert!(request
        .url
        .query_pairs()
        .any(|(k, v)| k == "limit" && v == "1"));
    let version = zotero_rs::decode::last_modified_version(200, Some("12345")).unwrap();
    assert_eq!(version, 12345);
}

#[test]
fn the_limit_of_a_version_request_comes_after_the_given_query() {
    let request = zot()
        .get_last_modified_version(Some(&[("since", "7"), ("limit", "9")]))
        .unwrap();
    assert_eq!(
        request.url.as_str(),
        "https://api.zotero.org/users/myuserID/items?locale=en-US&since=7&limit=9&limit=1"
    );
    assert_eq!(
        zot().get_last_modified_version(None).unwrap().url.as_str(),
        "https://api.zotero.org/users/myuserID/items?locale=en-US&limit=1"
    );
}

#[test]
fn every_operation_has_its_path() {
    let z = zot();
    let base = "https://api.zotero.org/users/myuserID/";
    let cases: Vec<(Result<zotero_rs::client::RequestDescriptor, ZoteroError>, &str)> = vec![
        (z.get_key_info(None), "keys/myuserkey"),
        (z.get_top(None), "items/top"),
        (z.get_collections(None), "collections"),
        (z.get_collection("C1", None), "collections/C1"),
        (z.get_collections_top(None), "collections/top"),
        (z.get_collections_sub("C1", None), "collections/C1/collections"),
        (z.get_collection_items("C1", None), "collections/C1/items"),
        (z.get_item("I9", None), "items/I9"),
        (z.get_items(None), "items"),
        (z.get_fulltext_item("I9", None), "items/I9/fulltext"),
        (z.get_trash(None), "items/trash"),
        (z.get_children("I9", None), "items/I9/children"),
        (z.get_tags(None), "tags"),
        (z.get_item_tags("I9", None), "items/I9/tags"),
        (z.get_file("MYITEMID", None), "items/MYITEMID/file"),
        (z.request("searches", None), "searches"),
    ];
    for (request, path) in cases {
        let request = request.unwrap();
        assert_eq!(
            request.url.as_str(),
            format!("{}{}?locale=en-US", base, path)
        );
        assert_eq!(request.headers.len(), 3);
    }
}

#[test]
fn a_group_library_is_addressed_under_groups() {
    let z = Zotero::group_lib("4711", "key");
    assert_eq!(
        z.get_items(None).unwrap().url.as_str(),
        "https://api.zotero.org/groups/4711/items?locale=en-US"
    );
}

#[test]
fn the_watermark_follows_the_query() {
    let z = zot();
    assert_eq!(
        z.get_new_fulltext("17", None).unwrap().url.as_str(),
        "https://api.zotero.org/users/myuserID/fulltext?locale=en-US&since=17"
    );
    assert_eq!(
        z.get_deleted("0", Some(&[("a", "b")])).unwrap().url.as_str(),
        "https://api.zotero.org/users/myuserID/deleted?locale=en-US&a=b&since=0"
    );
}

#[test]
fn the_query_is_appended_in_order_and_encoded() {
    let z = zot();
    let request = z
        .get_items(Some(&[
            ("q", "war & peace"),
            ("tag", "a/b"),
            ("q", "\u{e9}t\u{e9}"),
            ("", ""),
        ]))
        .unwrap();
    assert_eq!(
        request.url.as_str(),
        "https://api.zotero.org/users/myuserID/items?locale=en-US&q=war+%26+peace&tag=a%2Fb&q=%C3%A9t%C3%A9&="
    );
    assert_eq!(
        z.get_items(Some(&[])).unwrap().url.as_str(),
        "https://api.zotero.org/users/myuserID/items?locale=en-US"
    );
}

#[test]
fn the_locale_is_the_first_pair_of_the_query() {
    let mut z = zot();
    z.set_locale("fr-FR");
    assert_eq!(
        z.build_url("items", Some(&[("limit", "5")])).unwrap().as_str(),
        "https://api.zotero.org/users/myuserID/items?locale=fr-FR&limit=5"
    );
    z.set_locale("de DE");
    assert_eq!(
        z.build_url("items", None).unwrap().query(),
        Some("locale=de+DE")
    );
}

#[test]
fn an_endpoint_that_is_no_url_is_refused() {
    let mut z = zot();
    z.set_endpoint("not a url");
    match z.get_items(None) {
        Err(ZoteroError::UrlParseError(e)) => assert_eq!(e, ParseError::RelativeUrlWithoutBase),
        other => panic!("{:?}", other),
    }
    z.set_endpoint("");
    assert!(matches!(
        z.build_url("items", None),
        Err(ZoteroError::UrlParseError(ParseError::RelativeUrlWithoutBase))
    ));
    z.set_endpoint("https://exa mple.org");
    assert!(matches!(
        z.get_items(None),
        Err(ZoteroError::UrlParseError(_))
    ));
    z.set_endpoint("https://[::1");
    assert!(matches!(
        z.get_file("X", None),
        Err(ZoteroError::UrlParseError(_))
    ));
}

#[test]
fn the_address_fails_before_the_credential() {
    let mut z = Zotero::user_lib("myuserID", "bad\nkey");
    assert!(matches!(
        z.get_items(None),
        Err(ZoteroError::HeaderValueError(_))
    ));
    z.set_endpoint("not a url");
    assert!(matches!(
        z.get_items(None),
        Err(ZoteroError::UrlParseError(_))
    ));
}

#[test]
fn the_headers_are_name_version_and_credential() {
    let headers = zot().default_headers().unwrap();
    assert_eq!(headers.len(), 3);
    assert_eq!(headers.get("user-agent").unwrap(), "zotero-rust/1");
    assert_eq!(headers.get("Zotero-API-Version").unwrap(), "3");
    assert_eq!(headers.get("authorization").unwrap(), "Bearer myuserkey");
    assert_eq!(
        headers.get(reqwest::header::AUTHORIZATION).unwrap().as_bytes(),
        b"Bearer myuserkey"
    );
    let names: Vec<&str> = headers.keys().map(|name| name.as_str()).collect();
    assert_eq!(names, vec!["user-agent", "zotero-api-version", "authorization"]);
    let request = zot().get_items(None).unwrap();
    assert_eq!(request.headers, headers);
}

#[test]
fn a_credential_may_hold_any_character_but_controls() {
    for key in ["", "k", "with space", "tab\there", "\u{e9}\u{4e2d}\u{1f600}", "~!@#$%^&*()"] {
        let headers = default_headers(key).unwrap();
        assert_eq!(
            headers.get("authorization").unwrap().as_bytes(),
            format!("Bearer {}", key).as_bytes()
        );
    }
    for key in ["line\nfeed", "\r", "nul\0", "del\u{7f}", "\u{1b}[0m", "ok\u{1f}"] {
        assert!(matches!(
            default_headers(key),
            Err(ZoteroError::HeaderValueError(_))
        ));
        assert!(matches!(
            Zotero::user_lib("u", key).default_headers(),
            Err(ZoteroError::HeaderValueError(_))
        ));
    }
}

#[test]
fn a_url_is_parsed_and_normalised() {
    assert_eq!(
        parse("HTTPS://API.Zotero.org/a b").unwrap().as_str(),
        "https://api.zotero.org/a%20b"
    );
    assert!(matches!(
        parse("//missing.scheme"),
        Err(ZoteroError::UrlParseError(ParseError::RelativeUrlWithoutBase))
    ));
    assert!(matches!(
        parse("http://[::1"),
        Err(ZoteroError::UrlParseError(ParseError::InvalidIpv6Address))
    ));
}

#[test]
fn pairs_go_into_the_query_before_the_fragment() {
    let url = parse("https://example.org/x#frag").unwrap();
    let url = append_pair(url, "a", "1").unwrap();
    assert_eq!(url.as_str(), "https://example.org/x?a=1#frag");
    let url = append_pairs(url, &[("b", "2"), ("c", "3 4")]).unwrap();
    assert_eq!(url.as_str(), "https://example.org/x?a=1&b=2&c=3+4#frag");
    let url = append_pairs(url, &[]).unwrap();
    assert_eq!(url.as_str(), "https://example.org/x?a=1&b=2&c=3+4#frag");
}

#[test]
fn an_empty_query_is_still_a_query() {
    let url = append_query(parse("https://example.org/x").unwrap(), &[]).unwrap();
    assert_eq!(url.as_str(), "https://example.org/x?");
    assert_eq!(url.query(), Some(""));
    let url = append_query(url, &[("k", "v")]).unwrap();
    assert_eq!(url.as_str(), "https://example.org/x?k=v");
    let untouched = append_pairs(parse("https://example.org/x").unwrap(), &[]).unwrap();
    assert_eq!(untouched.query(), None);
    let mut z = zot();
    z.set_endpoint("https://example.org");
    assert_eq!(
        z.build_url("p", Some(&[])).unwrap().as_str(),
        "https://example.org/users/myuserID/p?locale=en-US"
    );
}

#[test]
fn a_request_is_given_up_after_thirty_seconds() {
    assert_eq!(REQUEST_TIMEOUT_SECS, 30);
}
