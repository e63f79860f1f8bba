use bytes::Bytes;
use serde_json::Value;
use zotero_rs::decode::{
    decode_json, decode_text, describe_status, file_payload, is_success, json_outcome, last_modified_version,
    plan_body, BodyPlan, Payload,
};
use zotero_rs::ZoteroError;

fn object(pairs: Vec<(&str, Value)>) -> Value {
    let mut map = serde_json::Map::new();
    for (key, value) in pairs {
        map.insert(key.to_string(), value);
    }
    Value::Object(map)
}

fn json_of(payload: Payload) -> Value {
    match payload {
        Payload::Json(value) => value,
        Payload::Text(text) => panic!("text payload: {}", text),
    }
}

const ITEM_DOC: &str = r#"{
    "key": "X42A7DEE",
    "version": 1,
    "library": {"type": "user", "id": 475425, "name": "Z public library"},
    "data": {
        "key": "X42A7DEE",
        "version": 1,
        "itemType": "book",
        "title": "Electron Microscopy and Analysis 1993",
        "creators": [
            {"creatorType": "contributor", "name": "Institute of Physics (Great Britain)"},
            {"creatorType": "editor", "firstName": "A. J.", "lastName": "Craven"}
        ],
        "dateAdded": "2011-01-13T03:37:29Z",
        "dateModified": "2011-01-13T03:37:29Z"
    }
}"#;

#[test]
fn json_content_is_read_as_json() {
    assert_eq!(plan_body("application/json").unwrap(), BodyPlan::Json);
    assert_eq!(
        plan_body("application/json; charset=utf-8").unwrap(),
        BodyPlan::Json
    );
    assert_eq!(plan_body("application/jsonl").unwrap(), BodyPlan::Json);
}

#[test]
fn html_content_is_read_as_text() {
    assert_eq!(plan_body("text/html").unwrap(), BodyPlan::Text);
    assert_eq!(
        plan_body("text/html; charset=iso-8859-1").unwrap(),
        BodyPlan::Text
    );
}

#[test]
fn other_content_is_refused_by_its_name() {
    for content_type in [
        "application/xml",
        "",
        "application/pdf",
        "text/plain",
        "text/htm",
        "application/jso",
        " application/json",
        "Application/json",
        "TEXT/HTML",
        "application/atom+xml; charset=\u{fc}",
    ] {
        match plan_body(content_type) {
            Err(ZoteroError::UnsupportedContentType(named)) => assert_eq!(named, content_type),
            other => panic!("{:?} for {:?}", other, content_type),
        }
    }
}

#[test]
fn a_json_body_decodes_to_its_document() {
    let decoded = json_of(decode_json(b"{\"a\":1}").unwrap());
    assert_eq!(decoded, object(vec![("a", Value::from(1))]));
    assert_ne!(decoded, object(vec![("a", Value::from(2))]));
    assert_eq!(json_of(decode_json(b" [1, \"x\", null] ").unwrap()).as_array().unwrap().len(), 3);
    assert_eq!(json_of(decode_json(b"\"<p>x</p>\"").unwrap()), Value::from("<p>x</p>"));
}

#[test]
fn a_body_that_is_not_json_is_a_request_failure() {
    for body in ["", "{", "{\"a\":1} x", "<p>x</p>", "{'a':1}", "nul"] {
        match decode_json(body.as_bytes()) {
            Err(ZoteroError::HttpRequestError(message)) => assert!(!message.is_empty()),
            other => panic!("{:?} for {:?}", other, body),
        }
    }
    assert!(matches!(
        decode_json(&[0xff, 0xfe]),
        Err(ZoteroError::HttpRequestError(_))
    ));
}

#[test]
fn the_outcome_of_a_parse_keeps_document_and_message() {
    let document = object(vec![("k", Value::from("v"))]);
    assert_eq!(json_of(json_outcome(Ok(document.clone())).unwrap()), document);
    match json_outcome(Err("expected value at line 1 column 1".to_string())) {
        Err(ZoteroError::HttpRequestError(message)) => {
            assert_eq!(message, "expected value at line 1 column 1")
        }
        other => panic!("{:?}", other),
    }
}

#[test]
fn text_is_kept_as_it_came() {
    assert_eq!(plan_body("text/html").unwrap(), BodyPlan::Text);
    match decode_text("<p>x</p>".to_string()) {
        Payload::Text(text) => assert_eq!(text, "<p>x</p>"),
        Payload::Json(_) => unreachable!(),
    }
}

#[test]
fn test_synchronous_test_parse_item_json_doc() {
    assert_eq!(plan_body("application/json").unwrap(), BodyPlan::Json);
    let items_data = json_of(decode_json(ITEM_DOC.as_bytes()).unwrap());
    let key = items_data["data"]["key"].as_str().unwrap();
    assert_eq!(key, "X42A7DEE");
    let name = items_data["data"]["creators"][0]["name"].as_str().unwrap();
    assert_eq!(name, "Institute of Physics (Great Britain)");
    let item_type = items_data["data"]["itemType"].as_str().unwrap();
    assert_eq!(item_type, "book");
    let date_modified = items_data["data"]["dateModified"].as_str().unwrap();
    assert_eq!(date_modified, "2011-01-13T03:37:29Z");
}

#[test]
fn success_is_the_range_from_200_to_299() {
    for status in 0..=1100u16 {
        assert_eq!(is_success(status), (200..300).contains(&status));
    }
}

#[test]
fn test_synchronous_test_get_file() {
    let file_content: Vec<u8> = b"One very strange PDF\n%PDF-1.4 \x00\xff\r\n".to_vec();
    let file_data = file_payload(200, Bytes::from(file_content.clone())).unwrap();
    assert_eq!(file_data, file_content);
    let expected_data = b"One very strange PDF\n";
    let normalized_file_data: Vec<u8> = file_data
        .iter()
        .map(|&b| if b == b'\r' { b'\n' } else { b })
        .collect();
    assert_eq!(&normalized_file_data[..expected_data.len()], expected_data);
}

#[test]
fn a_file_comes_back_byte_for_byte_on_every_success_status() {
    let body: Vec<u8> = (0..=255u8).collect();
    for status in [200u16, 201, 204, 299] {
        let got = file_payload(status, Bytes::from(body.clone())).unwrap();
        assert_eq!(got.as_ref(), body.as_slice());
    }
    assert!(file_payload(200, Bytes::new()).unwrap().is_empty());
}

#[test]
fn a_missing_file_is_a_retrieval_failure_with_the_status() {
    match file_payload(404, Bytes::from_static(b"not found")) {
        Err(ZoteroError::FileRetrievalError(message)) => {
            assert_eq!(message, "Failed to retrieve file: 404 Not Found")
        }
        other => panic!("{:?}", other),
    }
    match file_payload(429, Bytes::new()) {
        Err(ZoteroError::FileRetrievalError(message)) => {
            assert_eq!(message, "Failed to retrieve file: 429 Too Many Requests")
        }
        other => panic!("{:?}", other),
    }
    for status in [199u16, 300, 500] {
        assert!(matches!(
            file_payload(status, Bytes::new()),
            Err(ZoteroError::FileRetrievalError(_))
        ));
    }
}

#[test]
fn a_status_reads_as_number_and_reason() {
    assert_eq!(describe_status(200), "200 OK");
    assert_eq!(describe_status(404), "404 Not Found");
    assert_eq!(describe_status(100), "100 Continue");
    assert_eq!(describe_status(999), "999 <unknown status code>");
    assert_eq!(describe_status(99), "99");
    assert_eq!(describe_status(0), "0");
    assert_eq!(describe_status(1000), "1000");
    assert_eq!(describe_status(65535), "65535");
}

#[test]
fn the_version_is_the_number_in_the_header() {
    assert_eq!(last_modified_version(200, Some("12345")).unwrap(), 12345);
    assert_eq!(last_modified_version(204, Some("0")).unwrap(), 0);
    assert_eq!(last_modified_version(200, Some("-17")).unwrap(), -17);
    assert_eq!(last_modified_version(200, Some("+17")).unwrap(), 17);
    assert_eq!(
        last_modified_version(200, Some("9223372036854775807")).unwrap(),
        i64::MAX
    );
    assert_eq!(
        last_modified_version(200, Some("-9223372036854775808")).unwrap(),
        i64::MIN
    );
}

#[test]
fn a_version_header_that_is_missing_or_no_number_is_a_failure() {
    for header in [
        None,
        Some(""),
        Some("abc"),
        Some("12 "),
        Some(" 12"),
        Some("1.5"),
        Some("+"),
        Some("-"),
        Some("9223372036854775808"),
        Some("-9223372036854775809"),
        Some("0x10"),
        Some("\u{663}"),
    ] {
        match last_modified_version(200, header) {
            Err(ZoteroError::FileRetrievalError(message)) => {
                assert_eq!(message, "Failed to parse last-modified-version header")
            }
            other => panic!("{:?} for {:?}", other, header),
        }
    }
}

#[test]
fn a_failed_version_request_names_the_status() {
    match last_modified_version(500, Some("12345")) {
        Err(ZoteroError::FileRetrievalError(message)) => assert_eq!(
            message,
            "Failed to retrieve last modified version: 500 Internal Server Error"
        ),
        other => panic!("{:?}", other),
    }
    match last_modified_version(304, None) {
        Err(ZoteroError::FileRetrievalError(message)) => assert_eq!(
            message,
            "Failed to retrieve last modified version: 304 Not Modified"
        ),
        other => panic!("{:?}", other),
    }
}
