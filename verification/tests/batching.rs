use serde_json::Value;
use zotero_rs::batch::{BatchRequest, BatchStep, BatchTarget};
use zotero_rs::decode::Payload;
use zotero_rs::{Zotero, ZoteroBatchError, ZoteroError, ZoteroItemsBatcher};

fn element(n: usize) -> Value {
    Value::from(format!("item-{}", n))
}

fn array(from: usize, to: usize) -> Value {
    Value::Array((from..to).map(element).collect())
}

/// A collection that does not change: it answers a request with its elements
/// at the offsets from `start` on, `limit` of them at most.
fn serve(collection: &[Value], request: &BatchRequest) -> Result<Payload, ZoteroError> {
    let from = request.start.min(collection.len());
    let to = request.start.saturating_add(request.limit).min(collection.len());
    Ok(Payload::Json(Value::Array(collection[from..to].to_vec())))
}

/// Runs an iteration to its end against `fetch`. Gives what it handed out,
/// the requests that it made, and the failure that ended it, if one did.
fn iterate(
    batcher: &mut ZoteroItemsBatcher,
    fetch: &mut dyn FnMut(&BatchRequest) -> Result<Payload, ZoteroError>,
) -> (Vec<Value>, Vec<BatchRequest>, Option<ZoteroBatchError>) {
    let mut yielded = Vec::new();
    let mut requests = Vec::new();
    loop {
        match batcher.next() {
            BatchStep::Yield(item) => yielded.push(item),
            BatchStep::Done => return (yielded, requests, None),
            BatchStep::Fetch(request) => {
                requests.push(request);
                match batcher.fetch_next_batch(fetch(&request)) {
                    Ok(()) => {}
                    Err(ZoteroBatchError::NoMoreItems) => {}
                    Err(e) => return (yielded, requests, Some(e)),
                }
            }
        }
    }
}

#[test]
fn batches_of_three_three_and_none_yield_six_elements() {
    let mut batches = vec![array(0, 3), array(3, 6), array(6, 6)].into_iter();
    let mut batcher = ZoteroItemsBatcher::new(0, 3);
    let (yielded, requests, failure) = iterate(&mut batcher, &mut |_| {
        Ok(Payload::Json(batches.next().unwrap()))
    });
    assert!(failure.is_none());
    assert_eq!(yielded, (0..6).map(element).collect::<Vec<Value>>());
    let offsets: Vec<usize> = requests.iter().map(|r| r.start).collect();
    assert_eq!(offsets, vec![0, 3, 6]);
    assert!(matches!(batcher.next(), BatchStep::Done));
    assert!(matches!(batcher.next(), BatchStep::Done));
}

#[test]
fn the_watermark_and_the_batch_size_go_unchanged_into_every_request() {
    let collection: Vec<Value> = (0..10).map(element).collect();
    let mut batcher = ZoteroItemsBatcher::new(42, 4);
    let (yielded, requests, failure) =
        iterate(&mut batcher, &mut |request| serve(&collection, request));
    assert!(failure.is_none());
    assert_eq!(yielded, collection);
    assert_eq!(
        requests,
        vec![
            BatchRequest { start: 0, since: 42, limit: 4 },
            BatchRequest { start: 4, since: 42, limit: 4 },
            BatchRequest { start: 8, since: 42, limit: 4 },
            BatchRequest { start: 10, since: 42, limit: 4 },
        ]
    );
}

#[test]
fn every_batch_size_yields_the_whole_collection_in_order() {
    for len in [0usize, 1, 2, 5, 12] {
        let collection: Vec<Value> = (0..len).map(element).collect();
        for limit in [1usize, 2, 3, 5, 12, 100, usize::MAX] {
            let mut batcher = ZoteroItemsBatcher::new(0, limit);
            let (yielded, _, failure) =
                iterate(&mut batcher, &mut |request| serve(&collection, request));
            assert!(failure.is_none());
            assert_eq!(yielded, collection);
        }
    }
}

#[test]
fn a_batch_size_of_zero_yields_nothing() {
    let collection: Vec<Value> = (0..3).map(element).collect();
    let mut batcher = ZoteroItemsBatcher::new(0, 0);
    let (yielded, requests, failure) =
        iterate(&mut batcher, &mut |request| serve(&collection, request));
    assert!(failure.is_none());
    assert!(yielded.is_empty());
    assert_eq!(requests.len(), 1);
}

#[test]
fn two_iterations_over_the_same_collection_yield_the_same_elements() {
    let collection: Vec<Value> = (0..7).map(element).collect();
    let zot = Zotero::user_lib("myuserID", "myuserkey");
    let mut first = zot.get_items_in_batch(5, 3);
    let mut second = zot.get_items_in_batch(5, 3);
    let (a, requests_a, _) = iterate(&mut first, &mut |request| serve(&collection, request));
    let (b, requests_b, _) = iterate(&mut second, &mut |request| serve(&collection, request));
    assert_eq!(a, b);
    assert_eq!(a, collection);
    assert_eq!(requests_a, requests_b);
}

#[test]
fn an_empty_batch_ends_the_iteration() {
    let mut batcher = ZoteroItemsBatcher::new(0, 3);
    assert!(matches!(batcher.next(), BatchStep::Fetch(_)));
    assert!(matches!(
        batcher.fetch_next_batch(Ok(Payload::Json(array(0, 0)))),
        Err(ZoteroBatchError::NoMoreItems)
    ));
    assert!(matches!(batcher.next(), BatchStep::Done));
}

#[test]
fn a_failed_fetch_is_handed_on_and_ends_the_iteration() {
    let mut calls = 0;
    let mut batcher = ZoteroItemsBatcher::new(0, 2);
    let (yielded, requests, failure) = iterate(&mut batcher, &mut |_| {
        calls += 1;
        if calls == 1 {
            Ok(Payload::Json(array(0, 2)))
        } else {
            Err(ZoteroError::TooManyRequests("429: Too Many Requests".to_string()))
        }
    });
    assert_eq!(yielded, vec![element(0), element(1)]);
    assert_eq!(requests.len(), 2);
    match failure {
        Some(ZoteroBatchError::FetchError(ZoteroError::TooManyRequests(message))) => {
            assert_eq!(message, "429: Too Many Requests")
        }
        other => panic!("{:?}", other),
    }
    assert!(matches!(batcher.next(), BatchStep::Done));
}

#[test]
fn a_payload_that_is_no_array_is_a_failed_fetch() {
    let object = Value::Object(serde_json::Map::new());
    for payload in [
        Payload::Json(object),
        Payload::Json(Value::Null),
        Payload::Json(Value::from("[1,2]")),
        Payload::Text("<p>x</p>".to_string()),
    ] {
        let mut batcher = ZoteroItemsBatcher::new(0, 2);
        match batcher.fetch_next_batch(Ok(payload)) {
            Err(ZoteroBatchError::FetchError(ZoteroError::HttpRequestError(message))) => {
                assert_eq!(message, "Batch response is not an array")
            }
            other => panic!("{:?}", other),
        }
        assert!(matches!(batcher.next(), BatchStep::Done));
    }
}

#[test]
fn a_batch_is_handed_out_first_to_last() {
    let mut batcher = ZoteroItemsBatcher::new(0, 3);
    assert!(batcher
        .accept_batch(Ok(Some(vec![element(7), element(8), element(9)])))
        .is_ok());
    assert_eq!(batcher.request().start, 0);
    for n in 7..10 {
        match batcher.next() {
            BatchStep::Yield(item) => assert_eq!(item, element(n)),
            other => panic!("{:?}", other),
        }
        assert_eq!(batcher.request().start, n - 6);
    }
    match batcher.next() {
        BatchStep::Fetch(request) => {
            assert_eq!(request, BatchRequest { start: 3, since: 0, limit: 3 })
        }
        other => panic!("{:?}", other),
    }
    assert!(matches!(
        batcher.accept_batch(Ok(None)),
        Err(ZoteroBatchError::FetchError(ZoteroError::HttpRequestError(_)))
    ));
    assert!(matches!(
        ZoteroItemsBatcher::new(1, 1).accept_batch(Ok(Some(Vec::new()))),
        Err(ZoteroBatchError::NoMoreItems)
    ));
}

#[test]
fn the_request_for_a_batch_names_offset_watermark_size_and_order() {
    let zot = Zotero::user_lib("myuserID", "myuserkey");
    let mut batcher = zot.get_items_in_batch(123, 50);
    let batch = match batcher.next() {
        BatchStep::Fetch(batch) => batch,
        other => panic!("{:?}", other),
    };
    let request = zot.get_batch(BatchTarget::Items, &batch).unwrap();
    assert_eq!(
        request.url.as_str(),
        "https://api.zotero.org/users/myuserID/items?locale=en-US&start=0&since=123&limit=50&sort=dateAdded&direction=asc"
    );
    let later = BatchRequest { start: 18446744073709551615, since: 0, limit: 7 };
    assert_eq!(
        zot.get_batch(BatchTarget::Items, &later).unwrap().url.query(),
        Some("locale=en-US&start=18446744073709551615&since=0&limit=7&sort=dateAdded&direction=asc")
    );
}

#[test]
fn the_trash_and_the_collections_are_fetched_under_their_paths() {
    let zot = Zotero::group_lib("4711", "key");
    let batch = BatchRequest { start: 20, since: 3, limit: 10 };
    assert_eq!(
        zot.get_batch(BatchTarget::Trash, &batch).unwrap().url.as_str(),
        "https://api.zotero.org/groups/4711/items/trash?locale=en-US&start=20&since=3&limit=10&sort=dateAdded&direction=asc"
    );
    assert_eq!(
        zot.get_batch(BatchTarget::Collections, &batch).unwrap().url.as_str(),
        "https://api.zotero.org/groups/4711/collections?locale=en-US&start=20&limit=10&sort=dateAdded&direction=asc"
    );
}
