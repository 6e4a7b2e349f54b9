use serde_json::Value;
use traewelling_polylines::config::Config;
use traewelling_polylines::data::Status;
use traewelling_polylines::http::FetchError;
use traewelling_polylines::json::{decode_geometry, extract_payload, DecodeError};
use traewelling_polylines::polyline::{
    page_count, BatchError, BatchFailure, BatchFetcher, POLYLINE_PAGE_COUNT, POLYLINE_URL,
};
use traewelling_polylines::traewelling::Traewelling;

fn statuses(ids: impl Iterator<Item = u32>) -> Vec<Status> {
    ids.map(|id| Status::new(id, 0, "regional".to_string(), "A".to_string(), "B".to_string()))
        .collect()
}

fn json(text: &str) -> Value {
    serde_json::from_str(text).unwrap()
}

fn body(text: &str) -> Result<String, FetchError> {
    Ok(text.to_string())
}

/// The ids that a request address carries.
fn ids_of(url: &str) -> Vec<u32> {
    let list = url.strip_prefix(POLYLINE_URL).unwrap();
    list.split(',').map(|id| id.parse().unwrap()).collect()
}

#[test]
fn constants_are_those_of_the_server() {
    assert_eq!(POLYLINE_URL, "https://traewelling.de/api/v1/polyline/");
    assert_eq!(POLYLINE_PAGE_COUNT, 50);
}

#[test]
fn pages_are_counted_by_fifties() {
    assert_eq!(page_count(0), 0);
    assert_eq!(page_count(1), 1);
    assert_eq!(page_count(49), 1);
    assert_eq!(page_count(50), 1);
    assert_eq!(page_count(51), 2);
    assert_eq!(page_count(100), 2);
    assert_eq!(page_count(101), 3);
    assert_eq!(page_count(120), 3);
    assert_eq!(page_count(usize::MAX), usize::MAX / 50 + 1);
}

#[test]
fn ids_are_joined_with_commas() {
    let fetcher = BatchFetcher::new(&statuses([17u32, 4, 0, 4294967295, 230].into_iter()));
    assert_eq!(
        fetcher.next_url(),
        Some("https://traewelling.de/api/v1/polyline/17,4,0,4294967295,230".to_string())
    );
    let single = BatchFetcher::new(&statuses([99u32].into_iter()));
    assert_eq!(single.next_url(), Some("https://traewelling.de/api/v1/polyline/99".to_string()));
}

#[test]
fn hundred_twenty_ids_take_three_requests() {
    let mut fetcher = BatchFetcher::new(&statuses(1000..1120));
    assert_eq!(fetcher.pages(), 3);
    let mut requested = Vec::new();
    while let Some(url) = fetcher.next_url() {
        let ids = ids_of(&url);
        let answer = format!("{{\"data\": {{\"first\": {}, \"count\": {}}}}}", ids[0], ids.len());
        requested.push(ids);
        fetcher.accept(Ok(answer));
        assert_eq!(fetcher.fetched(), requested.len());
    }
    assert_eq!(requested.len(), 3);
    assert_eq!(requested[0], (1000..1050).collect::<Vec<u32>>());
    assert_eq!(requested[1], (1050..1100).collect::<Vec<u32>>());
    assert_eq!(requested[2], (1100..1120).collect::<Vec<u32>>());
    let lines = fetcher.finish().unwrap();
    assert_eq!(
        lines,
        vec![
            json("{\"first\": 1000, \"count\": 50}"),
            json("{\"first\": 1050, \"count\": 50}"),
            json("{\"first\": 1100, \"count\": 20}"),
        ]
    );
}

#[test]
fn exact_multiple_has_no_short_chunk() {
    let mut fetcher = BatchFetcher::new(&statuses(0..100));
    let mut sizes = Vec::new();
    while let Some(url) = fetcher.next_url() {
        sizes.push(ids_of(&url).len());
        fetcher.accept(body("{\"data\": 1}"));
    }
    assert_eq!(sizes, vec![50, 50]);
    assert_eq!(fetcher.finish(), Ok(vec![json("1"), json("1")]));
}

#[test]
fn no_statuses_no_requests() {
    let fetcher = BatchFetcher::new(&Vec::new());
    assert_eq!(fetcher.pages(), 0);
    assert_eq!(fetcher.next_url(), None);
    assert_eq!(fetcher.finish(), Ok(Vec::new()));
}

#[test]
fn log_plans_the_fetch() {
    let log = Traewelling::new(Config::new(Vec::new(), Vec::new()), "token".to_string()).unwrap();
    let fetcher = log.get_polylines(&statuses(1..=51));
    assert_eq!(fetcher.pages(), 2);
    assert_eq!(fetcher.fetched(), 0);
    assert_eq!(ids_of(&fetcher.next_url().unwrap()), (1..=50).collect::<Vec<u32>>());
}

#[test]
fn undecodable_body_ends_the_fetch() {
    let mut fetcher = BatchFetcher::new(&statuses(0..120));
    fetcher.accept(body("{\"data\": [1]}"));
    fetcher.accept(body("<html>try again later</html>"));
    assert_eq!(fetcher.fetched(), 1);
    assert_eq!(fetcher.next_url(), None);
    fetcher.accept(body("{\"data\": [3]}"));
    assert_eq!(fetcher.fetched(), 1);
    assert_eq!(fetcher.finish(), Err(BatchError::Decode(DecodeError::Malformed)));
}

#[test]
fn request_given_up_ends_the_fetch_with_its_error() {
    for error in [
        FetchError::AttemptsExhausted,
        FetchError::MissingRetryAfter,
        FetchError::MalformedRetryAfter,
        FetchError::FatalStatus(503),
        FetchError::UnreadableBody,
    ] {
        let mut fetcher = BatchFetcher::new(&statuses(0..120));
        fetcher.accept(body("{\"data\": [1]}"));
        fetcher.accept(Err(error));
        assert_eq!(fetcher.fetched(), 1);
        assert_eq!(fetcher.next_url(), None);
        fetcher.accept(body("{\"data\": [3]}"));
        assert_eq!(fetcher.fetched(), 1);
        assert_eq!(fetcher.finish(), Err(BatchError::Fetch(error)));
    }
}

#[test]
fn first_request_given_up_leaves_nothing_to_request() {
    let mut fetcher = BatchFetcher::new(&statuses(0..10));
    assert!(fetcher.next_url().is_some());
    fetcher.accept_geometry(Err(BatchFailure::Fetch(FetchError::FatalStatus(404))));
    assert_eq!(fetcher.next_url(), None);
    assert_eq!(fetcher.finish(), Err(BatchError::Fetch(FetchError::FatalStatus(404))));
}

#[test]
fn body_without_members_ends_the_fetch() {
    let mut fetcher = BatchFetcher::new(&statuses(0..3));
    fetcher.accept(body("[1, 2, 3]"));
    assert_eq!(fetcher.finish(), Err(BatchError::Decode(DecodeError::NotAnObject)));
}

#[test]
fn fetch_cannot_finish_while_requests_remain() {
    let mut fetcher = BatchFetcher::new(&statuses(0..51));
    fetcher.accept(body("{\"data\": 0}"));
    assert_eq!(fetcher.finish(), Err(BatchError::Unfinished));
}

#[test]
fn bodies_beyond_the_last_chunk_are_not_taken_in() {
    let mut fetcher = BatchFetcher::new(&statuses(0..2));
    fetcher.accept(body("{\"data\": \"line\"}"));
    fetcher.accept(body("{\"data\": \"extra\"}"));
    fetcher.accept_geometry(Err(BatchFailure::Decode(DecodeError::Malformed)));
    fetcher.accept(Err(FetchError::AttemptsExhausted));
    assert_eq!(fetcher.fetched(), 1);
    assert_eq!(fetcher.finish(), Ok(vec![json("\"line\"")]));
}

#[test]
fn decoded_geometry_is_taken_in_order() {
    let mut fetcher = BatchFetcher::new(&statuses(0..150));
    fetcher.accept_geometry(Ok(json("\"a\"")));
    fetcher.accept_geometry(Ok(json("\"b\"")));
    fetcher.accept_geometry(Ok(json("\"c\"")));
    assert_eq!(fetcher.finish(), Ok(vec![json("\"a\""), json("\"b\""), json("\"c\"")]));
}

#[test]
fn geometry_is_the_data_member() {
    let body = "{\"data\": {\"type\": \"FeatureCollection\", \"features\": []}, \"meta\": 1}";
    assert_eq!(
        decode_geometry(body),
        Ok(json("{\"type\": \"FeatureCollection\", \"features\": []}"))
    );
    assert_eq!(decode_geometry("{\"data\": [[1.5, 2], [3, 4]]}"), Ok(json("[[1.5, 2], [3, 4]]")));
}

#[test]
fn missing_data_member_is_null() {
    assert_eq!(decode_geometry("{\"other\": 1}"), Ok(Value::Null));
    assert_eq!(decode_geometry("{}"), Ok(Value::Null));
    assert_eq!(decode_geometry("null"), Ok(Value::Null));
    assert_eq!(decode_geometry("{\"data\": null}"), Ok(Value::Null));
}

#[test]
fn bodies_that_are_not_objects_have_no_geometry() {
    for body in ["[]", "[{\"data\": 1}]", "1", "\"data\"", "true", "1.5"] {
        assert_eq!(decode_geometry(body), Err(DecodeError::NotAnObject));
        assert_eq!(extract_payload(json(body)), Err(DecodeError::NotAnObject));
    }
}

#[test]
fn bodies_that_are_not_json_have_no_geometry() {
    for body in ["", "{", "{\"data\": }", "data", "{\"data\": 1} trailing", "{'data': 1}"] {
        assert_eq!(decode_geometry(body), Err(DecodeError::Malformed));
    }
}

#[test]
fn payload_is_taken_out_of_a_document() {
    assert_eq!(extract_payload(json("{\"data\": {\"a\": [1, 2]}}")), Ok(json("{\"a\": [1, 2]}")));
    assert_eq!(extract_payload(json("{\"Data\": 1}")), Ok(Value::Null));
    assert_eq!(extract_payload(Value::Null), Ok(Value::Null));
}
