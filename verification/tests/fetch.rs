use offline_cache::entry::CacheEntry;
use offline_cache::fetch::{
    check_response, fetch_with_fallback, force_refresh, read_body, FetchStep, GetRequest,
    ResponseHead, FETCH_TIMEOUT_SECS,
};
use offline_cache::model::{
    FetchError, FetchResult, IoFailure, IoStage, NetworkStatus, Provenance, StoreError,
    TransportFailure, TransportStage,
};
use offline_cache::store::{load, save_entry, WriteRequest};
use serde_json::Value;
use std::collections::HashMap;

const URL: &str = "https://service.example/api/profile";

fn value(text: &str) -> Value {
    serde_json::from_str(text).unwrap()
}

fn reachable() -> NetworkStatus {
    NetworkStatus { is_online: true, can_reach_target: true }
}

fn online_only() -> NetworkStatus {
    NetworkStatus { is_online: true, can_reach_target: false }
}

fn offline() -> NetworkStatus {
    NetworkStatus { is_online: false, can_reach_target: false }
}

fn head(status: u16, reason: Option<&str>) -> Result<ResponseHead, TransportFailure> {
    Ok(ResponseHead { status, reason: reason.map(|r| r.to_string()) })
}

fn unanswered(detail: &str) -> Result<ResponseHead, TransportFailure> {
    Err(TransportFailure { stage: TransportStage::Send, detail: detail.to_string() })
}

fn bytes(body: &str) -> Result<Vec<u8>, String> {
    Ok(body.as_bytes().to_vec())
}

fn stored(data: &str, at: i64) -> String {
    save_entry("ignored", &CacheEntry { data: value(data), captured_at: at }).unwrap().content
}

/// What the caller did for a fetch, in order.
#[derive(Debug, PartialEq)]
enum Did {
    Status,
    Get(GetRequest),
    ReadBody,
    Write(WriteRequest),
    Read(String),
}

/// The answers that the caller gets from the world.
struct World {
    status: NetworkStatus,
    answer: Result<ResponseHead, TransportFailure>,
    body: Result<Vec<u8>, String>,
    write: Result<(), IoFailure>,
    read: Result<Option<String>, IoFailure>,
}

fn world(status: NetworkStatus) -> World {
    World {
        status,
        answer: head(200, Some("OK")),
        body: bytes("null"),
        write: Ok(()),
        read: Ok(None),
    }
}

/// Runs a fetch in a world; the clock is what the library reads.
fn run_fetch(mut step: FetchStep, world: World) -> (Result<FetchResult, FetchError>, Vec<Did>) {
    let mut answer = Some(world.answer);
    let mut body = Some(world.body);
    let mut write = Some(world.write);
    let mut read = Some(world.read);
    let mut did = Vec::new();
    loop {
        step = match step {
            FetchStep::CheckStatus(state) => {
                did.push(Did::Status);
                state.on_status(world.status)
            }
            FetchStep::Get(state, request) => {
                did.push(Did::Get(request));
                state.on_response(answer.take().unwrap())
            }
            FetchStep::ReadBody(state) => {
                did.push(Did::ReadBody);
                state.on_body(body.take().unwrap())
            }
            FetchStep::Write(state, request) => {
                did.push(Did::Write(request));
                state.on_written(write.take().unwrap())
            }
            FetchStep::Read(state, name) => {
                did.push(Did::Read(name));
                state.on_read(read.take().unwrap())
            }
            FetchStep::Done(outcome) => return (outcome, did),
        }
    }
}

fn tolerant() -> FetchStep {
    fetch_with_fallback("profile".to_string(), URL.to_string(), None)
}

fn strict() -> FetchStep {
    force_refresh("profile".to_string(), URL.to_string(), None)
}

fn kinds(did: &[Did]) -> Vec<&'static str> {
    did.iter()
        .map(|d| match d {
            Did::Status => "status",
            Did::Get(_) => "get",
            Did::ReadBody => "body",
            Did::Write(_) => "write",
            Did::Read(_) => "read",
        })
        .collect()
}

#[test]
fn fetch_timeout_is_ten_seconds() {
    assert_eq!(FETCH_TIMEOUT_SECS, 10);
}

#[test]
fn check_response_accepts_status_of_success() {
    for status in [200, 201, 204, 250, 299] {
        assert_eq!(check_response(head(status, None)), None);
    }
}

#[test]
fn check_response_rejects_status_outside_success() {
    for (code, reason) in [
        (199, None),
        (300, Some("Multiple Choices")),
        (404, Some("Not Found")),
        (500, Some("Internal Server Error")),
        (100, Some("Continue")),
        (0, None),
        (u16::MAX, None),
    ] {
        assert_eq!(
            check_response(head(code, reason)),
            Some(FetchError::HttpStatus { code, reason: reason.map(|r| r.to_string()) })
        );
    }
}

#[test]
fn check_response_passes_transport_failure_on() {
    let failure = TransportFailure { stage: TransportStage::Send, detail: "timed out".to_string() };
    assert_eq!(check_response(Err(failure.clone())), Some(FetchError::Transport(failure)));
    let setup = TransportFailure { stage: TransportStage::Setup, detail: "no tls".to_string() };
    assert_eq!(check_response(Err(setup.clone())), Some(FetchError::Transport(setup)));
}

#[test]
fn read_body_returns_json_of_body() {
    assert_eq!(read_body(bytes("{\"a\": [1, 2]}")), Ok(value("{\"a\": [1, 2]}")));
    assert_eq!(read_body(bytes("7")), Ok(value("7")));
    assert_eq!(read_body(bytes(" null ")), Ok(Value::Null));
}

#[test]
fn read_body_rejects_body_that_is_not_json() {
    assert!(matches!(read_body(bytes("<html>")), Err(FetchError::Decode(_))));
    assert!(matches!(read_body(bytes("")), Err(FetchError::Decode(_))));
    assert!(matches!(read_body(bytes("{\"a\": 1} 2")), Err(FetchError::Decode(_))));
    assert!(matches!(read_body(Ok(vec![b'"', 0xff, b'"'])), Err(FetchError::Decode(_))));
}

#[test]
fn read_body_rejects_body_that_could_not_be_read() {
    assert_eq!(
        read_body(Err("connection reset".to_string())),
        Err(FetchError::Decode("connection reset".to_string()))
    );
}

#[test]
fn fetch_with_fallback_unreachable_returns_cached_value_without_get() {
    let (outcome, did) = run_fetch(
        tolerant(),
        World {
            body: bytes("{\"fresh\": true}"),
            read: Ok(Some(stored("{\"cached\": true}", 1111))),
            ..world(offline())
        },
    );
    assert_eq!(
        outcome,
        Ok(FetchResult {
            data: value("{\"cached\": true}"),
            provenance: Provenance::Local,
            timestamp: 1111,
        })
    );
    assert_eq!(did, vec![Did::Status, Did::Read("profile.json".to_string())]);
}

#[test]
fn fetch_with_fallback_online_but_target_down_returns_cached_value() {
    let (outcome, did) = run_fetch(
        tolerant(),
        World { read: Ok(Some(stored("[\"old\"]", 5))), ..world(online_only()) },
    );
    assert_eq!(outcome.unwrap().provenance, Provenance::Local);
    assert_eq!(kinds(&did), vec!["status", "read"]);
}

#[test]
fn fetch_with_fallback_reachable_returns_online_and_stores() {
    let (outcome, did) =
        run_fetch(tolerant(), World { body: bytes("{\"fresh\": [1, 2]}"), ..world(reachable()) });
    let result = outcome.unwrap();
    assert_eq!(result.data, value("{\"fresh\": [1, 2]}"));
    assert_eq!(result.provenance, Provenance::Online);
    assert!(result.timestamp > 1_600_000_000);
    assert_eq!(kinds(&did), vec!["status", "get", "body", "write"]);
    assert_eq!(
        did[1],
        Did::Get(GetRequest { url: URL.to_string(), headers: None, timeout_secs: 10 })
    );
    match &did[3] {
        Did::Write(request) => {
            assert_eq!(request.file_name, "profile.json");
            let loaded = load(Ok(Some(request.content.clone()))).unwrap().unwrap();
            assert_eq!(loaded.data, value("{\"fresh\": [1, 2]}"));
            assert_eq!(loaded.provenance, Provenance::Local);
            assert!(loaded.timestamp > 1_600_000_000);
            assert!(loaded.timestamp <= result.timestamp);
        }
        other => panic!("expected a write, got {:?}", other),
    }
}

#[test]
fn fetch_with_fallback_passes_headers_to_get() {
    let mut headers = HashMap::new();
    headers.insert("Authorization".to_string(), "Bearer token".to_string());
    headers.insert("Accept".to_string(), "application/json".to_string());
    let step = fetch_with_fallback("k".to_string(), URL.to_string(), Some(headers.clone()));
    let (_, did) = run_fetch(step, world(reachable()));
    assert_eq!(
        did[1],
        Did::Get(GetRequest { url: URL.to_string(), headers: Some(headers), timeout_secs: 10 })
    );
}

#[test]
fn fetch_with_fallback_returns_fresh_data_when_caching_fails() {
    let (outcome, did) = run_fetch(
        tolerant(),
        World {
            body: bytes("\"fresh\""),
            write: Err(IoFailure { stage: IoStage::Write, detail: "disk full".to_string() }),
            read: Ok(Some(stored("\"old\"", 1))),
            ..world(reachable())
        },
    );
    let result = outcome.unwrap();
    assert_eq!(result.data, value("\"fresh\""));
    assert_eq!(result.provenance, Provenance::Online);
    assert_eq!(kinds(&did), vec!["status", "get", "body", "write"]);
}

#[test]
fn fetch_with_fallback_falls_back_without_reading_body_of_failed_answer() {
    for answer in [
        unanswered("timed out"),
        head(500, Some("Internal Server Error")),
        head(404, Some("Not Found")),
        head(304, Some("Not Modified")),
    ] {
        let (outcome, did) = run_fetch(
            tolerant(),
            World {
                answer,
                body: bytes("{\"fresh\": 1}"),
                read: Ok(Some(stored("{\"v\": 9}", 99))),
                ..world(reachable())
            },
        );
        assert_eq!(
            outcome,
            Ok(FetchResult {
                data: value("{\"v\": 9}"),
                provenance: Provenance::Local,
                timestamp: 99,
            })
        );
        assert_eq!(kinds(&did), vec!["status", "get", "read"]);
        assert_eq!(did[2], Did::Read("profile.json".to_string()));
    }
}

#[test]
fn fetch_with_fallback_falls_back_on_body_without_json() {
    for body in [bytes("not json"), bytes(""), Err("reset".to_string())] {
        let (outcome, did) = run_fetch(
            tolerant(),
            World { body, read: Ok(Some(stored("{\"v\": 9}", 99))), ..world(reachable()) },
        );
        assert_eq!(
            outcome,
            Ok(FetchResult {
                data: value("{\"v\": 9}"),
                provenance: Provenance::Local,
                timestamp: 99,
            })
        );
        assert_eq!(kinds(&did), vec!["status", "get", "body", "read"]);
    }
}

#[test]
fn fetch_with_fallback_without_source_or_cache_has_no_data() {
    let (outcome, did) = run_fetch(tolerant(), world(offline()));
    assert_eq!(outcome, Err(FetchError::NoDataAvailable));
    assert_eq!(did, vec![Did::Status, Did::Read("profile.json".to_string())]);
    let (outcome, _) =
        run_fetch(tolerant(), World { answer: unanswered("x"), ..world(reachable()) });
    assert_eq!(outcome, Err(FetchError::NoDataAvailable));
}

#[test]
fn fetch_with_fallback_passes_store_failure_on() {
    let denied = IoFailure { stage: IoStage::Read, detail: "denied".to_string() };
    let (outcome, _) =
        run_fetch(tolerant(), World { read: Err(denied.clone()), ..world(offline()) });
    assert_eq!(outcome, Err(FetchError::LocalLoad(StoreError::Io(denied))));
    let (outcome, _) = run_fetch(
        tolerant(),
        World { read: Ok(Some("{ broken".to_string())), ..world(offline()) },
    );
    assert!(matches!(outcome, Err(FetchError::LocalLoad(StoreError::Corrupt(_)))));
}

#[test]
fn force_refresh_unreachable_fails_without_touching_cache() {
    for status in [offline(), online_only()] {
        let (outcome, did) = run_fetch(
            strict(),
            World {
                body: bytes("{\"fresh\": true}"),
                read: Ok(Some(stored("{\"cached\": true}", 1))),
                ..world(status)
            },
        );
        assert_eq!(outcome, Err(FetchError::ConnectivityRequired));
        assert_eq!(did, vec![Did::Status]);
    }
}

#[test]
fn force_refresh_reachable_returns_online_and_stores() {
    let (outcome, did) =
        run_fetch(strict(), World { body: bytes("[1, 2, 3]"), ..world(reachable()) });
    let result = outcome.unwrap();
    assert_eq!(result.data, value("[1, 2, 3]"));
    assert_eq!(result.provenance, Provenance::Online);
    assert!(result.timestamp > 1_600_000_000);
    assert_eq!(kinds(&did), vec!["status", "get", "body", "write"]);
    match &did[3] {
        Did::Write(request) => {
            assert_eq!(request.file_name, "profile.json");
            let loaded = load(Ok(Some(request.content.clone()))).unwrap().unwrap();
            assert_eq!(loaded.data, value("[1, 2, 3]"));
        }
        other => panic!("expected a write, got {:?}", other),
    }
}

#[test]
fn force_refresh_passes_remote_failure_on_without_reading_cache() {
    let cases: Vec<(World, FetchError, Vec<&str>)> = vec![
        (
            World { answer: unanswered("timed out"), ..world(reachable()) },
            FetchError::Transport(TransportFailure {
                stage: TransportStage::Send,
                detail: "timed out".to_string(),
            }),
            vec!["status", "get"],
        ),
        (
            World { answer: head(502, Some("Bad Gateway")), ..world(reachable()) },
            FetchError::HttpStatus { code: 502, reason: Some("Bad Gateway".to_string()) },
            vec!["status", "get"],
        ),
        (
            World { body: Err("cut".to_string()), ..world(reachable()) },
            FetchError::Decode("cut".to_string()),
            vec!["status", "get", "body"],
        ),
    ];
    for (mut case, expected, steps) in cases {
        case.read = Ok(Some(stored("1", 1)));
        let (outcome, did) = run_fetch(strict(), case);
        assert_eq!(outcome, Err(expected));
        assert_eq!(kinds(&did), steps);
    }
}

#[test]
fn force_refresh_rejects_body_that_is_not_json() {
    let (outcome, did) =
        run_fetch(strict(), World { body: bytes("<html>"), ..world(reachable()) });
    assert!(matches!(outcome, Err(FetchError::Decode(_))));
    assert_eq!(kinds(&did), vec!["status", "get", "body"]);
}

#[test]
fn force_refresh_fails_when_storing_fails() {
    let full = IoFailure { stage: IoStage::Write, detail: "disk full".to_string() };
    let (outcome, did) =
        run_fetch(strict(), World { write: Err(full.clone()), ..world(reachable()) });
    assert_eq!(outcome, Err(FetchError::Persist(StoreError::Io(full))));
    assert_eq!(kinds(&did), vec!["status", "get", "body", "write"]);
}

#[test]
fn on_body_at_stamps_entry_with_given_time() {
    let get = match tolerant() {
        FetchStep::CheckStatus(state) => state.on_status(reachable()),
        other => panic!("expected a status check, got {:?}", other),
    };
    let reading = match get {
        FetchStep::Get(state, _) => state.on_response(head(200, Some("OK"))),
        other => panic!("expected a get, got {:?}", other),
    };
    let write = match reading {
        FetchStep::ReadBody(state) => state.on_body_at(bytes("{\"n\": 1}"), 424242),
        other => panic!("expected to read the body, got {:?}", other),
    };
    match write {
        FetchStep::Write(state, request) => {
            assert_eq!(
                request,
                WriteRequest {
                    file_name: "profile.json".to_string(),
                    content: "{\n  \"data\": {\n    \"n\": 1\n  },\n  \"timestamp\": 424242\n}"
                        .to_string(),
                }
            );
            match state.on_written_at(Ok(()), 424250) {
                FetchStep::Done(outcome) => assert_eq!(
                    outcome,
                    Ok(FetchResult {
                        data: value("{\"n\": 1}"),
                        provenance: Provenance::Online,
                        timestamp: 424250,
                    })
                ),
                other => panic!("expected the result, got {:?}", other),
            }
        }
        other => panic!("expected a write, got {:?}", other),
    }
}

#[test]
fn fallback_keeps_reason_of_remote_failure() {
    let cases: Vec<(World, Option<FetchError>)> = vec![
        (world(offline()), None),
        (world(online_only()), None),
        (
            World { answer: unanswered("timed out"), ..world(reachable()) },
            Some(FetchError::Transport(TransportFailure {
                stage: TransportStage::Send,
                detail: "timed out".to_string(),
            })),
        ),
        (
            World { answer: head(503, Some("Service Unavailable")), ..world(reachable()) },
            Some(FetchError::HttpStatus {
                code: 503,
                reason: Some("Service Unavailable".to_string()),
            }),
        ),
        (
            World { body: Err("cut".to_string()), ..world(reachable()) },
            Some(FetchError::Decode("cut".to_string())),
        ),
    ];
    for (case, expected) in cases {
        let mut step = tolerant();
        let mut answer = Some(case.answer);
        let mut body = Some(case.body);
        let fallback = loop {
            step = match step {
                FetchStep::CheckStatus(state) => state.on_status(case.status),
                FetchStep::Get(state, _) => state.on_response(answer.take().unwrap()),
                FetchStep::ReadBody(state) => state.on_body(body.take().unwrap()),
                FetchStep::Read(state, _) => break state,
                other => panic!("expected a read of the cache, got {:?}", other),
            }
        };
        assert_eq!(fallback.reason, expected);
        match fallback.on_read(Ok(Some(stored("7", 70)))) {
            FetchStep::Done(outcome) => assert_eq!(
                outcome,
                Ok(FetchResult { data: value("7"), provenance: Provenance::Local, timestamp: 70 })
            ),
            other => panic!("expected the result, got {:?}", other),
        }
    }
}

#[test]
fn fallback_keeps_parser_message_of_body_that_is_not_json() {
    let step = match tolerant() {
        FetchStep::CheckStatus(state) => state.on_status(reachable()),
        other => panic!("expected a status check, got {:?}", other),
    };
    let step = match step {
        FetchStep::Get(state, _) => state.on_response(head(200, Some("OK"))),
        other => panic!("expected a get, got {:?}", other),
    };
    let step = match step {
        FetchStep::ReadBody(state) => state.on_body(bytes("<html>")),
        other => panic!("expected to read the body, got {:?}", other),
    };
    match step {
        FetchStep::Read(state, name) => {
            assert_eq!(name, "profile.json");
            match state.reason {
                Some(FetchError::Decode(detail)) => assert!(!detail.is_empty()),
                other => panic!("expected a decoding failure, got {:?}", other),
            }
        }
        other => panic!("expected a read of the cache, got {:?}", other),
    }
}
