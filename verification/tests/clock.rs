use offline_cache::clock::capture_time_of;
use offline_cache::fetch::{fetch_with_fallback, FetchStep, ResponseHead};
use offline_cache::model::NetworkStatus;
use offline_cache::store::save;
use serde_json::Value;

fn unix_seconds() -> i64 {
    std::time::SystemTime::now().duration_since(std::time::UNIX_EPOCH).unwrap().as_secs() as i64
}

#[test]
fn capture_time_of_keeps_reading_from_epoch_on() {
    assert_eq!(capture_time_of(0), 0);
    assert_eq!(capture_time_of(1), 1);
    assert_eq!(capture_time_of(1_700_000_000), 1_700_000_000);
    assert_eq!(capture_time_of(i64::MAX), i64::MAX);
}

#[test]
fn capture_time_of_takes_reading_before_epoch_as_zero() {
    assert_eq!(capture_time_of(-1), 0);
    assert_eq!(capture_time_of(-86_400), 0);
    assert_eq!(capture_time_of(i64::MIN), 0);
}

#[test]
fn save_stamps_with_reading_of_the_clock() {
    let before = unix_seconds();
    let request = save("k", Value::Null).unwrap();
    let after = unix_seconds();
    let stored: Value = serde_json::from_str(&request.content).unwrap();
    let stamp = stored.get("timestamp").and_then(|t| t.as_i64()).unwrap();
    assert!(stamp >= 0);
    assert!(before <= stamp && stamp <= after);
}

#[test]
fn fetch_stamps_entry_and_result_with_readings_of_the_clock() {
    let before = unix_seconds();
    let reachable = NetworkStatus { is_online: true, can_reach_target: true };
    let step = match fetch_with_fallback("k".to_string(), "https://x".to_string(), None) {
        FetchStep::CheckStatus(state) => state.on_status(reachable),
        other => panic!("expected a status check, got {:?}", other),
    };
    let step = match step {
        FetchStep::Get(state, _) => {
            state.on_response(Ok(ResponseHead { status: 200, reason: None }))
        }
        other => panic!("expected a get, got {:?}", other),
    };
    let step = match step {
        FetchStep::ReadBody(state) => state.on_body(Ok(b"[1]".to_vec())),
        other => panic!("expected to read the body, got {:?}", other),
    };
    let (stored, step) = match step {
        FetchStep::Write(state, request) => {
            let stored: Value = serde_json::from_str(&request.content).unwrap();
            (stored, state.on_written(Ok(())))
        }
        other => panic!("expected a write, got {:?}", other),
    };
    let after = unix_seconds();
    let stamp = stored.get("timestamp").and_then(|t| t.as_i64()).unwrap();
    assert!(stamp >= 0 && before <= stamp && stamp <= after);
    match step {
        FetchStep::Done(Ok(result)) => {
            assert!(result.timestamp >= 0);
            assert!(stamp <= result.timestamp && result.timestamp <= after);
        }
        other => panic!("expected fresh data, got {:?}", other),
    }
}
