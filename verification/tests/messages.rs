use offline_cache::model::{
    FetchError, IoFailure, IoStage, StoreError, TransportFailure, TransportStage,
};
use offline_cache::text::decimal_text;

fn io(stage: IoStage) -> IoFailure {
    IoFailure { stage, detail: "denied".to_string() }
}

#[test]
fn decimal_text_writes_digits() {
    assert_eq!(decimal_text(0), "0");
    assert_eq!(decimal_text(7), "7");
    assert_eq!(decimal_text(9), "9");
    assert_eq!(decimal_text(10), "10");
    assert_eq!(decimal_text(404), "404");
    assert_eq!(decimal_text(1234), "1234");
    assert_eq!(decimal_text(65535), "65535");
}

#[test]
fn decimal_text_agrees_with_std_on_every_value() {
    for n in 0..=u16::MAX {
        assert_eq!(decimal_text(n), n.to_string());
    }
}

#[test]
fn io_failure_message_names_operation() {
    assert_eq!(io(IoStage::LocateDir).message(), "Failed to get app data directory: denied");
    assert_eq!(io(IoStage::CreateDir).message(), "Failed to create data directory: denied");
    assert_eq!(io(IoStage::Write).message(), "Failed to write data file: denied");
    assert_eq!(io(IoStage::Read).message(), "Failed to read data file: denied");
    assert_eq!(io(IoStage::Remove).message(), "Failed to remove data file: denied");
    assert_eq!(io(IoStage::ListDir).message(), "Failed to read data directory: denied");
}

#[test]
fn store_error_message_for_each_variant() {
    assert_eq!(StoreError::Io(io(IoStage::Write)).message(), "Failed to write data file: denied");
    assert_eq!(
        StoreError::Corrupt("expected value at line 1".to_string()).message(),
        "Failed to parse data file: expected value at line 1"
    );
    assert_eq!(
        StoreError::Encode("key must be a string".to_string()).message(),
        "Failed to serialize data: key must be a string"
    );
}

#[test]
fn transport_failure_message_for_each_stage() {
    let setup = TransportFailure { stage: TransportStage::Setup, detail: "no tls".to_string() };
    assert_eq!(setup.message(), "Failed to create HTTP client: no tls");
    let send = TransportFailure { stage: TransportStage::Send, detail: "timed out".to_string() };
    assert_eq!(send.message(), "Network request failed: timed out");
}

#[test]
fn fetch_error_message_for_each_variant() {
    let send = TransportFailure { stage: TransportStage::Send, detail: "timed out".to_string() };
    assert_eq!(FetchError::Transport(send).message(), "Network request failed: timed out");
    assert_eq!(
        FetchError::HttpStatus { code: 404, reason: Some("Not Found".to_string()) }.message(),
        "HTTP error: 404 Not Found - Not Found"
    );
    assert_eq!(
        FetchError::HttpStatus { code: 599, reason: None }.message(),
        "HTTP error: 599 <unknown status code> - Unknown"
    );
    assert_eq!(
        FetchError::Decode("EOF while parsing".to_string()).message(),
        "Failed to parse JSON response: EOF while parsing"
    );
    assert_eq!(
        FetchError::LocalLoad(StoreError::Corrupt("bad".to_string())).message(),
        "Failed to load local data: Failed to parse data file: bad"
    );
    assert_eq!(
        FetchError::LocalLoad(StoreError::Io(io(IoStage::Read))).message(),
        "Failed to load local data: Failed to read data file: denied"
    );
    assert_eq!(
        FetchError::Persist(StoreError::Io(io(IoStage::Write))).message(),
        "Failed to write data file: denied"
    );
    assert_eq!(FetchError::NoDataAvailable.message(), "No data available online or locally");
    assert_eq!(
        FetchError::ConnectivityRequired.message(),
        "Cannot reach website. Please check your internet connection."
    );
}

#[test]
fn http_status_message_matches_status_display() {
    let status = reqwest::StatusCode::from_u16(503).unwrap();
    let expected = format!(
        "HTTP error: {} - {}",
        status,
        status.canonical_reason().unwrap_or("Unknown")
    );
    let error = FetchError::HttpStatus {
        code: status.as_u16(),
        reason: status.canonical_reason().map(|r| r.to_string()),
    };
    assert_eq!(error.message(), expected);
    let odd = reqwest::StatusCode::from_u16(799).unwrap();
    let expected = format!("HTTP error: {} - {}", odd, odd.canonical_reason().unwrap_or("Unknown"));
    let error = FetchError::HttpStatus {
        code: odd.as_u16(),
        reason: odd.canonical_reason().map(|r| r.to_string()),
    };
    assert_eq!(error.message(), expected);
}

#[test]
fn provenance_label_is_online_or_local() {
    assert_eq!(offline_cache::model::Provenance::Online.label(), "online");
    assert_eq!(offline_cache::model::Provenance::Local.label(), "local");
}
