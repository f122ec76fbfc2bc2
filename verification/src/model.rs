//! The values that callers exchange with the cache: results, statuses and
//! errors, each with its mathematical view.
use crate::json::{json_view, JsonView};
use vstd::prelude::*;

verus! {

/// What the connectivity probes found.
#[derive(Clone, Copy, Debug, PartialEq, Eq, Structural)]
pub struct NetworkStatus {
    /// Some general endpoint answered.
    pub is_online: bool,
    /// The target service answered.
    pub can_reach_target: bool,
}

/// Where returned data came from.
#[derive(Clone, Copy, Debug, PartialEq, Eq, Structural)]
pub enum Provenance {
    /// Freshly fetched from the remote source.
    Online,
    /// Read from the cache.
    Local,
}

/// How a provenance is written where a text is wanted.
pub open spec fn provenance_label(provenance: Provenance) -> Seq<char> {
    match provenance {
        Provenance::Online => "online"@,
        Provenance::Local => "local"@,
    }
}

impl Provenance {
    /// The provenance as a text: `online` or `local`.
    pub fn label(&self) -> (text: &'static str)
        ensures
            text@ == provenance_label(*self),
    {
        match self {
            Provenance::Online => "online",
            Provenance::Local => "local",
        }
    }
}

/// Data handed to the caller, with its origin and capture time.
#[derive(Debug, Clone, PartialEq)]
pub struct FetchResult {
    pub data: serde_json::Value,
    pub provenance: Provenance,
    /// Seconds since the Unix epoch.
    pub timestamp: i64,
}

/// `FetchResult` as a mathematical value.
pub struct FetchResultView {
    pub data: JsonView,
    pub provenance: Provenance,
    pub timestamp: i64,
}

impl View for FetchResult {
    type V = FetchResultView;

    open spec fn view(&self) -> FetchResultView {
        FetchResultView {
            data: json_view(self.data),
            provenance: self.provenance,
            timestamp: self.timestamp,
        }
    }
}

/// The file operation that failed.
#[derive(Clone, Copy, Debug, PartialEq, Eq, Structural)]
pub enum IoStage {
    /// Finding out where the data directory is.
    LocateDir,
    /// Creating the data directory.
    CreateDir,
    /// Writing a cache file.
    Write,
    /// Reading a cache file.
    Read,
    /// Removing a cache file.
    Remove,
    /// Listing the data directory.
    ListDir,
}

/// A failed file operation, as reported by whoever performed it.
#[derive(Debug, Clone, PartialEq, Eq)]
pub struct IoFailure {
    pub stage: IoStage,
    pub detail: String,
}

/// `IoFailure` as a mathematical value.
pub struct IoFailureView {
    pub stage: IoStage,
    pub detail: Seq<char>,
}

impl View for IoFailure {
    type V = IoFailureView;

    open spec fn view(&self) -> IoFailureView {
        IoFailureView { stage: self.stage, detail: self.detail@ }
    }
}

/// Why a cache operation failed.
#[derive(Debug, Clone, PartialEq, Eq)]
pub enum StoreError {
    /// A file operation failed.
    Io(IoFailure),
    /// A cache file does not hold JSON; the text is the parser's message.
    Corrupt(String),
    /// An entry could not be written as JSON; the text is the printer's message.
    Encode(String),
}

/// `StoreError` as a mathematical value. The parser's and the printer's
/// messages are left out.
pub enum StoreErrorView {
    Io(IoFailureView),
    Corrupt,
    Encode,
}

impl View for StoreError {
    type V = StoreErrorView;

    open spec fn view(&self) -> StoreErrorView {
        match self {
            StoreError::Io(failure) => StoreErrorView::Io(failure@),
            StoreError::Corrupt(_) => StoreErrorView::Corrupt,
            StoreError::Encode(_) => StoreErrorView::Encode,
        }
    }
}

/// The part of a remote request that failed before any answer arrived.
#[derive(Clone, Copy, Debug, PartialEq, Eq, Structural)]
pub enum TransportStage {
    /// The HTTP client could not be set up.
    Setup,
    /// The request was not answered: no connection, or no answer in time.
    Send,
}

/// A remote request that got no answer, as reported by whoever sent it.
#[derive(Debug, Clone, PartialEq, Eq)]
pub struct TransportFailure {
    pub stage: TransportStage,
    pub detail: String,
}

/// `TransportFailure` as a mathematical value.
pub struct TransportFailureView {
    pub stage: TransportStage,
    pub detail: Seq<char>,
}

impl View for TransportFailure {
    type V = TransportFailureView;

    open spec fn view(&self) -> TransportFailureView {
        TransportFailureView { stage: self.stage, detail: self.detail@ }
    }
}

/// Why a fetch failed.
#[derive(Debug, Clone, PartialEq, Eq)]
pub enum FetchError {
    /// The request did not get an answer.
    Transport(TransportFailure),
    /// The answer's status was not in 200..=299.
    HttpStatus { code: u16, reason: Option<String> },
    /// The answer's body could not be read as JSON; the text says why.
    Decode(String),
    /// No fresh data, and the cache could not be read.
    LocalLoad(StoreError),
    /// Fresh data could not be stored, where storing it was required.
    Persist(StoreError),
    /// No fresh data, and nothing cached under the key.
    NoDataAvailable,
    /// A refresh was demanded while the target service was out of reach.
    ConnectivityRequired,
}

/// `FetchError` as a mathematical value. The text of a decoding failure is
/// left out.
pub enum FetchErrorView {
    Transport(TransportFailureView),
    HttpStatus { code: u16, reason: Option<Seq<char>> },
    Decode,
    LocalLoad(StoreErrorView),
    Persist(StoreErrorView),
    NoDataAvailable,
    ConnectivityRequired,
}

impl View for FetchError {
    type V = FetchErrorView;

    open spec fn view(&self) -> FetchErrorView {
        match self {
            FetchError::Transport(failure) => FetchErrorView::Transport(failure@),
            FetchError::HttpStatus { code, reason } => FetchErrorView::HttpStatus {
                code: *code,
                reason: text_view(*reason),
            },
            FetchError::Decode(_) => FetchErrorView::Decode,
            FetchError::LocalLoad(e) => FetchErrorView::LocalLoad(e@),
            FetchError::Persist(e) => FetchErrorView::Persist(e@),
            FetchError::NoDataAvailable => FetchErrorView::NoDataAvailable,
            FetchError::ConnectivityRequired => FetchErrorView::ConnectivityRequired,
        }
    }
}

/// The texts of a sequence of strings.
pub open spec fn texts(strings: Seq<String>) -> Seq<Seq<char>> {
    Seq::new(strings.len(), |i: int| strings[i]@)
}

/// The view of an optional text.
pub open spec fn text_view(text: Option<String>) -> Option<Seq<char>> {
    match text {
        Some(t) => Some(t@),
        None => None,
    }
}

/// The view of a result: the view of what it holds.
pub open spec fn result_view<T: View, E: View>(result: Result<T, E>) -> Result<T::V, E::V> {
    match result {
        Ok(value) => Ok(value@),
        Err(error) => Err(error@),
    }
}

} // verus!
