//! The fetch orchestrator: fresh data where the target service is in reach,
//! the cached copy where it is not.
//!
//! A fetch is a short sequence of steps. Each step names what the caller has
//! to do next (check the network status, send a GET, read the body of the
//! answer, write or read a file) and holds the state that takes the answer.
//! `fetch_with_fallback` falls back to the cache on any remote failure and
//! never fails because caching failed. `force_refresh` demands fresh data:
//! it never reads the cache, and it fails where the data cannot be fetched
//! or cannot be stored.
use crate::clock::current_capture_time;
use crate::directory::{dir_read, lemma_save_then_load, loaded};
use crate::entry::{entry_doc, reads_back, served, CacheEntry, CacheEntryView};
use crate::files::{file_name, file_name_for};
use crate::json::{json_view, parse_bytes, parsed_bytes, JsonView};
use crate::model::{
    result_view, text_view, FetchError, FetchErrorView, FetchResult, FetchResultView, IoFailure,
    IoFailureView, NetworkStatus, Provenance, StoreError, StoreErrorView, TransportFailure,
    TransportFailureView,
};
use crate::store::{
    load, load_result, read_view, save_entry, save_plan, WriteRequest, WriteRequestView,
};
use std::collections::HashMap;
use vstd::prelude::*;

verus! {

/// Seconds that the remote request may take.
pub const FETCH_TIMEOUT_SECS: u64 = 10;

/// How a fetch treats failures.
#[derive(Clone, Copy, Debug, PartialEq, Eq, Structural)]
pub enum FetchMode {
    /// Serve the cached copy where fresh data cannot be had.
    Tolerant,
    /// Fresh data, stored, or an error.
    Strict,
}

/// A GET to send, with the headers to add to it.
#[derive(Debug, Clone, PartialEq, Eq)]
pub struct GetRequest {
    pub url: String,
    pub headers: Option<HashMap<String, String>>,
    pub timeout_secs: u64,
}

/// `GetRequest` as a mathematical value. The headers are the mapping that
/// was handed in, unchanged.
pub struct GetRequestView {
    pub url: Seq<char>,
    pub headers: Option<HashMap<String, String>>,
    pub timeout_secs: u64,
}

impl View for GetRequest {
    type V = GetRequestView;

    open spec fn view(&self) -> GetRequestView {
        GetRequestView { url: self.url@, headers: self.headers, timeout_secs: self.timeout_secs }
    }
}

/// The head of the answer to a GET: the status, and its reason phrase
/// where it has a standard one.
#[derive(Debug, Clone, PartialEq, Eq)]
pub struct ResponseHead {
    pub status: u16,
    pub reason: Option<String>,
}

/// `ResponseHead` as a mathematical value.
pub struct ResponseHeadView {
    pub status: u16,
    pub reason: Option<Seq<char>>,
}

impl View for ResponseHead {
    type V = ResponseHeadView;

    open spec fn view(&self) -> ResponseHeadView {
        ResponseHeadView { status: self.status, reason: text_view(self.reason) }
    }
}

/// Whether a status counts as success: 200 to 299.
pub open spec fn is_success(status: u16) -> bool {
    200 <= status < 300
}

/// Why the answer to the GET gives no data, if it gives none: there was no
/// answer, or its status is outside 200..=299.
pub open spec fn head_error(answer: Result<ResponseHeadView, TransportFailureView>) -> Option<
    FetchErrorView,
> {
    match answer {
        Err(failure) => Some(FetchErrorView::Transport(failure)),
        Ok(head) => if is_success(head.status) {
            None
        } else {
            Some(FetchErrorView::HttpStatus { code: head.status, reason: head.reason })
        },
    }
}

/// The view of an optional error of a fetch.
pub open spec fn error_view(error: Option<FetchError>) -> Option<FetchErrorView> {
    match error {
        Some(e) => Some(e@),
        None => None,
    }
}

/// Looks at what sending the GET gave, before any of the body is read.
pub fn check_response(answer: Result<ResponseHead, TransportFailure>) -> (error: Option<
    FetchError,
>)
    ensures
        error_view(error) == head_error(result_view(answer)),
{
    match answer {
        Err(failure) => Some(FetchError::Transport(failure)),
        Ok(head) => if 200 <= head.status && head.status < 300 {
            None
        } else {
            Some(FetchError::HttpStatus { code: head.status, reason: head.reason })
        },
    }
}

/// What reading the body gave: the bytes, or `None` where it failed.
pub open spec fn body_view(body: Result<Vec<u8>, String>) -> Option<Seq<u8>> {
    match body {
        Ok(bytes) => Some(bytes@),
        Err(_) => None,
    }
}

/// The data in the body of the answer: the JSON document that it holds, or
/// `Decode` where it could not be read or is not JSON.
pub open spec fn body_data(body: Option<Seq<u8>>) -> Result<JsonView, FetchErrorView> {
    match body {
        Some(bytes) => match parsed_bytes(bytes) {
            Some(doc) => Ok(doc),
            None => Err(FetchErrorView::Decode),
        },
        None => Err(FetchErrorView::Decode),
    }
}

/// The view of the data of a remote request.
pub open spec fn data_view(data: Result<serde_json::Value, FetchError>) -> Result<
    JsonView,
    FetchErrorView,
> {
    match data {
        Ok(value) => Ok(json_view(value)),
        Err(error) => Err(error@),
    }
}

/// Reads the data out of the body of the answer. Where the body could not
/// be read, the error says what was reported of it.
pub fn read_body(body: Result<Vec<u8>, String>) -> (data: Result<serde_json::Value, FetchError>)
    ensures
        data_view(data) == body_data(body_view(body)),
        body matches Err(detail) ==> data matches Err(FetchError::Decode(text)) && text@
            == detail@,
{
    match body {
        Ok(bytes) => match parse_bytes(bytes.as_slice()) {
            Ok(value) => Ok(value),
            Err(e) => Err(FetchError::Decode(e.to_string())),
        },
        Err(detail) => Err(FetchError::Decode(detail)),
    }
}

/// A fetch that waits for the network status.
#[derive(Debug)]
pub struct ProbeReachability {
    key: String,
    url: String,
    headers: Option<HashMap<String, String>>,
    mode: FetchMode,
}

/// `ProbeReachability` as a mathematical value.
pub struct ProbeReachabilityView {
    pub key: Seq<char>,
    pub url: Seq<char>,
    pub headers: Option<HashMap<String, String>>,
    pub mode: FetchMode,
}

impl View for ProbeReachability {
    type V = ProbeReachabilityView;

    closed spec fn view(&self) -> ProbeReachabilityView {
        ProbeReachabilityView {
            key: self.key@,
            url: self.url@,
            headers: self.headers,
            mode: self.mode,
        }
    }
}

/// A fetch that waits for the answer to its GET.
#[derive(Debug)]
pub struct RemoteFetch {
    key: String,
    mode: FetchMode,
}

/// `RemoteFetch` as a mathematical value.
pub struct RemoteFetchView {
    pub key: Seq<char>,
    pub mode: FetchMode,
}

impl View for RemoteFetch {
    type V = RemoteFetchView;

    closed spec fn view(&self) -> RemoteFetchView {
        RemoteFetchView { key: self.key@, mode: self.mode }
    }
}

/// A fetch that waits for the body of a successful answer.
#[derive(Debug)]
pub struct RemoteBody {
    key: String,
    mode: FetchMode,
}

/// `RemoteBody` as a mathematical value.
pub struct RemoteBodyView {
    pub key: Seq<char>,
    pub mode: FetchMode,
}

impl View for RemoteBody {
    type V = RemoteBodyView;

    closed spec fn view(&self) -> RemoteBodyView {
        RemoteBodyView { key: self.key@, mode: self.mode }
    }
}

/// A fetch that holds fresh data and waits for it to be written to the cache.
#[derive(Debug)]
pub struct PersistAndReturn {
    data: serde_json::Value,
    mode: FetchMode,
}

/// `PersistAndReturn` as a mathematical value.
pub struct PersistAndReturnView {
    pub data: JsonView,
    pub mode: FetchMode,
}

impl View for PersistAndReturn {
    type V = PersistAndReturnView;

    closed spec fn view(&self) -> PersistAndReturnView {
        PersistAndReturnView { data: json_view(self.data), mode: self.mode }
    }
}

/// A fetch that waits for the cached copy to be read.
#[derive(Debug)]
pub struct FallbackLoad {
    /// Why the remote request gave no data, for whoever wants to report it;
    /// `None` where the target was out of reach and no request was sent.
    pub reason: Option<FetchError>,
}

/// `FallbackLoad` as a mathematical value.
pub struct FallbackLoadView {
    pub reason: Option<FetchErrorView>,
}

impl View for FallbackLoad {
    type V = FallbackLoadView;

    open spec fn view(&self) -> FallbackLoadView {
        FallbackLoadView { reason: error_view(self.reason) }
    }
}

/// Where a fetch stands: what to do next, or its result.
#[derive(Debug)]
pub enum FetchStep {
    /// Check the network status and pass it to `ProbeReachability::on_status`.
    CheckStatus(ProbeReachability),
    /// Send the GET and pass the head of the answer, or the failure, to
    /// `RemoteFetch::on_response`.
    Get(RemoteFetch, GetRequest),
    /// Read the body of the answer and pass it to `RemoteBody::on_body`.
    ReadBody(RemoteBody),
    /// Write the file and pass the outcome to `PersistAndReturn::on_written`.
    Write(PersistAndReturn, WriteRequest),
    /// Read the file of this name and pass what came to `FallbackLoad::on_read`.
    Read(FallbackLoad, String),
    /// The fetch is over.
    Done(Result<FetchResult, FetchError>),
}

/// `FetchStep` as a mathematical value.
pub enum FetchStepView {
    CheckStatus(ProbeReachabilityView),
    Get(RemoteFetchView, GetRequestView),
    ReadBody(RemoteBodyView),
    Write(PersistAndReturnView, WriteRequestView),
    Read(FallbackLoadView, Seq<char>),
    Done(Result<FetchResultView, FetchErrorView>),
}

impl View for FetchStep {
    type V = FetchStepView;

    open spec fn view(&self) -> FetchStepView {
        match self {
            FetchStep::CheckStatus(state) => FetchStepView::CheckStatus(state@),
            FetchStep::Get(state, request) => FetchStepView::Get(state@, request@),
            FetchStep::ReadBody(state) => FetchStepView::ReadBody(state@),
            FetchStep::Write(state, request) => FetchStepView::Write(state@, request@),
            FetchStep::Read(state, name) => FetchStepView::Read(state@, name@),
            FetchStep::Done(outcome) => FetchStepView::Done(result_view(*outcome)),
        }
    }
}

/// The first step of a fetch: the network status is needed.
pub open spec fn first_step(
    key: Seq<char>,
    url: Seq<char>,
    headers: Option<HashMap<String, String>>,
    mode: FetchMode,
) -> FetchStepView {
    FetchStepView::CheckStatus(ProbeReachabilityView { key, url, headers, mode })
}

/// The step after the network status is known.
///
/// With the target in reach the GET is sent. Without it, a tolerant fetch
/// goes on to the cached copy, with no remote error to report, and a strict
/// one ends with `ConnectivityRequired`.
pub open spec fn after_status(
    state: ProbeReachabilityView,
    status: NetworkStatus,
) -> FetchStepView {
    if status.can_reach_target {
        FetchStepView::Get(
            RemoteFetchView { key: state.key, mode: state.mode },
            GetRequestView {
                url: state.url,
                headers: state.headers,
                timeout_secs: FETCH_TIMEOUT_SECS,
            },
        )
    } else {
        match state.mode {
            FetchMode::Tolerant => FetchStepView::Read(
                FallbackLoadView { reason: None },
                file_name(state.key),
            ),
            FetchMode::Strict => FetchStepView::Done(Err(FetchErrorView::ConnectivityRequired)),
        }
    }
}

/// The result of a fetch that got fresh data.
pub open spec fn fresh(data: JsonView, now: i64) -> Result<FetchResultView, FetchErrorView> {
    Ok(FetchResultView { data, provenance: Provenance::Online, timestamp: now })
}

/// The step of a fetch that is left without fresh data: a tolerant fetch
/// goes on to the cached copy and keeps the reason for a report, and a
/// strict one fails with the reason.
pub open spec fn without_fresh(
    key: Seq<char>,
    mode: FetchMode,
    error: FetchErrorView,
) -> FetchStepView {
    match mode {
        FetchMode::Tolerant => FetchStepView::Read(
            FallbackLoadView { reason: Some(error) },
            file_name(key),
        ),
        FetchMode::Strict => FetchStepView::Done(Err(error)),
    }
}

/// The step after the GET was sent.
///
/// The body is read only of an answer whose status is in 200..=299. Any
/// other answer, and no answer, leave the fetch without fresh data.
pub open spec fn after_response(
    state: RemoteFetchView,
    answer: Result<ResponseHeadView, TransportFailureView>,
) -> FetchStepView {
    match head_error(answer) {
        Some(error) => without_fresh(state.key, state.mode, error),
        None => FetchStepView::ReadBody(RemoteBodyView { key: state.key, mode: state.mode }),
    }
}

/// The step after the body was read, at the time `now`.
///
/// Fresh data is stamped with `now` and written to the cache under the key.
/// Where the entry has no text, a tolerant fetch returns the fresh data all
/// the same, and a strict one fails. A body that could not be read or is
/// not JSON leaves the fetch without fresh data.
pub open spec fn after_body(
    state: RemoteBodyView,
    body: Option<Seq<u8>>,
    now: i64,
) -> FetchStepView {
    match body_data(body) {
        Ok(data) => match save_plan(state.key, CacheEntryView { data, captured_at: now }) {
            Ok(request) => FetchStepView::Write(
                PersistAndReturnView { data, mode: state.mode },
                request,
            ),
            Err(error) => match state.mode {
                FetchMode::Tolerant => FetchStepView::Done(fresh(data, now)),
                FetchMode::Strict => FetchStepView::Done(Err(FetchErrorView::Persist(error))),
            },
        },
        Err(error) => without_fresh(state.key, state.mode, error),
    }
}

/// The result after the write to the cache ended, at the time `now`.
///
/// A tolerant fetch returns the fresh data whether or not the write
/// succeeded. A strict one fails where the write failed.
pub open spec fn after_written(
    state: PersistAndReturnView,
    done: Result<(), IoFailureView>,
    now: i64,
) -> FetchStepView {
    match (state.mode, done) {
        (FetchMode::Strict, Err(failure)) => FetchStepView::Done(
            Err(FetchErrorView::Persist(StoreErrorView::Io(failure))),
        ),
        _ => FetchStepView::Done(fresh(state.data, now)),
    }
}

/// The result after the cached copy was read: the entry as it was stored,
/// `NoDataAvailable` where there is none, or the failure of the store.
pub open spec fn after_read(read: Result<Option<Seq<char>>, IoFailureView>) -> FetchStepView {
    FetchStepView::Done(
        match load_result(read) {
            Ok(Some(entry)) => Ok(entry),
            Ok(None) => Err(FetchErrorView::NoDataAvailable),
            Err(error) => Err(FetchErrorView::LocalLoad(error)),
        },
    )
}

/// Starts a fetch of `url` that falls back to the copy cached under `key`.
pub fn fetch_with_fallback(
    key: String,
    url: String,
    headers: Option<HashMap<String, String>>,
) -> (step: FetchStep)
    ensures
        step@ == first_step(key@, url@, headers, FetchMode::Tolerant),
{
    FetchStep::CheckStatus(ProbeReachability { key, url, headers, mode: FetchMode::Tolerant })
}

/// Starts a fetch of `url` that must give fresh data, stored under `key`.
pub fn force_refresh(
    key: String,
    url: String,
    headers: Option<HashMap<String, String>>,
) -> (step: FetchStep)
    ensures
        step@ == first_step(key@, url@, headers, FetchMode::Strict),
{
    FetchStep::CheckStatus(ProbeReachability { key, url, headers, mode: FetchMode::Strict })
}

impl ProbeReachability {
    /// Takes the network status.
    pub fn on_status(self, status: NetworkStatus) -> (step: FetchStep)
        ensures
            step@ == after_status(self@, status),
    {
        if status.can_reach_target {
            FetchStep::Get(
                RemoteFetch { key: self.key, mode: self.mode },
                GetRequest {
                    url: self.url,
                    headers: self.headers,
                    timeout_secs: FETCH_TIMEOUT_SECS,
                },
            )
        } else {
            match self.mode {
                FetchMode::Tolerant => FetchStep::Read(
                    FallbackLoad { reason: None },
                    file_name_for(self.key.as_str()),
                ),
                FetchMode::Strict => FetchStep::Done(Err(FetchError::ConnectivityRequired)),
            }
        }
    }
}

/// The error that a step holds: the error that ends the fetch, or the
/// reason that a read of the cached copy keeps for a report.
pub open spec fn failure_of(step: FetchStep) -> Option<FetchError> {
    match step {
        FetchStep::Read(fallback, _) => fallback.reason,
        FetchStep::Done(Err(error)) => Some(error),
        _ => None,
    }
}

/// Goes on without fresh data. The step holds the error as it was given.
fn give_up(key: String, mode: FetchMode, error: FetchError) -> (step: FetchStep)
    ensures
        step@ == without_fresh(key@, mode, error@),
        failure_of(step) == Some(error),
{
    match mode {
        FetchMode::Tolerant => {
            let file_name = file_name_for(key.as_str());
            FetchStep::Read(FallbackLoad { reason: Some(error) }, file_name)
        },
        FetchMode::Strict => FetchStep::Done(Err(error)),
    }
}

impl RemoteFetch {
    /// Takes what sending the GET gave: the head of the answer, or the
    /// failure to get one.
    pub fn on_response(self, answer: Result<ResponseHead, TransportFailure>) -> (step: FetchStep)
        ensures
            step@ == after_response(self@, result_view(answer)),
    {
        match check_response(answer) {
            Some(error) => give_up(self.key, self.mode, error),
            None => FetchStep::ReadBody(RemoteBody { key: self.key, mode: self.mode }),
        }
    }
}

impl RemoteBody {
    /// Goes on with fresh data, stamped with `now`.
    fn with_data(self, data: serde_json::Value, now: i64) -> (step: FetchStep)
        ensures
            step@ == match save_plan(
                self@.key,
                CacheEntryView { data: json_view(data), captured_at: now },
            ) {
                Ok(request) => FetchStepView::Write(
                    PersistAndReturnView { data: json_view(data), mode: self@.mode },
                    request,
                ),
                Err(error) => match self@.mode {
                    FetchMode::Tolerant => FetchStepView::Done(fresh(json_view(data), now)),
                    FetchMode::Strict => FetchStepView::Done(Err(FetchErrorView::Persist(error))),
                },
            },
    {
        let entry = CacheEntry { data, captured_at: now };
        match save_entry(self.key.as_str(), &entry) {
            Ok(request) => FetchStep::Write(
                PersistAndReturn { data: entry.data, mode: self.mode },
                request,
            ),
            Err(error) => match self.mode {
                FetchMode::Tolerant => FetchStep::Done(
                    Ok(
                        FetchResult {
                            data: entry.data,
                            provenance: Provenance::Online,
                            timestamp: now,
                        },
                    ),
                ),
                FetchMode::Strict => FetchStep::Done(Err(FetchError::Persist(error))),
            },
        }
    }

    /// Takes what reading the body gave, at the time `now`. Where the body
    /// could not be read, the step holds what was reported of it.
    pub fn on_body_at(self, body: Result<Vec<u8>, String>, now: i64) -> (step: FetchStep)
        ensures
            step@ == after_body(self@, body_view(body), now),
            body matches Err(detail) ==> failure_of(step) matches Some(FetchError::Decode(text))
                && text@ == detail@,
    {
        match read_body(body) {
            Ok(data) => self.with_data(data, now),
            Err(error) => give_up(self.key, self.mode, error),
        }
    }

    /// Takes what reading the body gave. Fresh data is stamped with the
    /// current capture time: what the clock gave, and 0 where the clock
    /// stands before the epoch, so never negative. The clock is read only
    /// where there is fresh data. Where the body could not be read, the step
    /// holds what was reported of it.
    pub fn on_body(self, body: Result<Vec<u8>, String>) -> (step: FetchStep)
        ensures
            exists|now: i64| now >= 0 && step@ == after_body(self@, body_view(body), now),
            body matches Err(detail) ==> failure_of(step) matches Some(FetchError::Decode(text))
                && text@ == detail@,
    {
        match read_body(body) {
            Ok(data) => {
                let now = current_capture_time();
                let step = self.with_data(data, now);
                assert(step@ == after_body(self@, body_view(body), now));
                step
            },
            Err(error) => {
                let step = give_up(self.key, self.mode, error);
                assert(step@ == after_body(self@, body_view(body), 0));
                step
            },
        }
    }
}

impl PersistAndReturn {
    /// Takes the outcome of the write, at the time `now`.
    pub fn on_written_at(self, done: Result<(), IoFailure>, now: i64) -> (step: FetchStep)
        ensures
            step@ == after_written(self@, result_view(done), now),
    {
        match (self.mode, done) {
            (FetchMode::Strict, Err(failure)) => FetchStep::Done(
                Err(FetchError::Persist(StoreError::Io(failure))),
            ),
            _ => FetchStep::Done(
                Ok(FetchResult { data: self.data, provenance: Provenance::Online, timestamp: now }),
            ),
        }
    }

    /// Takes the outcome of the write. The result is stamped with the
    /// current capture time: what the clock gave, and 0 where the clock
    /// stands before the epoch, so never negative. The clock is read only
    /// where there is a result to stamp.
    pub fn on_written(self, done: Result<(), IoFailure>) -> (step: FetchStep)
        ensures
            exists|now: i64| now >= 0 && step@ == after_written(self@, result_view(done), now),
    {
        match (self.mode, done) {
            (FetchMode::Strict, Err(failure)) => {
                let step = FetchStep::Done(Err(FetchError::Persist(StoreError::Io(failure))));
                assert(step@ == after_written(self@, result_view(done), 0));
                step
            },
            (_, done) => {
                let now = current_capture_time();
                self.on_written_at(done, now)
            },
        }
    }
}

impl FallbackLoad {
    /// Takes what reading the cached copy gave. The reason that was kept
    /// for a report has no part in the result.
    pub fn on_read(self, read: Result<Option<String>, IoFailure>) -> (step: FetchStep)
        ensures
            step@ == after_read(read_view(read)),
    {
        FetchStep::Done(
            match load(read) {
                Ok(Some(entry)) => Ok(entry),
                Ok(None) => Err(FetchError::NoDataAvailable),
                Err(error) => Err(FetchError::LocalLoad(error)),
            },
        )
    }
}

/// The directory after the caller did what `step` asks for, where a write
/// that is asked for succeeds. Only a write changes the directory.
pub open spec fn dir_after(dir: Map<Seq<char>, Seq<char>>, step: FetchStepView) -> Map<
    Seq<char>,
    Seq<char>,
> {
    match step {
        FetchStepView::Write(_, request) => dir.insert(request.file_name, request.content),
        _ => dir,
    }
}

/// With the target out of reach, a tolerant fetch asks for no GET: it reads
/// the file of its key, and where the cache holds an entry for the key it
/// returns that entry, marked as local.
pub proof fn lemma_unreachable_serves_cache(
    state: ProbeReachabilityView,
    status: NetworkStatus,
    dir: Map<Seq<char>, Seq<char>>,
    entry: FetchResultView,
)
    requires
        state.mode == FetchMode::Tolerant,
        !status.can_reach_target,
        loaded(dir, state.key) == Ok::<Option<FetchResultView>, StoreErrorView>(Some(entry)),
    ensures
        after_status(state, status) == FetchStepView::Read(
            FallbackLoadView { reason: None },
            file_name(state.key),
        ),
        after_read(Ok(dir_read(dir, file_name(state.key)))) == FetchStepView::Done(
            Ok(entry),
        ),
        entry.provenance == Provenance::Local,
{
}

/// With the target in reach, a successful answer and data in its body, a
/// tolerant fetch returns that data, marked as online, whether or not it
/// could be cached.
pub proof fn lemma_reachable_fetch_is_online(
    state: ProbeReachabilityView,
    status: NetworkStatus,
    answer: Result<ResponseHeadView, TransportFailureView>,
    body: Option<Seq<u8>>,
    data: JsonView,
    now: i64,
    done: Result<(), IoFailureView>,
    later: i64,
)
    requires
        state.mode == FetchMode::Tolerant,
        status.can_reach_target,
        head_error(answer) is None,
        body_data(body) == Ok::<JsonView, FetchErrorView>(data),
    ensures
        ({
            &&& after_status(state, status) matches FetchStepView::Get(fetch, request)
            &&& request.url == state.url
            &&& request.headers == state.headers
            &&& request.timeout_secs == FETCH_TIMEOUT_SECS
            &&& after_response(fetch, answer) matches FetchStepView::ReadBody(reading)
            &&& match after_body(reading, body, now) {
                FetchStepView::Write(persist, write) => after_written(persist, done, later)
                    == FetchStepView::Done(fresh(data, later)),
                step => step == FetchStepView::Done(fresh(data, now)),
            }
        }),
{
}

/// After a fetch got fresh data and its write succeeded, loading the key
/// returns that data, marked as local, with the time at which it was
/// stamped, for every entry that reads back.
pub proof fn lemma_fetch_then_load(
    reading: RemoteBodyView,
    body: Option<Seq<u8>>,
    data: JsonView,
    now: i64,
    dir: Map<Seq<char>, Seq<char>>,
)
    requires
        body_data(body) == Ok::<JsonView, FetchErrorView>(data),
        reads_back(entry_doc(CacheEntryView { data, captured_at: now })),
    ensures
        after_body(reading, body, now) is Write,
        loaded(dir_after(dir, after_body(reading, body, now)), reading.key) == Ok::<
            Option<FetchResultView>,
            StoreErrorView,
        >(Some(served(CacheEntryView { data, captured_at: now }))),
{
    lemma_save_then_load(dir, reading.key, data, now);
}

/// With the target out of reach, a strict fetch fails with
/// `ConnectivityRequired` at once: it asks for nothing, and the directory
/// stays as it is.
pub proof fn lemma_refresh_needs_connectivity(
    state: ProbeReachabilityView,
    status: NetworkStatus,
    dir: Map<Seq<char>, Seq<char>>,
)
    requires
        state.mode == FetchMode::Strict,
        !status.can_reach_target,
    ensures
        after_status(state, status) == FetchStepView::Done(
            Err(FetchErrorView::ConnectivityRequired),
        ),
        dir_after(dir, after_status(state, status)) == dir,
{
}

/// The body is read exactly of an answer whose status is in 200..=299.
pub proof fn lemma_body_read_on_success(
    fetch: RemoteFetchView,
    answer: Result<ResponseHeadView, TransportFailureView>,
)
    ensures
        after_response(fetch, answer) is ReadBody <==> (answer matches Ok(head) && is_success(
            head.status,
        )),
{
}

/// A tolerant fetch fails only after the fallback: no step before the read
/// of the cached copy ends it with an error, and after the read it fails
/// only where the cache has no entry or could not be read. The error of the
/// remote request is not lost: the step that asks for the read holds it.
pub proof fn lemma_tolerant_fails_only_after_fallback(
    state: ProbeReachabilityView,
    status: NetworkStatus,
    fetch: RemoteFetchView,
    answer: Result<ResponseHeadView, TransportFailureView>,
    reading: RemoteBodyView,
    body: Option<Seq<u8>>,
    persist: PersistAndReturnView,
    done: Result<(), IoFailureView>,
    read: Result<Option<Seq<char>>, IoFailureView>,
    now: i64,
)
    requires
        state.mode == FetchMode::Tolerant,
        fetch.mode == FetchMode::Tolerant,
        reading.mode == FetchMode::Tolerant,
        persist.mode == FetchMode::Tolerant,
    ensures
        !(after_status(state, status) matches FetchStepView::Done(Err(_))),
        after_status(state, status) matches FetchStepView::Get(next, _) ==> next.mode
            == FetchMode::Tolerant,
        !(after_response(fetch, answer) matches FetchStepView::Done(Err(_))),
        after_response(fetch, answer) matches FetchStepView::ReadBody(next) ==> next.mode
            == FetchMode::Tolerant,
        after_response(fetch, answer) matches FetchStepView::Read(fallback, _)
            ==> fallback.reason == head_error(answer),
        !(after_body(reading, body, now) matches FetchStepView::Done(Err(_))),
        after_body(reading, body, now) matches FetchStepView::Read(fallback, _)
            ==> fallback.reason matches Some(reason) && body_data(body) == Err::<
            JsonView,
            FetchErrorView,
        >(reason),
        after_body(reading, body, now) matches FetchStepView::Write(next, _) ==> next.mode
            == FetchMode::Tolerant,
        !(after_written(persist, done, now) matches FetchStepView::Done(Err(_))),
        after_read(read) matches FetchStepView::Done(Err(error)) ==> error
            == FetchErrorView::NoDataAvailable || error is LocalLoad,
{
}

/// A strict fetch never reads the cache: none of its steps asks for a read,
/// and each error of the remote request or of the write is its result.
pub proof fn lemma_strict_never_falls_back(
    state: ProbeReachabilityView,
    status: NetworkStatus,
    fetch: RemoteFetchView,
    answer: Result<ResponseHeadView, TransportFailureView>,
    reading: RemoteBodyView,
    body: Option<Seq<u8>>,
    persist: PersistAndReturnView,
    failure: IoFailureView,
    now: i64,
)
    requires
        state.mode == FetchMode::Strict,
        fetch.mode == FetchMode::Strict,
        reading.mode == FetchMode::Strict,
        persist.mode == FetchMode::Strict,
    ensures
        !(after_status(state, status) is Read),
        after_status(state, status) matches FetchStepView::Get(next, _) ==> next.mode
            == FetchMode::Strict,
        !(after_response(fetch, answer) is Read),
        after_response(fetch, answer) matches FetchStepView::ReadBody(next) ==> next.mode
            == FetchMode::Strict,
        head_error(answer) matches Some(error) ==> after_response(fetch, answer)
            == FetchStepView::Done(Err(error)),
        !(after_body(reading, body, now) is Read),
        after_body(reading, body, now) matches FetchStepView::Write(next, _) ==> next.mode
            == FetchMode::Strict,
        body_data(body) matches Err(error) ==> after_body(reading, body, now)
            == FetchStepView::Done(Err(error)),
        after_written(persist, Err(failure), now) == FetchStepView::Done(
            Err(FetchErrorView::Persist(StoreErrorView::Io(failure))),
        ),
{
}

/// A fetch moves forward: the network status is asked for once, at the
/// start, the GET only after the status, the body only after the GET, and a
/// write or a read is followed by the result.
pub proof fn lemma_fetch_moves_forward(
    state: ProbeReachabilityView,
    status: NetworkStatus,
    fetch: RemoteFetchView,
    answer: Result<ResponseHeadView, TransportFailureView>,
    reading: RemoteBodyView,
    body: Option<Seq<u8>>,
    persist: PersistAndReturnView,
    done: Result<(), IoFailureView>,
    read: Result<Option<Seq<char>>, IoFailureView>,
    now: i64,
)
    ensures
        after_status(state, status) is Get || after_status(state, status) is Read || after_status(
            state,
            status,
        ) is Done,
        after_response(fetch, answer) is ReadBody || after_response(fetch, answer) is Read
            || after_response(fetch, answer) is Done,
        after_body(reading, body, now) is Write || after_body(reading, body, now) is Read
            || after_body(reading, body, now) is Done,
        after_written(persist, done, now) is Done,
        after_read(read) is Done,
{
}

} // verus!
