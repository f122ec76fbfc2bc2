//! Cache entries and the format of a cache file: a JSON object with the
//! members `data` and `timestamp`, pretty-printed.
use crate::json::{
    json_as_i64, json_integer, json_member, json_null, json_set_member, json_view, member_of,
    parse_text, parsed_text, pretty_text, signed_of, to_pretty_text, JsonNumber, JsonView,
};
use crate::model::{FetchResult, FetchResultView, Provenance, StoreError, StoreErrorView};
use vstd::prelude::*;

verus! {

/// What the cache keeps under a key: the data, and when it was captured.
#[derive(Debug, Clone, PartialEq)]
pub struct CacheEntry {
    pub data: serde_json::Value,
    /// Seconds since the Unix epoch.
    pub captured_at: i64,
}

/// `CacheEntry` as a mathematical value.
pub struct CacheEntryView {
    pub data: JsonView,
    pub captured_at: i64,
}

impl View for CacheEntry {
    type V = CacheEntryView;

    open spec fn view(&self) -> CacheEntryView {
        CacheEntryView { data: json_view(self.data), captured_at: self.captured_at }
    }
}

/// The key of the member that holds the cached data.
pub open spec fn data_key() -> Seq<char> {
    seq!['d', 'a', 't', 'a']
}

/// The key of the member that holds the capture time.
pub open spec fn timestamp_key() -> Seq<char> {
    seq!['t', 'i', 'm', 'e', 's', 't', 'a', 'm', 'p']
}

/// The document stored for an entry.
pub open spec fn entry_doc(entry: CacheEntryView) -> JsonView {
    JsonView::Object(
        Map::empty().insert(data_key(), entry.data).insert(
            timestamp_key(),
            JsonView::Number(JsonNumber::Integer(entry.captured_at as int)),
        ),
    )
}

/// The text of the file stored for an entry; `None` where the printer fails
/// on it.
pub open spec fn entry_text(entry: CacheEntryView) -> Option<Seq<char>> {
    pretty_text(entry_doc(entry))
}

/// The data that a stored document holds: its member `data`, or `null`
/// where it has none.
pub open spec fn entry_data(doc: JsonView) -> JsonView {
    match member_of(doc, data_key()) {
        Some(data) => data,
        None => JsonView::Null,
    }
}

/// The capture time that a stored document states: its member `timestamp`
/// where that is an integer in the range of `i64`.
pub open spec fn entry_timestamp(doc: JsonView) -> Option<i64> {
    match member_of(doc, timestamp_key()) {
        Some(stamp) => signed_of(stamp),
        None => None,
    }
}

/// The entry that a stored document is read as. A capture time that the
/// document does not state counts as 0.
pub open spec fn read_entry(doc: JsonView) -> CacheEntryView {
    CacheEntryView {
        data: entry_data(doc),
        captured_at: match entry_timestamp(doc) {
            Some(stamp) => stamp,
            None => 0,
        },
    }
}

/// The entry that the text of a cache file is read as; `None` where the text
/// is not JSON.
pub open spec fn decoded(text: Seq<char>) -> Option<CacheEntryView> {
    match parsed_text(text) {
        Some(doc) => Some(read_entry(doc)),
        None => None,
    }
}

/// The capture time under which a cache file is listed: that of the entry
/// that the text is read as, so 0 where the text states none. `None` only
/// where the text is not JSON.
pub open spec fn listed_timestamp(text: Seq<char>) -> Option<i64> {
    match parsed_text(text) {
        Some(doc) => Some(read_entry(doc).captured_at),
        None => None,
    }
}

/// An entry as it is handed to a caller: its data, marked as local, with the
/// time of its capture.
pub open spec fn served(entry: CacheEntryView) -> FetchResultView {
    FetchResultView {
        data: entry.data,
        provenance: Provenance::Local,
        timestamp: entry.captured_at,
    }
}

/// A document reads back when the printer writes a text for it and the
/// parser makes the same document of that text.
pub open spec fn reads_back(doc: JsonView) -> bool {
    pretty_text(doc) matches Some(text) && parsed_text(text) == Some(doc)
}

/// The document stored for an entry is read as that entry.
pub proof fn lemma_entry_doc_read(entry: CacheEntryView)
    ensures
        read_entry(entry_doc(entry)) == entry,
        entry_timestamp(entry_doc(entry)) == Some(entry.captured_at),
{
    assert(data_key() != timestamp_key()) by {
        assert(data_key().len() != timestamp_key().len());
    }
}

/// The file written for an entry is read as that entry, and listed with its
/// capture time, provided that the entry's document reads back.
pub proof fn lemma_written_entry_loads(entry: CacheEntryView)
    requires
        reads_back(entry_doc(entry)),
    ensures
        entry_text(entry) matches Some(text) && decoded(text) == Some(entry)
            && listed_timestamp(text) == Some(entry.captured_at),
{
    lemma_entry_doc_read(entry);
}

/// A file that holds JSON is always read as an entry, and listed with the
/// capture time of that entry. Where its `timestamp` member is missing or is
/// not an integer in the range of `i64`, the capture time is 0; where its
/// `data` member is missing, the data is `null`.
pub proof fn lemma_schema_drift_tolerated(text: Seq<char>)
    ensures
        parsed_text(text) matches Some(doc) ==> {
            &&& decoded(text) matches Some(entry)
            &&& listed_timestamp(text) == Some(entry.captured_at)
            &&& entry_timestamp(doc) is None ==> entry.captured_at == 0
            &&& member_of(doc, data_key()) is None ==> entry.data == JsonView::Null
        },
        parsed_text(text) is None ==> decoded(text) is None && listed_timestamp(text) is None,
{
}

/// Reads the capture time that a parsed cache file states.
fn stated_timestamp(doc: &serde_json::Value) -> (stamp: Option<i64>)
    ensures
        stamp == entry_timestamp(json_view(*doc)),
{
    proof {
        reveal_strlit("timestamp");
    }
    assert("timestamp"@ =~= timestamp_key());
    match json_member(doc, "timestamp") {
        Some(stamp) => json_as_i64(stamp),
        None => None,
    }
}

impl CacheEntry {
    /// Writes the text of the cache file for this entry. Fails with `Encode`
    /// exactly where the printer fails.
    pub fn encode(&self) -> (r: Result<String, StoreError>)
        ensures
            match entry_text(self@) {
                Some(text) => r matches Ok(written) && written@ == text,
                None => r matches Err(e) && e@ == StoreErrorView::Encode,
            },
    {
        proof {
            reveal_strlit("data");
            reveal_strlit("timestamp");
        }
        assert("data"@ =~= data_key());
        assert("timestamp"@ =~= timestamp_key());
        let mut doc = json_null();
        json_set_member(&mut doc, "data", self.data.clone());
        json_set_member(&mut doc, "timestamp", json_integer(self.captured_at));
        match to_pretty_text(&doc) {
            Ok(text) => Ok(text),
            Err(e) => Err(StoreError::Encode(e.to_string())),
        }
    }

    /// Reads the text of a cache file. Fails with `Corrupt` exactly where
    /// the text is not JSON; any JSON is read as an entry, with 0 for a
    /// capture time that it does not state and `null` for data that it does
    /// not hold.
    pub fn decode(text: &str) -> (r: Result<CacheEntry, StoreError>)
        ensures
            match decoded(text@) {
                Some(entry) => r matches Ok(found) && found@ == entry,
                None => r matches Err(e) && e@ == StoreErrorView::Corrupt,
            },
    {
        proof {
            reveal_strlit("data");
        }
        assert("data"@ =~= data_key());
        match parse_text(text) {
            Ok(doc) => {
                let captured_at = match stated_timestamp(&doc) {
                    Some(stamp) => stamp,
                    None => 0,
                };
                let data = match json_member(&doc, "data") {
                    Some(data) => data.clone(),
                    None => json_null(),
                };
                Ok(CacheEntry { data, captured_at })
            },
            Err(e) => Err(StoreError::Corrupt(e.to_string())),
        }
    }

    /// Hands the entry to a caller: its data, marked as local, with the time
    /// of its capture.
    pub fn into_result(self) -> (result: FetchResult)
        ensures
            result@ == served(self@),
    {
        FetchResult {
            data: self.data,
            provenance: Provenance::Local,
            timestamp: self.captured_at,
        }
    }
}

/// Reads the capture time under which a cache file is listed: the time that
/// the text states, 0 where it is JSON that states none, and `None` only
/// where it is not JSON.
pub fn timestamp_of_entry(text: &str) -> (stamp: Option<i64>)
    ensures
        stamp == listed_timestamp(text@),
{
    match parse_text(text) {
        Ok(doc) => match stated_timestamp(&doc) {
            Some(stated) => Some(stated),
            None => Some(0),
        },
        Err(_) => None,
    }
}

} // verus!
