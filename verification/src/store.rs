//! The local store: one file per key in a directory that the caller owns.
//!
//! The caller reads, writes, lists and removes files. This module says which
//! file and what text, and what the answers mean. What the operations do to
//! a directory, one after another, is stated in `directory`.
use crate::clock::current_capture_time;
use crate::entry::{
    decoded, entry_text, entry_timestamp, listed_timestamp, served, timestamp_of_entry,
    CacheEntry, CacheEntryView,
};
use crate::files::{
    file_name, file_name_for, lemma_key_of_file_name, lemma_managed_name, managed_key,
    managed_key_of,
};
use crate::json::parsed_text;
use crate::json::json_view;
use crate::model::{
    result_view, text_view, texts, FetchResult, FetchResultView, IoFailure, IoFailureView,
    StoreError, StoreErrorView,
};
use vstd::prelude::*;

verus! {

/// A file to write: created if absent, replaced if present.
#[derive(Debug, Clone, PartialEq, Eq)]
pub struct WriteRequest {
    pub file_name: String,
    pub content: String,
}

/// `WriteRequest` as a mathematical value.
pub struct WriteRequestView {
    pub file_name: Seq<char>,
    pub content: Seq<char>,
}

impl View for WriteRequest {
    type V = WriteRequestView;

    open spec fn view(&self) -> WriteRequestView {
        WriteRequestView { file_name: self.file_name@, content: self.content@ }
    }
}

/// What saving an entry under `key` asks for: the file to write, or
/// `Encode` where the entry has no text.
pub open spec fn save_plan(key: Seq<char>, entry: CacheEntryView) -> Result<
    WriteRequestView,
    StoreErrorView,
> {
    match entry_text(entry) {
        Some(text) => Ok(WriteRequestView { file_name: file_name(key), content: text }),
        None => Err(StoreErrorView::Encode),
    }
}

/// Prepares the file that stores `entry` under `key`.
pub fn save_entry(key: &str, entry: &CacheEntry) -> (plan: Result<WriteRequest, StoreError>)
    ensures
        result_view(plan) == save_plan(key@, entry@),
{
    match entry.encode() {
        Ok(content) => Ok(WriteRequest { file_name: file_name_for(key), content }),
        Err(e) => Err(e),
    }
}

/// Prepares the file that stores `data` under `key`, stamped with the
/// current capture time: what the clock gave, and 0 where the clock stands
/// before the epoch. The capture time that is stored is never negative.
pub fn save(key: &str, data: serde_json::Value) -> (plan: Result<WriteRequest, StoreError>)
    ensures
        exists|now: i64|
            now >= 0 && result_view(plan) == save_plan(
                key@,
                CacheEntryView { data: json_view(data), captured_at: now },
            ),
{
    let now = current_capture_time();
    let entry = CacheEntry { data, captured_at: now };
    save_entry(key, &entry)
}

/// What a finished file operation means for the store: its failure is the
/// store's failure.
pub open spec fn io_result(done: Result<(), IoFailureView>) -> Result<(), StoreErrorView> {
    match done {
        Ok(()) => Ok(()),
        Err(failure) => Err(StoreErrorView::Io(failure)),
    }
}

/// Ends `save`, and `clear` for one key: the failure of the write or of the
/// removal is passed on.
pub fn finish(done: Result<(), IoFailure>) -> (outcome: Result<(), StoreError>)
    ensures
        result_view(outcome) == io_result(result_view(done)),
{
    match done {
        Ok(()) => Ok(()),
        Err(failure) => Err(StoreError::Io(failure)),
    }
}

/// What reading a key's file gave: its text, `None` where there is no such
/// file, or the failure.
pub open spec fn read_view(read: Result<Option<String>, IoFailure>) -> Result<
    Option<Seq<char>>,
    IoFailureView,
> {
    match read {
        Ok(text) => Ok(text_view(text)),
        Err(failure) => Err(failure@),
    }
}

/// What `load` returns for what reading the key's file gave. No file is no
/// entry, not an error; a file that is not JSON is `Corrupt`.
pub open spec fn load_result(read: Result<Option<Seq<char>>, IoFailureView>) -> Result<
    Option<FetchResultView>,
    StoreErrorView,
> {
    match read {
        Ok(Some(text)) => match decoded(text) {
            Some(entry) => Ok(Some(served(entry))),
            None => Err(StoreErrorView::Corrupt),
        },
        Ok(None) => Ok(None),
        Err(failure) => Err(StoreErrorView::Io(failure)),
    }
}

/// The view of what `load` returns.
pub open spec fn load_view(outcome: Result<Option<FetchResult>, StoreError>) -> Result<
    Option<FetchResultView>,
    StoreErrorView,
> {
    match outcome {
        Ok(Some(entry)) => Ok(Some(entry@)),
        Ok(None) => Ok(None),
        Err(error) => Err(error@),
    }
}

/// Loads the entry of a key from what reading its file gave.
pub fn load(read: Result<Option<String>, IoFailure>) -> (outcome: Result<
    Option<FetchResult>,
    StoreError,
>)
    ensures
        load_view(outcome) == load_result(read_view(read)),
{
    match read {
        Ok(Some(text)) => match CacheEntry::decode(text.as_str()) {
            Ok(entry) => Ok(Some(entry.into_result())),
            Err(e) => Err(e),
        },
        Ok(None) => Ok(None),
        Err(failure) => Err(StoreError::Io(failure)),
    }
}

/// The managed files among `names`, in their order.
pub open spec fn managed_among(names: Seq<Seq<char>>) -> Seq<Seq<char>>
    decreases names.len(),
{
    if names.len() == 0 {
        Seq::empty()
    } else if managed_key(names.last()) is Some {
        managed_among(names.drop_last()).push(names.last())
    } else {
        managed_among(names.drop_last())
    }
}

/// The first thing to do for `clear`.
#[derive(Debug, Clone, PartialEq, Eq)]
pub enum ClearPlan {
    /// Remove this file if it exists, and pass the answer to `finish`.
    RemoveFile(String),
    /// List the files of the directory, remove those that `managed_in`
    /// selects, and pass the answers to `finish_sweep`.
    RemoveManaged,
}

/// `ClearPlan` as a mathematical value.
pub enum ClearPlanView {
    RemoveFile(Seq<char>),
    RemoveManaged,
}

impl View for ClearPlan {
    type V = ClearPlanView;

    open spec fn view(&self) -> ClearPlanView {
        match self {
            ClearPlan::RemoveFile(name) => ClearPlanView::RemoveFile(name@),
            ClearPlan::RemoveManaged => ClearPlanView::RemoveManaged,
        }
    }
}

/// What `clear` answers: the file of the key, or every managed file where
/// no key is given.
pub open spec fn clear_plan(key: Option<Seq<char>>) -> ClearPlanView {
    match key {
        Some(key) => ClearPlanView::RemoveFile(file_name(key)),
        None => ClearPlanView::RemoveManaged,
    }
}

/// Says what to remove to clear the entry of `key`, or every entry where
/// `key` is `None`.
pub fn clear(key: Option<&str>) -> (plan: ClearPlan)
    ensures
        plan@ == clear_plan(
            match key {
                Some(k) => Some(k@),
                None => None,
            },
        ),
{
    match key {
        Some(key) => ClearPlan::RemoveFile(file_name_for(key)),
        None => ClearPlan::RemoveManaged,
    }
}

/// Selects the managed files among the files of the directory: those that
/// clearing everything removes, and those that a listing reads.
pub fn managed_files(names: &Vec<String>) -> (selected: Vec<String>)
    ensures
        texts(selected@) == managed_among(texts(names@)),
{
    let mut selected: Vec<String> = Vec::new();
    let mut at: usize = 0;
    while at < names.len()
        invariant
            at <= names.len(),
            texts(selected@) == managed_among(texts(names@).take(at as int)),
        decreases names.len() - at,
    {
        let name = &names[at];
        proof {
            let upto = texts(names@).take(at as int + 1);
            assert(upto.drop_last() =~= texts(names@).take(at as int));
        }
        if managed_key_of(name.as_str()).is_some() {
            selected.push(name.clone());
        }
        at = at + 1;
    }
    assert(texts(names@).take(at as int) =~= texts(names@));
    selected
}

/// What a listing of the directory gave: the names of its files, or the
/// failure.
pub open spec fn names_view(listed: Result<Vec<String>, IoFailure>) -> Result<
    Seq<Seq<char>>,
    IoFailureView,
> {
    match listed {
        Ok(names) => Ok(texts(names@)),
        Err(failure) => Err(failure@),
    }
}

/// The managed files of a directory that was listed; the failure of the
/// listing is the store's failure.
pub open spec fn managed_listed(listed: Result<Seq<Seq<char>>, IoFailureView>) -> Result<
    Seq<Seq<char>>,
    StoreErrorView,
> {
    match listed {
        Ok(names) => Ok(managed_among(names)),
        Err(failure) => Err(StoreErrorView::Io(failure)),
    }
}

/// Takes what listing the directory gave and selects the managed files.
/// Clearing everything and listing the cache both start here.
pub fn managed_in(listed: Result<Vec<String>, IoFailure>) -> (selected: Result<
    Vec<String>,
    StoreError,
>)
    ensures
        match managed_listed(names_view(listed)) {
            Ok(names) => selected matches Ok(found) && texts(found@) == names,
            Err(error) => selected matches Err(e) && e@ == error,
        },
{
    match listed {
        Ok(names) => Ok(managed_files(&names)),
        Err(failure) => Err(StoreError::Io(failure)),
    }
}

/// Ends clearing every entry. Removing is best effort: the answers of the
/// removals are taken and dropped, so that one file that cannot be removed
/// does not stop the others. The outcome is success, whatever the answers.
pub fn finish_sweep(removals: Vec<Result<(), IoFailure>>) -> (outcome: Result<(), StoreError>)
    ensures
        outcome == Ok::<(), StoreError>(()),
{
    let _ = removals;
    Ok(())
}

/// A file of the directory as a listing reads it: its name, and its text
/// where it could be read.
#[derive(Debug, Clone, PartialEq, Eq)]
pub struct CacheFile {
    pub name: String,
    pub content: Option<String>,
}

/// `CacheFile` as a mathematical value.
pub struct CacheFileView {
    pub name: Seq<char>,
    pub content: Option<Seq<char>>,
}

impl View for CacheFile {
    type V = CacheFileView;

    open spec fn view(&self) -> CacheFileView {
        CacheFileView { name: self.name@, content: text_view(self.content) }
    }
}

/// A line of a listing: a key and the capture time of its entry.
#[derive(Debug, Clone, PartialEq, Eq)]
pub struct CacheStamp {
    pub key: String,
    pub timestamp: i64,
}

/// `CacheStamp` as a mathematical value.
pub struct CacheStampView {
    pub key: Seq<char>,
    pub timestamp: i64,
}

impl View for CacheStamp {
    type V = CacheStampView;

    open spec fn view(&self) -> CacheStampView {
        CacheStampView { key: self.key@, timestamp: self.timestamp }
    }
}

/// The line that a file contributes to a listing: its key and the capture
/// time of the entry that its text is read as, which is 0 where the text
/// states none. Only a file that is not managed, could not be read or is not
/// JSON has no line.
pub open spec fn stamp_of(file: CacheFileView) -> Option<CacheStampView> {
    match (managed_key(file.name), file.content) {
        (Some(key), Some(text)) => match listed_timestamp(text) {
            Some(timestamp) => Some(CacheStampView { key, timestamp }),
            None => None,
        },
        _ => None,
    }
}

/// The listing of `files`: the lines of its files, in their order.
pub open spec fn listing(files: Seq<CacheFileView>) -> Seq<CacheStampView>
    decreases files.len(),
{
    if files.len() == 0 {
        Seq::empty()
    } else {
        match stamp_of(files.last()) {
            Some(stamp) => listing(files.drop_last()).push(stamp),
            None => listing(files.drop_last()),
        }
    }
}

/// The views of a sequence of files.
pub open spec fn file_views(files: Seq<CacheFile>) -> Seq<CacheFileView> {
    Seq::new(files.len(), |i: int| files[i]@)
}

/// The views of the lines of a listing.
pub open spec fn stamp_views(stamps: Seq<CacheStamp>) -> Seq<CacheStampView> {
    Seq::new(stamps.len(), |i: int| stamps[i]@)
}

/// The line that one file contributes to a listing.
fn stamp_file(file: &CacheFile) -> (stamp: Option<CacheStamp>)
    ensures
        match stamp_of(file@) {
            Some(expected) => stamp matches Some(found) && found@ == expected,
            None => stamp is None,
        },
{
    let key = match managed_key_of(file.name.as_str()) {
        Some(key) => key,
        None => {
            return None;
        },
    };
    let text = match &file.content {
        Some(text) => text,
        None => {
            return None;
        },
    };
    match timestamp_of_entry(text.as_str()) {
        Some(timestamp) => Some(CacheStamp { key, timestamp }),
        None => None,
    }
}

/// Lists the cached keys with their capture times. Each file is read on its
/// own: one that is not managed, could not be read or is not JSON is left
/// out, and the others are still listed. A file that is JSON but states no
/// capture time is listed with time 0, as it is loaded.
pub fn list_with_timestamps(files: &Vec<CacheFile>) -> (stamps: Vec<CacheStamp>)
    ensures
        stamp_views(stamps@) == listing(file_views(files@)),
{
    let mut stamps: Vec<CacheStamp> = Vec::new();
    let mut at: usize = 0;
    while at < files.len()
        invariant
            at <= files.len(),
            stamp_views(stamps@) == listing(file_views(files@).take(at as int)),
        decreases files.len() - at,
    {
        proof {
            let upto = file_views(files@).take(at as int + 1);
            assert(upto.drop_last() =~= file_views(files@).take(at as int));
        }
        match stamp_file(&files[at]) {
            Some(stamp) => {
                stamps.push(stamp);
            },
            None => {},
        }
        at = at + 1;
    }
    assert(file_views(files@).take(at as int) =~= file_views(files@));
    stamps
}

/// A managed file that holds JSON is listed under its key, with the capture
/// time that it states, or with 0 where its `timestamp` member is missing or
/// is not an integer in the range of `i64`.
pub proof fn lemma_json_file_is_listed(key: Seq<char>, text: Seq<char>)
    requires
        key.len() > 0,
    ensures
        parsed_text(text) matches Some(doc) ==> stamp_of(
            CacheFileView { name: file_name(key), content: Some(text) },
        ) == Some(
            CacheStampView {
                key,
                timestamp: match entry_timestamp(doc) {
                    Some(stated) => stated,
                    None => 0,
                },
            },
        ),
        parsed_text(text) is None ==> stamp_of(
            CacheFileView { name: file_name(key), content: Some(text) },
        ) is None,
{
    lemma_key_of_file_name(key);
}

/// A listing has no line where no file is managed.
pub proof fn lemma_listing_without_managed(files: Seq<CacheFileView>)
    requires
        forall|i: int| 0 <= i < files.len() ==> managed_key(files[i].name) is None,
    ensures
        listing(files) == Seq::<CacheStampView>::empty(),
    decreases files.len(),
{
    if files.len() > 0 {
        let earlier = files.drop_last();
        assert forall|i: int| 0 <= i < earlier.len() implies managed_key(earlier[i].name)
            is None by {
            assert(earlier[i] == files[i]);
        }
        lemma_listing_without_managed(earlier);
    }
}

/// Every line of a listing is the line of one of the files.
pub proof fn lemma_listing_sources(files: Seq<CacheFileView>)
    ensures
        forall|j: int|
            #![trigger listing(files)[j]]
            0 <= j < listing(files).len() ==> exists|i: int|
                0 <= i < files.len() && #[trigger] stamp_of(files[i]) == Some(listing(files)[j]),
    decreases files.len(),
{
    if files.len() > 0 {
        let earlier = files.drop_last();
        lemma_listing_sources(earlier);
        assert forall|j: int| #![trigger listing(files)[j]] 0 <= j < listing(files).len()
            implies exists|i: int|
            0 <= i < files.len() && #[trigger] stamp_of(files[i]) == Some(listing(files)[j]) by {
            if j < listing(earlier).len() {
                let i = choose|i: int|
                    0 <= i < earlier.len() && #[trigger] stamp_of(earlier[i]) == Some(
                        listing(earlier)[j],
                    );
                assert(earlier[i] == files[i]);
                assert(stamp_of(files[i]) == Some(listing(files)[j]));
            } else {
                let i = files.len() - 1;
                assert(stamp_of(files[i]) == Some(listing(files)[j]));
            }
        }
    }
}

/// A listing of files with different names has no key twice, so it is a
/// mapping from keys to capture times.
pub proof fn lemma_listing_keys_distinct(files: Seq<CacheFileView>)
    requires
        forall|a: int, b: int| 0 <= a < b < files.len() ==> files[a].name != files[b].name,
    ensures
        forall|a: int, b: int|
            0 <= a < b < listing(files).len() ==> listing(files)[a].key != listing(files)[b].key,
    decreases files.len(),
{
    if files.len() > 0 {
        let earlier = files.drop_last();
        assert forall|a: int, b: int| 0 <= a < b < earlier.len() implies earlier[a].name
            != earlier[b].name by {
            assert(earlier[a] == files[a] && earlier[b] == files[b]);
        }
        lemma_listing_keys_distinct(earlier);
        lemma_listing_sources(earlier);
        assert forall|a: int, b: int| 0 <= a < b < listing(files).len() implies listing(
            files,
        )[a].key != listing(files)[b].key by {
            if b >= listing(earlier).len() {
                let last = files.last();
                let i = choose|i: int|
                    0 <= i < earlier.len() && #[trigger] stamp_of(earlier[i]) == Some(
                        listing(earlier)[a],
                    );
                assert(earlier[i] == files[i]);
                lemma_managed_name(files[i].name);
                lemma_managed_name(last.name);
            }
        }
    }
}

/// What is selected for a sweep or a listing: the names that are managed,
/// and no others.
pub proof fn lemma_managed_among(names: Seq<Seq<char>>)
    ensures
        forall|name: Seq<char>|
            #![trigger managed_among(names).contains(name)]
            #![trigger names.contains(name)]
            managed_among(names).contains(name) <==> names.contains(name) && managed_key(name)
                is Some,
    decreases names.len(),
{
    if names.len() > 0 {
        let earlier = names.drop_last();
        let last = names.last();
        let selected = managed_among(names);
        lemma_managed_among(earlier);
        assert forall|name: Seq<char>| selected.contains(name) implies names.contains(name)
            && managed_key(name) is Some by {
            let j = choose|j: int| 0 <= j < selected.len() && selected[j] == name;
            if j < managed_among(earlier).len() {
                assert(managed_among(earlier)[j] == name);
                assert(managed_among(earlier).contains(name));
                assert(earlier.contains(name));
                let i = choose|i: int| 0 <= i < earlier.len() && earlier[i] == name;
                assert(names[i] == name);
            } else {
                assert(names[names.len() - 1] == name);
            }
        }
        assert forall|name: Seq<char>|
            names.contains(name) && managed_key(name) is Some implies selected.contains(name) by {
            let i = choose|i: int| 0 <= i < names.len() && names[i] == name;
            if i < earlier.len() {
                assert(earlier[i] == name);
                assert(earlier.contains(name));
                assert(managed_among(earlier).contains(name));
                let j = choose|j: int|
                    0 <= j < managed_among(earlier).len() && managed_among(earlier)[j] == name;
                assert(selected[j] == name);
            } else {
                assert(selected[selected.len() - 1] == name);
            }
        }
    }
}

/// Every file that has a line is in the listing with that line.
pub proof fn lemma_listing_complete(files: Seq<CacheFileView>)
    ensures
        forall|i: int|
            #![trigger files[i]]
            0 <= i < files.len() && stamp_of(files[i]) is Some ==> exists|j: int|
                0 <= j < listing(files).len() && #[trigger] listing(files)[j] == stamp_of(
                    files[i],
                )->Some_0,
    decreases files.len(),
{
    if files.len() > 0 {
        let earlier = files.drop_last();
        lemma_listing_complete(earlier);
        assert forall|i: int|
            #![trigger files[i]]
            0 <= i < files.len() && stamp_of(files[i]) is Some implies exists|j: int|
            0 <= j < listing(files).len() && #[trigger] listing(files)[j] == stamp_of(
                files[i],
            )->Some_0 by {
            if i < earlier.len() {
                assert(earlier[i] == files[i]);
                let j = choose|j: int|
                    0 <= j < listing(earlier).len() && #[trigger] listing(earlier)[j]
                        == stamp_of(earlier[i])->Some_0;
                assert(listing(files)[j] == stamp_of(files[i])->Some_0);
            } else {
                let j = listing(files).len() - 1;
                assert(listing(files)[j] == stamp_of(files[i])->Some_0);
            }
        }
    }
}

} // verus!
