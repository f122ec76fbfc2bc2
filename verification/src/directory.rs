//! A cache directory as a mathematical value, and what the operations of
//! the store do to it.
//!
//! A directory is a map from file names to file texts. The functions here
//! say what a directory is after a save or a clear, and what a load or a
//! listing finds in it; the laws below them relate the operations to each
//! other.
use crate::entry::{entry_doc, lemma_written_entry_loads, reads_back, served, CacheEntryView};
use crate::files::{
    file_name, lemma_file_name_injective, lemma_key_of_file_name, lemma_managed_name, managed_key,
};
use crate::json::JsonView;
use crate::model::{FetchResultView, StoreErrorView};
use crate::store::{
    clear_plan, lemma_listing_complete, lemma_listing_sources, lemma_managed_among, listing,
    load_result, managed_among, save_plan, stamp_of, CacheFileView, CacheStampView,
    ClearPlanView,
};
use vstd::prelude::*;

verus! {

/// What reading the file `name` of the directory `dir` gives.
pub open spec fn dir_read(dir: Map<Seq<char>, Seq<char>>, name: Seq<char>) -> Option<Seq<char>> {
    if dir.contains_key(name) {
        Some(dir[name])
    } else {
        None
    }
}

/// The directory after `save` at the time `now` and the write that it asks
/// for. Where `save` fails, nothing is written.
pub open spec fn after_save(
    dir: Map<Seq<char>, Seq<char>>,
    key: Seq<char>,
    data: JsonView,
    now: i64,
) -> Map<Seq<char>, Seq<char>> {
    match save_plan(key, CacheEntryView { data, captured_at: now }) {
        Ok(request) => dir.insert(request.file_name, request.content),
        Err(_) => dir,
    }
}

/// One `save`: the key, the data and the time of the clock.
pub struct SaveView {
    pub key: Seq<char>,
    pub data: JsonView,
    pub now: i64,
}

/// The directory after a sequence of saves.
pub open spec fn after_saves(dir: Map<Seq<char>, Seq<char>>, saves: Seq<SaveView>) -> Map<
    Seq<char>,
    Seq<char>,
>
    decreases saves.len(),
{
    if saves.len() == 0 {
        dir
    } else {
        let last = saves.last();
        after_save(after_saves(dir, saves.drop_last()), last.key, last.data, last.now)
    }
}

/// What `load` returns for `key` in the directory `dir`.
pub open spec fn loaded(dir: Map<Seq<char>, Seq<char>>, key: Seq<char>) -> Result<
    Option<FetchResultView>,
    StoreErrorView,
> {
    load_result(Ok(dir_read(dir, file_name(key))))
}

/// The directory after `clear` and the removals that it asks for, where
/// every removal succeeds.
pub open spec fn after_clear(dir: Map<Seq<char>, Seq<char>>, key: Option<Seq<char>>) -> Map<
    Seq<char>,
    Seq<char>,
> {
    match clear_plan(key) {
        ClearPlanView::RemoveFile(name) => dir.remove(name),
        ClearPlanView::RemoveManaged => dir.remove_keys(
            Set::new(|name: Seq<char>| managed_key(name) is Some),
        ),
    }
}

/// The line under which the listing of the directory `dir` shows `key`.
pub open spec fn listed(dir: Map<Seq<char>, Seq<char>>, key: Seq<char>) -> Option<CacheStampView> {
    stamp_of(CacheFileView { name: file_name(key), content: dir_read(dir, file_name(key)) })
}

/// The listing of the directory `dir` as a mapping from keys to capture times.
pub open spec fn timestamps(dir: Map<Seq<char>, Seq<char>>) -> Map<Seq<char>, i64> {
    Map::new(
        |key: Seq<char>| listed(dir, key) is Some,
        |key: Seq<char>| listed(dir, key)->Some_0.timestamp,
    )
}

/// A listing agrees with loading: a key that is not empty is listed exactly
/// if loading it returns an entry, and then with the time of that entry. A
/// key whose file is missing or is not JSON is not listed.
pub proof fn lemma_listed_as_loaded(dir: Map<Seq<char>, Seq<char>>, key: Seq<char>)
    requires
        key.len() > 0,
    ensures
        match loaded(dir, key) {
            Ok(Some(entry)) => listed(dir, key) == Some(
                CacheStampView { key, timestamp: entry.timestamp },
            ),
            _ => listed(dir, key) is None,
        },
{
    lemma_key_of_file_name(key);
}

/// Saving and then loading a key returns the data saved, marked as local,
/// with the time of the save, for every entry that reads back.
pub proof fn lemma_save_then_load(
    dir: Map<Seq<char>, Seq<char>>,
    key: Seq<char>,
    data: JsonView,
    now: i64,
)
    requires
        reads_back(entry_doc(CacheEntryView { data, captured_at: now })),
    ensures
        loaded(after_save(dir, key, data, now), key) == Ok::<
            Option<FetchResultView>,
            StoreErrorView,
        >(Some(served(CacheEntryView { data, captured_at: now }))),
{
    lemma_written_entry_loads(CacheEntryView { data, captured_at: now });
}

/// After a save of a key that is not empty, the listing shows the key with
/// the time of the save, for every entry that reads back.
pub proof fn lemma_save_then_list(
    dir: Map<Seq<char>, Seq<char>>,
    key: Seq<char>,
    data: JsonView,
    now: i64,
)
    requires
        reads_back(entry_doc(CacheEntryView { data, captured_at: now })),
        key.len() > 0,
    ensures
        timestamps(after_save(dir, key, data, now)).contains_key(key),
        timestamps(after_save(dir, key, data, now))[key] == now,
{
    lemma_written_entry_loads(CacheEntryView { data, captured_at: now });
    lemma_key_of_file_name(key);
}

/// A save changes nothing of what another key loads.
pub proof fn lemma_save_keeps_other_keys(
    dir: Map<Seq<char>, Seq<char>>,
    saved: Seq<char>,
    data: JsonView,
    now: i64,
    key: Seq<char>,
)
    requires
        key != saved,
    ensures
        loaded(after_save(dir, saved, data, now), key) == loaded(dir, key),
{
    if file_name(key) == file_name(saved) {
        lemma_file_name_injective(key, saved);
    }
}

/// Loading a key that was never saved returns no entry, and no error:
/// whatever was saved under other keys into a directory that started empty.
pub proof fn lemma_load_never_saved(saves: Seq<SaveView>, key: Seq<char>)
    requires
        forall|i: int| 0 <= i < saves.len() ==> saves[i].key != key,
    ensures
        loaded(after_saves(Map::empty(), saves), key) == Ok::<
            Option<FetchResultView>,
            StoreErrorView,
        >(None),
    decreases saves.len(),
{
    if saves.len() > 0 {
        let earlier = saves.drop_last();
        assert forall|i: int| 0 <= i < earlier.len() implies earlier[i].key != key by {
            assert(earlier[i] == saves[i]);
        }
        lemma_load_never_saved(earlier, key);
        let last = saves.last();
        lemma_save_keeps_other_keys(
            after_saves(Map::empty(), earlier),
            last.key,
            last.data,
            last.now,
            key,
        );
    }
}

/// Clearing a key leaves no entry under it, and changes nothing of what
/// another key loads. Clearing it again changes nothing.
pub proof fn lemma_clear_key(dir: Map<Seq<char>, Seq<char>>, cleared: Seq<char>, key: Seq<char>)
    ensures
        loaded(after_clear(dir, Some(cleared)), cleared) == Ok::<
            Option<FetchResultView>,
            StoreErrorView,
        >(None),
        key != cleared ==> loaded(after_clear(dir, Some(cleared)), key) == loaded(dir, key),
        after_clear(after_clear(dir, Some(cleared)), Some(cleared)) == after_clear(
            dir,
            Some(cleared),
        ),
{
    if key != cleared && file_name(key) == file_name(cleared) {
        lemma_file_name_injective(key, cleared);
    }
}

/// Clearing everything leaves no managed file, and the listing that follows
/// is empty.
pub proof fn lemma_clear_all(dir: Map<Seq<char>, Seq<char>>)
    ensures
        forall|name: Seq<char>|
            managed_key(name) is Some ==> !after_clear(dir, None).contains_key(name),
        timestamps(after_clear(dir, None)) == Map::<Seq<char>, i64>::empty(),
{
    let swept = after_clear(dir, None);
    assert forall|key: Seq<char>| !timestamps(swept).contains_key(key) by {
        if managed_key(file_name(key)) is Some {
            assert(!swept.contains_key(file_name(key)));
        }
    }
    assert(timestamps(swept) =~= Map::<Seq<char>, i64>::empty());
}

/// Removing what `managed_in` selects from a listing of the whole directory
/// clears everything: the directory is then as `after_clear` says.
pub proof fn lemma_sweep_clears_all(dir: Map<Seq<char>, Seq<char>>, names: Seq<Seq<char>>)
    requires
        forall|name: Seq<char>| dir.contains_key(name) ==> names.contains(name),
    ensures
        dir.remove_keys(managed_among(names).to_set()) == after_clear(dir, None),
{
    lemma_managed_among(names);
    let swept = dir.remove_keys(managed_among(names).to_set());
    let cleared = after_clear(dir, None);
    assert forall|name: Seq<char>| swept.contains_key(name) <==> cleared.contains_key(name) by {
        if dir.contains_key(name) {
            assert(names.contains(name));
            assert(managed_among(names).to_set().contains(name) <==> managed_among(
                names,
            ).contains(name));
        }
    }
    assert(swept =~= cleared);
}

/// Whether `file` is a managed file of the directory `dir`, with its text.
pub open spec fn file_of(dir: Map<Seq<char>, Seq<char>>, file: CacheFileView) -> bool {
    dir.contains_key(file.name) && file.content == Some(dir[file.name])
}

/// The line of a file of the directory is the line under which the
/// directory's listing shows its key.
proof fn lemma_line_of_file(dir: Map<Seq<char>, Seq<char>>, file: CacheFileView)
    requires
        file_of(dir, file),
        stamp_of(file) is Some,
    ensures
        listed(dir, stamp_of(file)->Some_0.key) == stamp_of(file),
{
    lemma_managed_name(file.name);
    let key = stamp_of(file)->Some_0.key;
    assert(file == CacheFileView {
        name: file_name(key),
        content: dir_read(dir, file_name(key)),
    });
}

/// The line under which the directory's listing shows a key is the line of
/// the key's file.
proof fn lemma_file_of_key(dir: Map<Seq<char>, Seq<char>>, key: Seq<char>, file: CacheFileView)
    requires
        file_of(dir, file),
        listed(dir, key) is Some,
        file.name == file_name(key),
    ensures
        stamp_of(file) == listed(dir, key),
        listed(dir, key)->Some_0.key == key,
{
    assert(file == CacheFileView { name: file_name(key), content: dir_read(dir, file_name(key)) });
    lemma_managed_name(file.name);
    lemma_file_name_injective(listed(dir, key)->Some_0.key, key);
}

/// The listing of the files of a directory is the directory's mapping from
/// keys to capture times: where `files` holds every managed file of `dir`
/// with its text, a key has a line exactly if `timestamps(dir)` has the key,
/// and the line gives the time that `timestamps(dir)` gives.
pub proof fn lemma_listing_of_directory(dir: Map<Seq<char>, Seq<char>>, files: Seq<CacheFileView>)
    requires
        forall|i: int| 0 <= i < files.len() ==> file_of(dir, #[trigger] files[i]),
        forall|name: Seq<char>|
            #![trigger dir.contains_key(name)]
            dir.contains_key(name) && managed_key(name) is Some ==> exists|i: int|
                0 <= i < files.len() && (#[trigger] files[i]).name == name,
    ensures
        forall|key: Seq<char>|
            #![trigger timestamps(dir).contains_key(key)]
            timestamps(dir).contains_key(key) ==> exists|j: int|
                0 <= j < listing(files).len() && (#[trigger] listing(files)[j]).key == key,
        forall|j: int|
            #![trigger listing(files)[j]]
            0 <= j < listing(files).len() ==> timestamps(dir).contains_key(listing(files)[j].key)
                && timestamps(dir)[listing(files)[j].key] == listing(files)[j].timestamp,
{
    lemma_listing_sources(files);
    lemma_listing_complete(files);
    assert forall|j: int|
        #![trigger listing(files)[j]]
        0 <= j < listing(files).len() implies timestamps(dir).contains_key(listing(files)[j].key)
        && timestamps(dir)[listing(files)[j].key] == listing(files)[j].timestamp by {
        let i = choose|i: int|
            0 <= i < files.len() && #[trigger] stamp_of(files[i]) == Some(listing(files)[j]);
        assert(file_of(dir, files[i]));
        lemma_line_of_file(dir, files[i]);
    }
    assert forall|key: Seq<char>|
        #![trigger timestamps(dir).contains_key(key)]
        timestamps(dir).contains_key(key) implies exists|j: int|
        0 <= j < listing(files).len() && (#[trigger] listing(files)[j]).key == key by {
        let name = file_name(key);
        assert(dir.contains_key(name));
        let i = choose|i: int| 0 <= i < files.len() && (#[trigger] files[i]).name == name;
        assert(file_of(dir, files[i]));
        lemma_file_of_key(dir, key, files[i]);
        let j = choose|j: int|
            0 <= j < listing(files).len() && #[trigger] listing(files)[j] == stamp_of(
                files[i],
            )->Some_0;
        assert(listing(files)[j].key == key);
    }
}

} // verus!
