//! Names of cache files: one file per key, named by the key and the
//! extension `json`.
use crate::model::text_view;
use vstd::prelude::*;
use vstd::string::*;

verus! {

/// The extension of every managed file, without the dot.
pub open spec fn managed_extension() -> Seq<char> {
    seq!['j', 's', 'o', 'n']
}

/// The name of the file that holds the entry of `key`.
pub open spec fn file_name(key: Seq<char>) -> Seq<char> {
    key + seq!['.'] + managed_extension()
}

/// The position of the last dot in `name`, or -1 where it has none.
pub open spec fn last_dot(name: Seq<char>) -> int
    decreases name.len(),
{
    if name.len() == 0 {
        -1
    } else if name.last() == '.' {
        name.len() - 1
    } else {
        last_dot(name.drop_last())
    }
}

/// The extension of a file name: what follows its last dot. A name without a
/// dot has none, and neither has a name whose only dot comes first.
pub open spec fn extension_of(name: Seq<char>) -> Option<Seq<char>> {
    let dot = last_dot(name);
    if dot <= 0 {
        None
    } else {
        Some(name.subrange(dot + 1, name.len() as int))
    }
}

/// The stem of a file name: what precedes the dot of its extension, or the
/// whole name where it has no extension.
pub open spec fn stem_of(name: Seq<char>) -> Seq<char> {
    let dot = last_dot(name);
    if dot <= 0 {
        name
    } else {
        name.subrange(0, dot)
    }
}

/// The key whose entry a file of this name holds; `None` for a file that the
/// cache does not manage.
pub open spec fn managed_key(name: Seq<char>) -> Option<Seq<char>> {
    if extension_of(name) == Some(managed_extension()) {
        Some(stem_of(name))
    } else {
        None
    }
}

/// `last_dot` gives a position of a dot after which no dot follows, or -1
/// for a name without dots.
pub proof fn lemma_last_dot(name: Seq<char>)
    ensures
        -1 <= last_dot(name) < name.len(),
        last_dot(name) >= 0 ==> name[last_dot(name)] == '.',
        forall|j: int| last_dot(name) < j < name.len() ==> name[j] != '.',
    decreases name.len(),
{
    if name.len() > 0 && name.last() != '.' {
        lemma_last_dot(name.drop_last());
        assert forall|j: int| last_dot(name) < j < name.len() implies name[j] != '.' by {
            if j < name.len() - 1 {
                assert(name.drop_last()[j] == name[j]);
            }
        }
    }
}

/// A dot after which no dot follows is the last dot.
pub proof fn lemma_last_dot_at(name: Seq<char>, dot: int)
    requires
        0 <= dot < name.len(),
        name[dot] == '.',
        forall|j: int| dot < j < name.len() ==> name[j] != '.',
    ensures
        last_dot(name) == dot,
    decreases name.len(),
{
    if name.last() != '.' {
        let shorter = name.drop_last();
        assert forall|j: int| dot < j < shorter.len() implies shorter[j] != '.' by {
            assert(shorter[j] == name[j]);
        }
        lemma_last_dot_at(shorter, dot);
    }
}

/// A name without dots has no last dot.
pub proof fn lemma_no_dot(name: Seq<char>)
    requires
        forall|j: int| 0 <= j < name.len() ==> name[j] != '.',
    ensures
        last_dot(name) == -1,
    decreases name.len(),
{
    if name.len() > 0 {
        let shorter = name.drop_last();
        assert forall|j: int| 0 <= j < shorter.len() implies shorter[j] != '.' by {
            assert(shorter[j] == name[j]);
        }
        lemma_no_dot(shorter);
    }
}

/// Different keys have different files.
pub proof fn lemma_file_name_injective(first: Seq<char>, second: Seq<char>)
    requires
        file_name(first) == file_name(second),
    ensures
        first == second,
{
    assert(file_name(first).len() == first.len() + 5);
    assert(file_name(second).len() == second.len() + 5);
    assert forall|i: int| 0 <= i < first.len() implies first[i] == second[i] by {
        assert(file_name(first)[i] == first[i]);
        assert(file_name(second)[i] == second[i]);
    }
    assert(first =~= second);
}

/// The file of a key that is not empty is managed, and its key is read back
/// from its name.
pub proof fn lemma_key_of_file_name(key: Seq<char>)
    requires
        key.len() > 0,
    ensures
        managed_key(file_name(key)) == Some(key),
{
    let name = file_name(key);
    let dot = key.len() as int;
    lemma_last_dot_at(name, dot);
    assert(name.subrange(dot + 1, name.len() as int) =~= managed_extension());
}

/// The file of the empty key begins with its only dot, so it has no
/// extension and is not managed.
pub proof fn lemma_empty_key_unmanaged()
    ensures
        managed_key(file_name(Seq::<char>::empty())) is None,
{
    let name = file_name(Seq::<char>::empty());
    lemma_last_dot_at(name, 0);
}

/// A managed file is the file of its key, and its key is not empty.
pub proof fn lemma_managed_name(name: Seq<char>)
    requires
        managed_key(name) is Some,
    ensures
        managed_key(name)->Some_0.len() > 0,
        name == file_name(managed_key(name)->Some_0),
{
    lemma_last_dot(name);
    let dot = last_dot(name);
    let key = name.subrange(0, dot);
    let extension = name.subrange(dot + 1, name.len() as int);
    assert forall|i: int| 0 <= i < name.len() implies name[i] == file_name(key)[i] by {
        if i < dot {
            assert(key[i] == name[i]);
        } else if i > dot {
            assert(extension[i - dot - 1] == name[i]);
        }
    }
    assert(name =~= file_name(key));
}

/// The name of the file that holds the entry of `key`.
pub fn file_name_for(key: &str) -> (name: String)
    ensures
        name@ == file_name(key@),
{
    proof {
        reveal_strlit(".json");
    }
    let mut name = String::from_str(key);
    name.append(".json");
    name
}

/// Finds the last dot of `name`, as a position among its characters.
fn find_last_dot(name: &str) -> (found: Option<usize>)
    ensures
        found matches Some(dot) ==> dot == last_dot(name@),
        found is None ==> last_dot(name@) == -1,
{
    let length = name.unicode_len();
    let mut at: usize = length;
    while at > 0
        invariant
            at <= length,
            length == name@.len(),
            forall|j: int| at <= j < length ==> name@[j] != '.',
        decreases at,
    {
        at = at - 1;
        if name.get_char(at) == '.' {
            proof {
                lemma_last_dot_at(name@, at as int);
            }
            return Some(at);
        }
    }
    proof {
        lemma_no_dot(name@);
    }
    None
}

/// The key whose entry a file of this name holds; `None` for a file that the
/// cache does not manage.
pub fn managed_key_of(name: &str) -> (key: Option<String>)
    ensures
        text_view(key) == managed_key(name@),
{
    let length = name.unicode_len();
    proof {
        lemma_last_dot(name@);
    }
    match find_last_dot(name) {
        None => None,
        Some(dot) => {
            if dot == 0 {
                return None;
            }
            let extension = name.substring_char(dot + 1, length);
            if is_managed_extension(extension) {
                Some(String::from_str(name.substring_char(0, dot)))
            } else {
                None
            }
        },
    }
}

/// Whether `extension` is the extension of the managed files.
fn is_managed_extension(extension: &str) -> (yes: bool)
    ensures
        yes == (extension@ == managed_extension()),
{
    let matches = extension.unicode_len() == 4 && extension.get_char(0) == 'j'
        && extension.get_char(1) == 's' && extension.get_char(2) == 'o' && extension.get_char(3)
        == 'n';
    assert(matches ==> extension@ =~= managed_extension());
    matches
}

} // verus!
