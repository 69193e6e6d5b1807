//! The list of library folders, as it is kept in a JSON document.
//!
//! The document is read and written by serde_json, behind small trusted
//! functions. Where the document comes from and where it goes is outside
//! this library: it is handed over as text, and the text to store is handed
//! back.

use crate::text::{holds, text_equals};
use vstd::prelude::*;

verus! {

#[verifier::external_type_specification]
#[verifier::external_body]
pub struct ExJsonError(serde_json::Error);

/// The list of texts that a JSON document holds, as `serde_json::from_str`
/// reads it; none where the document is not a list of texts.
pub uninterp spec fn json_list(document: Seq<char>) -> Option<Seq<Seq<char>>>;

/// The indented JSON document that `serde_json::to_string_pretty` writes for
/// a list of texts; none where it reports an error.
pub uninterp spec fn pretty_json(list: Seq<Seq<char>>) -> Option<Seq<char>>;

/// Why a list of folders could not be read or written.
#[derive(Clone, Debug, PartialEq, Eq)]
pub enum StoreError {
    /// The stored document is not a list of texts. Holds the reader's
    /// message.
    Malformed(String),
    /// The list could not be turned into a document. Holds the writer's
    /// message.
    Unwritable(String),
}

/// The outcome of a change to the list of folders.
#[derive(Clone, Debug, PartialEq, Eq)]
pub struct FolderUpdate {
    /// The folders after the change.
    pub folders: Vec<String>,
    /// The document to store; none where the stored one is to stay.
    pub document: Option<String>,
}

/// Calls `serde_json::from_str` for a list of texts. The contract only names
/// the result: the same document always reads as the same list, or always
/// fails.
#[verifier::external_body]
fn read_list(document: &str) -> (list: Result<Vec<String>, serde_json::Error>)
    ensures
        match list {
            Ok(list) => json_list(document@) == Some(list.deep_view()),
            Err(_) => json_list(document@) is None,
        },
{
    serde_json::from_str(document)
}

/// Calls `serde_json::to_string_pretty` on a list of texts. The contract
/// only names the result.
#[verifier::external_body]
fn write_list(list: &Vec<String>) -> (document: Result<String, serde_json::Error>)
    ensures
        match document {
            Ok(document) => pretty_json(list.deep_view()) == Some(document@),
            Err(_) => pretty_json(list.deep_view()) is None,
        },
{
    serde_json::to_string_pretty(list)
}

/// The message of a serde_json error, as its `Display` writes it.
#[verifier::external_body]
fn message_of(error: &serde_json::Error) -> (message: String) {
    error.to_string()
}

/// The folders that a stored document is taken to hold when it is about to
/// be changed: none where nothing is stored or the document is malformed.
pub open spec fn stored_folders(stored: Option<Seq<char>>) -> Seq<Seq<char>> {
    match stored {
        Some(document) => match json_list(document) {
            Some(list) => list,
            None => Seq::empty(),
        },
        None => Seq::empty(),
    }
}

/// The list without every occurrence of `folder`, the others in their order.
pub open spec fn without(list: Seq<Seq<char>>, folder: Seq<char>) -> Seq<Seq<char>>
    decreases list.len(),
{
    if list.len() == 0 {
        Seq::empty()
    } else if list.last() == folder {
        without(list.drop_last(), folder)
    } else {
        without(list.drop_last(), folder).push(list.last())
    }
}

/// The folders of a stored document that is about to be changed.
fn lenient(stored: Option<&str>) -> (list: Vec<String>)
    ensures
        list.deep_view() == stored_folders(stored.deep_view()),
{
    match stored {
        Some(document) => match read_list(document) {
            Ok(list) => list,
            Err(_) => {
                let empty: Vec<String> = Vec::new();
                assert(empty.deep_view() =~= Seq::<Seq<char>>::empty());
                empty
            },
        },
        None => {
            let empty: Vec<String> = Vec::new();
            assert(empty.deep_view() =~= Seq::<Seq<char>>::empty());
            empty
        },
    }
}

/// The library folders that are stored: none where nothing is stored yet.
/// A stored document that is not a list of texts is an error.
pub fn get_library_folders(stored: Option<&str>) -> (folders: Result<Vec<String>, StoreError>)
    ensures
        stored is None ==> folders is Ok && folders->Ok_0.deep_view() == Seq::<
            Seq<char>,
        >::empty(),
        stored is Some ==> match json_list(stored->0@) {
            Some(list) => folders is Ok && folders->Ok_0.deep_view() == list,
            None => folders is Err && folders->Err_0 is Malformed,
        },
{
    match stored {
        Some(document) => match read_list(document) {
            Ok(list) => Ok(list),
            Err(error) => Err(StoreError::Malformed(message_of(&error))),
        },
        None => {
            let empty: Vec<String> = Vec::new();
            assert(empty.deep_view() =~= Seq::<Seq<char>>::empty());
            Ok(empty)
        },
    }
}

/// Adds a folder to the stored list unless the list holds it already. The
/// folder goes to the end, and the document to store is handed back. A list
/// that holds the folder stays as it is, and nothing is to be stored.
///
/// A malformed stored document counts as an empty list.
pub fn add_library_folder(stored: Option<&str>, folder: String) -> (update: Result<
    FolderUpdate,
    StoreError,
>)
    ensures
        ({
            let before = stored_folders(stored.deep_view());
            if before.contains(folder@) {
                &&& update is Ok
                &&& update->Ok_0.folders.deep_view() == before
                &&& update->Ok_0.document is None
            } else {
                match pretty_json(before.push(folder@)) {
                    Some(document) => {
                        &&& update is Ok
                        &&& update->Ok_0.folders.deep_view() == before.push(folder@)
                        &&& update->Ok_0.document.deep_view() == Some(document)
                    },
                    None => update is Err && update->Err_0 is Unwritable,
                }
            }
        }),
{
    let mut folders = lenient(stored);
    if holds(&folders, folder.as_str()) {
        return Ok(FolderUpdate { folders, document: None });
    }
    let ghost before = folders.deep_view();
    folders.push(folder);
    assert(folders.deep_view() =~= before.push(folder@));
    match write_list(&folders) {
        Ok(document) => Ok(FolderUpdate { folders, document: Some(document) }),
        Err(error) => Err(StoreError::Unwritable(message_of(&error))),
    }
}

/// Removes a folder from the stored list, wherever the list holds it, and
/// hands back the document to store. Where nothing is stored yet, the list
/// is empty and nothing is to be stored.
///
/// A malformed stored document counts as an empty list.
pub fn remove_library_folder(stored: Option<&str>, folder: &str) -> (update: Result<
    FolderUpdate,
    StoreError,
>)
    ensures
        stored is None ==> update is Ok && update->Ok_0.folders.deep_view() == Seq::<
            Seq<char>,
        >::empty() && update->Ok_0.document is None,
        stored is Some ==> ({
            let after = without(stored_folders(stored.deep_view()), folder@);
            match pretty_json(after) {
                Some(document) => {
                    &&& update is Ok
                    &&& update->Ok_0.folders.deep_view() == after
                    &&& update->Ok_0.document.deep_view() == Some(document)
                },
                None => update is Err && update->Err_0 is Unwritable,
            }
        }),
{
    if stored.is_none() {
        let empty: Vec<String> = Vec::new();
        assert(empty.deep_view() =~= Seq::<Seq<char>>::empty());
        return Ok(FolderUpdate { folders: empty, document: None });
    }
    let before = lenient(stored);
    let mut folders: Vec<String> = Vec::new();
    let mut i: usize = 0;
    assert(before.deep_view().take(0) =~= Seq::<Seq<char>>::empty());
    assert(folders.deep_view() =~= Seq::<Seq<char>>::empty());
    while i < before.len()
        invariant
            i <= before.len(),
            folders.deep_view() == without(before.deep_view().take(i as int), folder@),
        decreases before.len() - i,
    {
        let ghost kept = folders.deep_view();
        proof {
            assert(before.deep_view().take(i + 1).drop_last() =~= before.deep_view().take(
                i as int,
            ));
            assert(before.deep_view().take(i + 1).last() == before@[i as int]@);
        }
        if !text_equals(before[i].as_str(), folder) {
            folders.push(before[i].clone());
            assert(folders.deep_view() =~= kept.push(before@[i as int]@));
        }
        i += 1;
    }
    assert(before.deep_view().take(before.len() as int) =~= before.deep_view());
    match write_list(&folders) {
        Ok(document) => Ok(FolderUpdate { folders, document: Some(document) }),
        Err(error) => Err(StoreError::Unwritable(message_of(&error))),
    }
}

/// A removed folder is gone from the list, and every other folder that the
/// list held is still there.
pub proof fn lemma_without_removes_exactly(
    list: Seq<Seq<char>>,
    folder: Seq<char>,
    other: Seq<char>,
)
    ensures
        !without(list, folder).contains(folder),
        other != folder ==> (without(list, folder).contains(other) <==> list.contains(other)),
        without(list, folder).len() <= list.len(),
    decreases list.len(),
{
    if list.len() > 0 {
        let rest = list.drop_last();
        lemma_without_removes_exactly(rest, folder, other);
        let kept = without(rest, folder);
        assert(list =~= rest.push(list.last()));
        if list.last() != folder {
            assert(without(list, folder) == kept.push(list.last()));
            assert forall|x: Seq<char>| kept.push(list.last()).contains(x) <==> (kept.contains(x)
                || x == list.last()) by {
                if kept.contains(x) {
                    let k = choose|k: int| 0 <= k < kept.len() && kept[k] == x;
                    assert(kept.push(list.last())[k] == x);
                }
                if x == list.last() {
                    assert(kept.push(list.last())[kept.len() as int] == x);
                }
            }
        }
        assert forall|x: Seq<char>|
            list.contains(x) <==> (rest.contains(x) || x == list.last()) by {
            if rest.contains(x) {
                let k = choose|k: int| 0 <= k < rest.len() && rest[k] == x;
                assert(list[k] == x);
            }
            if x == list.last() {
                assert(list[list.len() - 1] == x);
            }
            if list.contains(x) {
                let k = choose|k: int| 0 <= k < list.len() && list[k] == x;
                if k < rest.len() {
                    assert(rest[k] == x);
                }
            }
        }
    }
}

} // verus!
