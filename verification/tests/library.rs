use vi_music::library::{
    add_library_folder, get_library_folders, remove_library_folder, FolderUpdate, StoreError,
};
use vi_music::text::holds;

fn texts(list: &[&str]) -> Vec<String> {
    list.iter().map(|s| s.to_string()).collect()
}

#[test]
fn nothing_stored_means_no_folders() {
    assert_eq!(get_library_folders(None), Ok(vec![]));
}

#[test]
fn stored_folders_are_read_in_order() {
    assert_eq!(
        get_library_folders(Some("[\"/music\", \"/more music\"]")),
        Ok(texts(&["/music", "/more music"]))
    );
    assert_eq!(get_library_folders(Some("  [ ]\n")), Ok(vec![]));
    assert_eq!(
        get_library_folders(Some("[\"tab\\there\", \"\\u00e9t\\u00e9\"]")),
        Ok(texts(&["tab\there", "été"]))
    );
}

#[test]
fn malformed_store_is_an_error_when_read() {
    for document in ["", "{", "[\"a\"", "[1, 2]", "{\"a\": \"b\"}", "\"a\"", "[\"a\"] x", "null"] {
        match get_library_folders(Some(document)) {
            Err(StoreError::Malformed(message)) => assert!(!message.is_empty()),
            other => panic!("{:?} read as {:?}", document, other),
        }
    }
}

#[test]
fn first_folder_is_added_to_an_empty_list() {
    assert_eq!(
        add_library_folder(None, "/music".to_string()),
        Ok(FolderUpdate {
            folders: texts(&["/music"]),
            document: Some("[\n  \"/music\"\n]".to_string()),
        })
    );
}

#[test]
fn new_folder_goes_to_the_end() {
    assert_eq!(
        add_library_folder(Some("[\"/a\",\"/b\"]"), "/c".to_string()),
        Ok(FolderUpdate {
            folders: texts(&["/a", "/b", "/c"]),
            document: Some("[\n  \"/a\",\n  \"/b\",\n  \"/c\"\n]".to_string()),
        })
    );
}

#[test]
fn known_folder_is_not_added_again() {
    assert_eq!(
        add_library_folder(Some("[\"/a\",\"/b\"]"), "/a".to_string()),
        Ok(FolderUpdate { folders: texts(&["/a", "/b"]), document: None })
    );
}

#[test]
fn folder_names_are_compared_exactly() {
    let update = add_library_folder(Some("[\"/a\"]"), "/A".to_string()).unwrap();
    assert_eq!(update.folders, texts(&["/a", "/A"]));
    let update = add_library_folder(Some("[\"/a\"]"), "/a/".to_string()).unwrap();
    assert_eq!(update.folders, texts(&["/a", "/a/"]));
}

#[test]
fn malformed_store_counts_as_empty_when_changed() {
    assert_eq!(
        add_library_folder(Some("not json"), "/music".to_string()),
        Ok(FolderUpdate {
            folders: texts(&["/music"]),
            document: Some("[\n  \"/music\"\n]".to_string()),
        })
    );
    assert_eq!(
        remove_library_folder(Some("{}"), "/music"),
        Ok(FolderUpdate { folders: vec![], document: Some("[]".to_string()) })
    );
}

#[test]
fn written_document_reads_back() {
    let update = add_library_folder(Some("[\"/a \\\"quoted\\\"\"]"), "/b\\c".to_string()).unwrap();
    let document = update.document.unwrap();
    assert_eq!(get_library_folders(Some(&document)), Ok(update.folders));
}

#[test]
fn removing_without_store_gives_nothing_to_store() {
    assert_eq!(
        remove_library_folder(None, "/music"),
        Ok(FolderUpdate { folders: vec![], document: None })
    );
}

#[test]
fn folder_is_removed_wherever_it_stands() {
    assert_eq!(
        remove_library_folder(Some("[\"/a\",\"/b\",\"/a\",\"/c\",\"/a\"]"), "/a"),
        Ok(FolderUpdate {
            folders: texts(&["/b", "/c"]),
            document: Some("[\n  \"/b\",\n  \"/c\"\n]".to_string()),
        })
    );
}

#[test]
fn removing_an_unknown_folder_rewrites_the_list() {
    assert_eq!(
        remove_library_folder(Some("[\"/a\",\"/b\"]"), "/z"),
        Ok(FolderUpdate {
            folders: texts(&["/a", "/b"]),
            document: Some("[\n  \"/a\",\n  \"/b\"\n]".to_string()),
        })
    );
}

#[test]
fn removing_the_last_folder_leaves_an_empty_list() {
    assert_eq!(
        remove_library_folder(Some("[\"/a\"]"), "/a"),
        Ok(FolderUpdate { folders: vec![], document: Some("[]".to_string()) })
    );
}

#[test]
fn holds_looks_for_the_exact_text() {
    let list = texts(&["/a", "/b c", ""]);
    assert!(holds(&list, "/a"));
    assert!(holds(&list, "/b c"));
    assert!(holds(&list, ""));
    assert!(!holds(&list, "/b"));
    assert!(!holds(&list, "/A"));
    assert!(!holds(&vec![], "/a"));
}
