use presentations::folder::{folder_files, folder_plan, FolderPart};
use presentations::server::EntryKind;
use presentations::watcher::{after_request, after_rescan};

fn strings(v: &[&str]) -> Vec<String> {
    v.iter().map(|s| s.to_string()).collect()
}

#[test]
fn folder_entries_in_name_order_without_skipped_ones() {
    let plan = folder_plan(strings(&["b.png", ".hidden.png", "a.pdf", "notes.txt", "C.PPTX", "d.ppt"]));
    assert_eq!(
        plan,
        vec![
            ("C.PPTX".to_string(), EntryKind::Pptx),
            ("a.pdf".to_string(), EntryKind::Pdf),
            ("b.png".to_string(), EntryKind::Media),
            ("d.ppt".to_string(), EntryKind::Ppt),
        ]
    );
}

#[test]
fn each_file_shown_once_in_the_order_found() {
    let parts = vec![
        FolderPart::Generated(strings(&["deck_1.svg", "deck_2.svg"])),
        FolderPart::Media("deck_1.svg".to_string()),
        FolderPart::Media("photo.png".to_string()),
        FolderPart::Generated(strings(&["photo.png", "more_1.svg"])),
    ];
    assert_eq!(
        folder_files(&parts),
        strings(&["deck_1.svg", "deck_2.svg", "photo.png", "more_1.svg"])
    );
    assert_eq!(folder_files(&Vec::new()), Vec::<String>::new());
}

#[test]
fn stored_version_follows_the_files() {
    assert_eq!(after_rescan("a1", "b2".to_string()), ("b2".to_string(), true));
    assert_eq!(after_rescan("b2", "b2".to_string()), ("b2".to_string(), false));
    assert_eq!(after_request("", "b2".to_string()), ("b2".to_string(), false));
    assert_eq!(after_request("a1", "b2".to_string()), ("b2".to_string(), true));
}
