use parcel::markdown::{export_markdown, push_decimal};
use parcel::model::{Folder, Note, ParcelData};

fn note(id: &str, folder_id: Option<&str>, title: &str, body: &str, color: &str, pinned: bool) -> Note {
    Note {
        id: id.to_string(),
        title: title.to_string(),
        body: body.to_string(),
        folder_id: folder_id.map(|s| s.to_string()),
        pinned,
        color: color.to_string(),
        created_at: 0,
        updated_at: 0,
    }
}

fn folder(id: &str, name: &str) -> Folder {
    Folder { id: id.to_string(), name: name.to_string(), created_at: 0, updated_at: 0 }
}

#[test]
fn grouping_by_folder_then_unfiled() {
    let p = ParcelData {
        version: 1,
        folders: vec![folder("f1", "Work")],
        notes: vec![
            note("n1", Some("f1"), "A", "", "paper", false),
            note("n2", None, "B", "x", "sky", true),
        ],
    };
    let expected = "# Parcel Notes Export\n\n\
*Total notes: 2*\n\
*Total folders: 1*\n\n\
## Folder: Work\n\n\
### A\n\n\
*Color: paper | Pinned: false*\n\n\
## Notes (No Folder)\n\n\
### B\n\n\
x\n\n\
*Color: sky | Pinned: true*\n\n";
    assert_eq!(export_markdown(&p), expected);
}

#[test]
fn orphan_note_is_left_out() {
    let p = ParcelData {
        version: 1,
        folders: vec![folder("f1", "Work")],
        notes: vec![
            note("n1", Some("gone"), "Orphan", "hidden", "mint", false),
            note("n2", Some("f1"), "Kept", "", "paper", false),
        ],
    };
    let md = export_markdown(&p);
    assert!(!md.contains("Orphan"));
    assert!(!md.contains("hidden"));
    assert!(!md.contains("No Folder"));
    assert!(md.contains("### Kept"));
    assert!(md.contains("*Total notes: 2*"));
}

#[test]
fn empty_document_has_header_only() {
    let p = ParcelData { version: 1, folders: vec![], notes: vec![] };
    assert_eq!(
        export_markdown(&p),
        "# Parcel Notes Export\n\n*Total notes: 0*\n*Total folders: 0*\n\n"
    );
}

#[test]
fn empty_title_shows_untitled_and_folders_keep_order() {
    let p = ParcelData {
        version: 1,
        folders: vec![folder("b", "Second"), folder("a", "First")],
        notes: vec![
            note("1", Some("a"), "", "", "mint", false),
            note("2", Some("b"), "Two", "", "mint", true),
            note("3", Some("a"), "Three", "", "mint", false),
        ],
    };
    let md = export_markdown(&p);
    let expected_sections = "## Folder: Second\n\n\
### Two\n\n*Color: mint | Pinned: true*\n\n\
## Folder: First\n\n\
### Untitled\n\n*Color: mint | Pinned: false*\n\n\
### Three\n\n*Color: mint | Pinned: false*\n\n";
    assert!(md.ends_with(expected_sections));
}

#[test]
fn empty_folder_still_gets_heading() {
    let p = ParcelData { version: 1, folders: vec![folder("f", "Empty")], notes: vec![] };
    assert!(export_markdown(&p).ends_with("## Folder: Empty\n\n"));
}

#[test]
fn counts_of_several_digits() {
    let notes: Vec<Note> =
        (0..12).map(|i| note(&format!("n{i}"), Some("x"), "t", "", "paper", false)).collect();
    let p = ParcelData { version: 1, folders: vec![], notes };
    assert!(export_markdown(&p).contains("*Total notes: 12*\n*Total folders: 0*"));
}

#[test]
fn decimal_digits() {
    for n in [0usize, 7, 10, 305, 123456789, usize::MAX] {
        let mut s = String::from("#");
        push_decimal(&mut s, n);
        assert_eq!(s, format!("#{n}"));
    }
}
