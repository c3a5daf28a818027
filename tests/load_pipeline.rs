use parcel::load::{load, LoadError, StoredDocument};
use parcel::migrate::{is_known_color_tag, migrate_data};
use parcel::model::{Folder, Note, ParcelData};
use parcel::validate::{check_folder, validate_data, ValidationError};

fn note(id: &str, color: &str) -> Note {
    Note {
        id: id.to_string(),
        title: "t".to_string(),
        body: "b".to_string(),
        folder_id: None,
        pinned: false,
        color: color.to_string(),
        created_at: 1,
        updated_at: 2,
    }
}

fn folder(id: &str, name: &str) -> Folder {
    Folder { id: id.to_string(), name: name.to_string(), created_at: 3, updated_at: 4 }
}

fn doc(version: u32, notes: Vec<Note>, folders: Vec<Folder>) -> ParcelData {
    ParcelData { version, notes, folders }
}

#[test]
fn first_run_gives_empty_document() {
    let r = load(StoredDocument::Missing).unwrap();
    assert_eq!(r, doc(1, vec![], vec![]));
}

#[test]
fn valid_current_document_loads_unchanged() {
    let p = doc(
        1,
        vec![note("n1", "mint"), note("n2", "sky")],
        vec![folder("f1", "Work"), folder("f2", "Home")],
    );
    let r = load(StoredDocument::Parsed(p.clone())).unwrap();
    assert_eq!(r, p);
}

#[test]
fn unknown_color_is_repaired_at_version_one() {
    let p = doc(1, vec![note("n1", "neon"), note("n2", "yellow")], vec![]);
    let r = load(StoredDocument::Parsed(p)).unwrap();
    assert_eq!(r.notes[0].color, "paper");
    assert_eq!(r.notes[0].id, "n1");
    assert_eq!(r.notes[0].body, "b");
    assert_eq!(r.notes[1].color, "yellow");
    assert_eq!(r.version, 1);
}

#[test]
fn unknown_color_is_repaired_at_later_version() {
    let p = doc(5, vec![note("n1", "neon")], vec![]);
    let r = load(StoredDocument::Parsed(p)).unwrap();
    assert_eq!(r.notes[0].color, "paper");
    assert_eq!(r.version, 5);
}

#[test]
fn version_zero_is_rejected() {
    let p = doc(0, vec![], vec![]);
    assert_eq!(
        load(StoredDocument::Parsed(p)),
        Err(LoadError::Invalid(ValidationError::InvalidVersion(0)))
    );
}

#[test]
fn version_eleven_is_rejected() {
    let p = doc(11, vec![], vec![]);
    assert_eq!(
        load(StoredDocument::Parsed(p)),
        Err(LoadError::Invalid(ValidationError::InvalidVersion(11)))
    );
}

#[test]
fn version_ten_is_accepted() {
    let p = doc(10, vec![], vec![]);
    assert_eq!(load(StoredDocument::Parsed(p)).unwrap().version, 10);
}

#[test]
fn empty_note_id_cites_index() {
    let p = doc(1, vec![note("a", "paper"), note("", "paper"), note("", "paper")], vec![]);
    assert_eq!(
        load(StoredDocument::Parsed(p)),
        Err(LoadError::Invalid(ValidationError::NoteEmptyId(1)))
    );
}

#[test]
fn empty_folder_id_cites_index() {
    let p = doc(1, vec![], vec![folder("f1", "Work"), folder("", "Home")]);
    assert_eq!(
        load(StoredDocument::Parsed(p)),
        Err(LoadError::Invalid(ValidationError::FolderEmptyId(1)))
    );
}

#[test]
fn blank_folder_name_is_rejected() {
    let p = doc(1, vec![], vec![folder("f1", " \t\n ")]);
    assert_eq!(
        load(StoredDocument::Parsed(p)),
        Err(LoadError::Invalid(ValidationError::FolderEmptyName(0)))
    );
}

#[test]
fn padded_folder_name_is_accepted() {
    let p = doc(1, vec![], vec![folder("f1", "  x ")]);
    assert_eq!(validate_data(&p), Ok(()));
}

#[test]
fn note_defect_is_reported_before_folder_defect() {
    let p = doc(1, vec![note("", "paper")], vec![folder("", "")]);
    assert_eq!(validate_data(&p), Err(ValidationError::NoteEmptyId(0)));
}

#[test]
fn folder_id_is_checked_before_name() {
    assert_eq!(check_folder(4, &folder("", ""), ""), Err(ValidationError::FolderEmptyId(4)));
    assert_eq!(check_folder(2, &folder("f", " "), ""), Err(ValidationError::FolderEmptyName(2)));
    assert_eq!(check_folder(2, &folder("f", "a"), "a"), Ok(()));
}

#[test]
fn unparsable_text_is_reported_as_corrupt() {
    let r = load(StoredDocument::Unparsable("expected value".to_string()));
    assert_eq!(r, Err(LoadError::Corrupt("expected value".to_string())));
}

#[test]
fn loading_twice_changes_nothing() {
    let p = doc(3, vec![note("n1", "neon"), note("n2", "lavender")], vec![folder("f", "F")]);
    let once = load(StoredDocument::Parsed(p)).unwrap();
    let twice = load(StoredDocument::Parsed(once.clone())).unwrap();
    assert_eq!(once, twice);
}

#[test]
fn migration_raises_old_version() {
    let p = doc(0, vec![note("n1", "Paper")], vec![]);
    let r = migrate_data(p);
    assert_eq!(r.version, 1);
    assert_eq!(r.notes[0].color, "paper");
}

#[test]
fn migrating_twice_changes_nothing() {
    let p = doc(0, vec![note("n1", "neon"), note("n2", "salmon")], vec![]);
    let once = migrate_data(p);
    let twice = migrate_data(once.clone());
    assert_eq!(once, twice);
}

#[test]
fn known_colors() {
    for c in ["paper", "yellow", "mint", "lavender", "salmon", "sky"] {
        assert!(is_known_color_tag(c));
    }
    for c in ["neon", "", "Sky", "paper "] {
        assert!(!is_known_color_tag(c));
    }
}
