use vstd::prelude::*;
use crate::migrate::{
    lemma_migration_idempotent, lemma_migration_keeps_current, lemma_migration_keeps_valid,
    migrate_data, migrated, repaired_note,
};
use crate::model::{
    default_color, empty_parcel, is_known_color, FolderModel, NoteModel, ParcelData, ParcelModel, CURRENT_VERSION,
};
use crate::validate::{
    folder_issue_from, is_valid, note_issue_from, trimmed, validate_data, validation,
    version_in_range, ValidationError,
};

verus! {

/// What was found where the document is stored.
#[derive(Clone, Debug, PartialEq, Eq)]
pub enum StoredDocument {
    /// No document is stored yet: the first run.
    Missing,
    /// A document is stored but could not be parsed; holds the parser's message.
    Unparsable(String),
    /// The stored document, as parsed.
    Parsed(ParcelData),
}

/// Why a stored document could not be loaded.
#[derive(Clone, Debug, PartialEq, Eq)]
pub enum LoadError {
    /// The stored text is not a document; the file may be corrupt.
    Corrupt(String),
    /// The stored document breaks a structural rule.
    Invalid(ValidationError),
    /// The document broke a structural rule only after migration, which
    /// would be a defect of migration itself.
    Inconsistent(ValidationError),
}

/// The outcome of a load, with the document seen through its model.
pub open spec fn outcome_view(r: Result<ParcelData, LoadError>) -> Result<ParcelModel, LoadError> {
    match r {
        Ok(d) => Ok(d@),
        Err(e) => Err(e),
    }
}

/// What loading makes of what was stored: a fresh document on the first
/// run, the parser's complaint for unparsable text, the first structural
/// defect of an invalid document, and otherwise the migrated document.
pub open spec fn load_spec(stored: StoredDocument) -> Result<ParcelModel, LoadError> {
    match stored {
        StoredDocument::Missing => Ok(empty_parcel()),
        StoredDocument::Unparsable(m) => Err(LoadError::Corrupt(m)),
        StoredDocument::Parsed(d) => match validation(d@) {
            Err(e) => Err(LoadError::Invalid(e)),
            Ok(_) => Ok(migrated(d@)),
        },
    }
}

/// Runs the load pipeline on what was stored: validate, migrate, validate again.
pub fn load(stored: StoredDocument) -> (r: Result<ParcelData, LoadError>)
    ensures
        outcome_view(r) == load_spec(stored),
{
    match stored {
        StoredDocument::Missing => Ok(ParcelData::empty()),
        StoredDocument::Unparsable(m) => Err(LoadError::Corrupt(m)),
        StoredDocument::Parsed(data) => {
            let ghost before = data@;
            if let Err(e) = validate_data(&data) {
                return Err(LoadError::Invalid(e));
            }
            let data = migrate_data(data);
            proof {
                lemma_migration_keeps_valid(before);
            }
            match validate_data(&data) {
                Err(e) => Err(LoadError::Inconsistent(e)),
                Ok(()) => Ok(data),
            }
        },
    }
}

/// With nothing stored, loading yields a fresh document at the current
/// version with no notes and no folders.
pub proof fn lemma_first_run_default()
    ensures
        load_spec(StoredDocument::Missing) == Ok::<ParcelModel, LoadError>(empty_parcel()),
{
}

/// A valid document at the current version whose colours are all known
/// loads back exactly as it was saved.
pub proof fn lemma_round_trip(p: ParcelData)
    requires
        is_valid(p@),
        p@.version == CURRENT_VERSION,
        forall|i: int| 0 <= i < p@.notes.len() ==> is_known_color(#[trigger] p@.notes[i].color),
    ensures
        load_spec(StoredDocument::Parsed(p)) == Ok::<ParcelModel, LoadError>(p@),
{
    lemma_migration_keeps_current(p@);
}

/// Loading a valid document, whatever its version, resets a note's unknown
/// colour tag to the default colour and leaves the rest of that note alone.
pub proof fn lemma_color_repair(p: ParcelData, i: int)
    requires
        is_valid(p@),
        0 <= i < p@.notes.len(),
        !is_known_color(p@.notes[i].color),
    ensures
        load_spec(StoredDocument::Parsed(p)) matches Ok(q) && q.notes.len() == p@.notes.len()
            && q.notes[i] == (NoteModel { color: default_color(), ..p@.notes[i] }),
{
    assert(repaired_note(p@.notes[i]) == (NoteModel { color: default_color(), ..p@.notes[i] }));
}

/// A document whose version lies outside the accepted range is rejected
/// with that version; it is never clamped into range.
pub proof fn lemma_version_rejected(p: ParcelData)
    requires
        !version_in_range(p@.version),
    ensures
        load_spec(StoredDocument::Parsed(p)) == Err::<ParcelModel, LoadError>(
            LoadError::Invalid(ValidationError::InvalidVersion(p@.version)),
        ),
{
}

proof fn lemma_note_issue_at(notes: Seq<NoteModel>, k: int, i: int)
    requires
        0 <= k <= i < notes.len(),
        notes[i].id.len() == 0,
    ensures
        note_issue_from(notes, k) is Some,
        (forall|j: int| k <= j < i ==> (#[trigger] notes[j]).id.len() > 0) ==> note_issue_from(
            notes,
            k,
        ) == Some(ValidationError::NoteEmptyId(i as usize)),
    decreases i - k,
{
    if k < i {
        lemma_note_issue_at(notes, k + 1, i);
    }
}

/// A note with an empty id makes loading fail; when no earlier defect comes
/// first, the error cites that note's index.
pub proof fn lemma_empty_note_id_rejected(p: ParcelData, i: int)
    requires
        0 <= i < p@.notes.len(),
        p@.notes[i].id.len() == 0,
    ensures
        load_spec(StoredDocument::Parsed(p)) is Err,
        version_in_range(p@.version) && (forall|j: int|
            0 <= j < i ==> (#[trigger] p@.notes[j]).id.len() > 0) ==> load_spec(
            StoredDocument::Parsed(p),
        ) == Err::<ParcelModel, LoadError>(
            LoadError::Invalid(ValidationError::NoteEmptyId(i as usize)),
        ),
{
    lemma_note_issue_at(p@.notes, 0, i);
}

proof fn lemma_no_note_issue(notes: Seq<NoteModel>, k: int)
    requires
        0 <= k,
        forall|j: int| 0 <= j < notes.len() ==> (#[trigger] notes[j]).id.len() > 0,
    ensures
        note_issue_from(notes, k) is None,
    decreases notes.len() - k,
{
    if k < notes.len() {
        lemma_no_note_issue(notes, k + 1);
    }
}

proof fn lemma_folder_issue_at(folders: Seq<FolderModel>, k: int, i: int)
    requires
        0 <= k <= i < folders.len(),
        folders[i].id.len() == 0,
    ensures
        folder_issue_from(folders, k) is Some,
        (forall|j: int|
            k <= j < i ==> (#[trigger] folders[j]).id.len() > 0 && trimmed(folders[j].name).len()
                > 0) ==> folder_issue_from(folders, k) == Some(
            ValidationError::FolderEmptyId(i as usize),
        ),
    decreases i - k,
{
    if k < i {
        lemma_folder_issue_at(folders, k + 1, i);
    }
}

/// A folder with an empty id makes loading fail; when no earlier defect
/// comes first, the error cites that folder's index.
pub proof fn lemma_empty_folder_id_rejected(p: ParcelData, i: int)
    requires
        0 <= i < p@.folders.len(),
        p@.folders[i].id.len() == 0,
    ensures
        load_spec(StoredDocument::Parsed(p)) is Err,
        version_in_range(p@.version) && (forall|j: int|
            0 <= j < p@.notes.len() ==> (#[trigger] p@.notes[j]).id.len() > 0) && (forall|j: int|
            0 <= j < i ==> (#[trigger] p@.folders[j]).id.len() > 0 && trimmed(
                p@.folders[j].name,
            ).len() > 0) ==> load_spec(StoredDocument::Parsed(p)) == Err::<ParcelModel, LoadError>(
            LoadError::Invalid(ValidationError::FolderEmptyId(i as usize)),
        ),
{
    lemma_folder_issue_at(p@.folders, 0, i);
    if forall|j: int| 0 <= j < p@.notes.len() ==> (#[trigger] p@.notes[j]).id.len() > 0 {
        lemma_no_note_issue(p@.notes, 0);
    }
}

/// Loading what a load returned changes nothing more: saving a loaded
/// document and loading it again gives the same document.
pub proof fn lemma_load_idempotent(d: ParcelData, e: ParcelData)
    requires
        load_spec(StoredDocument::Parsed(d)) == Ok::<ParcelModel, LoadError>(e@),
    ensures
        load_spec(StoredDocument::Parsed(e)) == Ok::<ParcelModel, LoadError>(e@),
{
    lemma_migration_keeps_valid(d@);
    lemma_migration_idempotent(d@);
}

} // verus!
