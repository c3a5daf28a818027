use vstd::prelude::*;
use crate::model::{Folder, FolderModel, NoteModel, ParcelData, ParcelModel, MAX_VERSION};

verus! {

/// A structural defect that makes a stored document unusable.
#[derive(Clone, Debug, PartialEq, Eq)]
pub enum ValidationError {
    /// The schema version lies outside `1..=MAX_VERSION`.
    InvalidVersion(u32),
    /// The note at this index has an empty id.
    NoteEmptyId(usize),
    /// The folder at this index has an empty id.
    FolderEmptyId(usize),
    /// The folder at this index has a name that is empty once trimmed.
    FolderEmptyName(usize),
}

/// What `str::trim` makes of a string.
pub uninterp spec fn trimmed(s: Seq<char>) -> Seq<char>;

/// Relies on `str::trim`: the string without its leading and trailing
/// whitespace, a function of the characters alone.
#[verifier::external_body]
fn trim(s: &str) -> (r: &str)
    ensures
        r@ == trimmed(s@),
{
    s.trim()
}

pub open spec fn version_in_range(v: u32) -> bool {
    1 <= v <= MAX_VERSION
}

/// The first defect among the notes from index `i` on.
pub open spec fn note_issue_from(notes: Seq<NoteModel>, i: int) -> Option<ValidationError>
    decreases notes.len() - i,
{
    if 0 <= i < notes.len() {
        if notes[i].id.len() == 0 {
            Some(ValidationError::NoteEmptyId(i as usize))
        } else {
            note_issue_from(notes, i + 1)
        }
    } else {
        None
    }
}

/// The first defect among the folders from index `i` on; at one index the
/// id is checked before the name.
pub open spec fn folder_issue_from(folders: Seq<FolderModel>, i: int) -> Option<ValidationError>
    decreases folders.len() - i,
{
    if 0 <= i < folders.len() {
        if folders[i].id.len() == 0 {
            Some(ValidationError::FolderEmptyId(i as usize))
        } else if trimmed(folders[i].name).len() == 0 {
            Some(ValidationError::FolderEmptyName(i as usize))
        } else {
            folder_issue_from(folders, i + 1)
        }
    } else {
        None
    }
}

/// The verdict on a document: the version first, then the notes in order,
/// then the folders in order; the first defect found is the one reported.
pub open spec fn validation(p: ParcelModel) -> Result<(), ValidationError> {
    if !version_in_range(p.version) {
        Err(ValidationError::InvalidVersion(p.version))
    } else {
        match note_issue_from(p.notes, 0) {
            Some(e) => Err(e),
            None => match folder_issue_from(p.folders, 0) {
                Some(e) => Err(e),
                None => Ok(()),
            },
        }
    }
}

pub open spec fn is_valid(p: ParcelModel) -> bool {
    validation(p) is Ok
}

/// The verdict on one folder at index `idx`, given its name as trimmed:
/// an empty id is reported before an empty name.
pub fn check_folder(idx: usize, folder: &Folder, trimmed_name: &str) -> (r: Result<
    (),
    ValidationError,
>)
    ensures
        r == (if folder.id@.len() == 0 {
            Err(ValidationError::FolderEmptyId(idx))
        } else if trimmed_name@.len() == 0 {
            Err(ValidationError::FolderEmptyName(idx))
        } else {
            Ok(())
        }),
{
    if folder.id.as_str().is_empty() {
        Err(ValidationError::FolderEmptyId(idx))
    } else if trimmed_name.is_empty() {
        Err(ValidationError::FolderEmptyName(idx))
    } else {
        Ok(())
    }
}

/// Checks the structural rules of a document and reports its first defect.
pub fn validate_data(data: &ParcelData) -> (r: Result<(), ValidationError>)
    ensures
        r == validation(data@),
{
    if data.version == 0 || data.version > MAX_VERSION {
        return Err(ValidationError::InvalidVersion(data.version));
    }
    let ghost p = data@;
    let n = data.notes.len();
    let mut i: usize = 0;
    while i < n
        invariant
            n == data.notes@.len(),
            p == data@,
            version_in_range(p.version),
            0 <= i <= n,
            note_issue_from(p.notes, 0) == note_issue_from(p.notes, i as int),
        decreases n - i,
    {
        assert(p.notes[i as int] == data.notes@[i as int]@);
        if data.notes[i].id.as_str().is_empty() {
            return Err(ValidationError::NoteEmptyId(i));
        }
        i = i + 1;
    }
    let m = data.folders.len();
    let mut j: usize = 0;
    while j < m
        invariant
            m == data.folders@.len(),
            p == data@,
            version_in_range(p.version),
            0 <= j <= m,
            note_issue_from(p.notes, 0) is None,
            folder_issue_from(p.folders, 0) == folder_issue_from(p.folders, j as int),
        decreases m - j,
    {
        let folder = &data.folders[j];
        assert(p.folders[j as int] == folder@);
        check_folder(j, folder, trim(folder.name.as_str()))?;
        j = j + 1;
    }
    Ok(())
}

} // verus!
