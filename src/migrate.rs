use vstd::prelude::*;
use crate::model::{
    default_color, is_known_color, Note, NoteModel, ParcelData, ParcelModel, CURRENT_VERSION,
};
use crate::validate::{is_valid, note_issue_from, validation};

verus! {

/// A note with an unknown colour tag falls back to the default colour;
/// every other note is left as it is.
pub open spec fn repaired_note(n: NoteModel) -> NoteModel {
    if is_known_color(n.color) {
        n
    } else {
        NoteModel { color: default_color(), ..n }
    }
}

/// The version a document carries once brought up to date: older ones are
/// raised to the current version, newer ones keep theirs.
pub open spec fn migrated_version(v: u32) -> u32 {
    if v < CURRENT_VERSION {
        CURRENT_VERSION
    } else {
        v
    }
}

/// A document brought up to the current schema: colours repaired, version raised.
pub open spec fn migrated(p: ParcelModel) -> ParcelModel {
    ParcelModel {
        version: migrated_version(p.version),
        notes: p.notes.map_values(|n: NoteModel| repaired_note(n)),
        folders: p.folders,
    }
}

/// Whether `c` is one of the known colour tags.
pub fn is_known_color_tag(c: &str) -> (r: bool)
    ensures
        r == is_known_color(c@),
{
    let s = c.to_owned();
    s == String::from_str("paper") || s == String::from_str("yellow") || s == String::from_str(
        "mint",
    ) || s == String::from_str("lavender") || s == String::from_str("salmon")
        || s == String::from_str("sky")
}

/// Resets every unknown colour tag among `notes` to the default colour.
pub fn repair_colors(notes: &mut Vec<Note>)
    ensures
        final(notes)@.map_values(|n: Note| n@) =~= old(notes)@.map_values(
            |n: Note| n@,
        ).map_values(|n: NoteModel| repaired_note(n)),
{
    let ghost orig = notes@;
    let n = notes.len();
    let mut i: usize = 0;
    while i < n
        invariant
            0 <= i <= n,
            n == orig.len(),
            notes@.len() == n,
            forall|k: int| 0 <= k < i ==> #[trigger] notes@[k]@ == repaired_note(orig[k]@),
            forall|k: int| i <= k < n ==> #[trigger] notes@[k] == orig[k],
        decreases n - i,
    {
        if !is_known_color_tag(notes[i].color.as_str()) {
            notes[i].color = String::from_str("paper");
        }
        i = i + 1;
    }
}

/// Brings a document up to the current schema version: unknown colour tags
/// are reset to the default colour, and an older version is raised to the
/// current one.
pub fn migrate_data(data: ParcelData) -> (r: ParcelData)
    ensures
        r@ == migrated(data@),
{
    let mut data = data;
    repair_colors(&mut data.notes);
    if data.version < CURRENT_VERSION {
        data.version = CURRENT_VERSION;
    }
    data
}

proof fn lemma_note_issue_repaired(notes: Seq<NoteModel>, i: int)
    ensures
        note_issue_from(notes.map_values(|n: NoteModel| repaired_note(n)), i)
            == note_issue_from(notes, i),
    decreases notes.len() - i,
{
    if 0 <= i < notes.len() {
        lemma_note_issue_repaired(notes, i + 1);
    }
}

/// Migration keeps a valid document valid: it touches no id, no folder, and
/// raises the version only within range.
pub proof fn lemma_migration_keeps_valid(p: ParcelModel)
    requires
        is_valid(p),
    ensures
        is_valid(migrated(p)),
        validation(migrated(p)) == validation(p),
{
    lemma_note_issue_repaired(p.notes, 0);
}

/// Migrating a document a second time changes nothing.
pub proof fn lemma_migration_idempotent(p: ParcelModel)
    ensures
        migrated(migrated(p)) == migrated(p),
{
    let once = migrated(p);
    assert(migrated(once).notes =~= once.notes);
}

/// A valid document already at the current version whose colours are all
/// known is left exactly as it is.
pub proof fn lemma_migration_keeps_current(p: ParcelModel)
    requires
        p.version == CURRENT_VERSION,
        forall|i: int| 0 <= i < p.notes.len() ==> is_known_color(#[trigger] p.notes[i].color),
    ensures
        migrated(p) == p,
{
    assert(migrated(p).notes =~= p.notes);
}

} // verus!
