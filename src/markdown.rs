use vstd::prelude::*;
use vstd::string::*;
use crate::model::{opt_view, FolderModel, Note, NoteModel, ParcelData, ParcelModel};

verus! {

pub open spec fn digit_char(d: nat) -> char {
    if d == 0 {
        '0'
    } else if d == 1 {
        '1'
    } else if d == 2 {
        '2'
    } else if d == 3 {
        '3'
    } else if d == 4 {
        '4'
    } else if d == 5 {
        '5'
    } else if d == 6 {
        '6'
    } else if d == 7 {
        '7'
    } else if d == 8 {
        '8'
    } else {
        '9'
    }
}

/// The decimal digits of `n`, most significant first, without leading zeros.
pub open spec fn decimal(n: nat) -> Seq<char>
    decreases n,
{
    if n < 10 {
        seq![digit_char(n)]
    } else {
        decimal(n / 10) + seq![digit_char(n % 10)]
    }
}

pub open spec fn bool_text(b: bool) -> Seq<char> {
    if b {
        "true"@
    } else {
        "false"@
    }
}

/// The heading a note is shown under: its title, or "Untitled" when empty.
pub open spec fn display_title(title: Seq<char>) -> Seq<char> {
    if title.len() == 0 {
        "Untitled"@
    } else {
        title
    }
}

/// One rendered note: heading, body paragraph when there is one, and a
/// line with its colour and pin flag.
pub open spec fn note_text(n: NoteModel) -> Seq<char> {
    "### "@ + display_title(n.title) + "\n\n"@ + (if n.body.len() == 0 {
        Seq::empty()
    } else {
        n.body + "\n\n"@
    }) + "*Color: "@ + n.color + " | Pinned: "@ + bool_text(n.pinned) + "*\n\n"@
}

/// The notes filed under `key`, rendered in the order they are stored.
pub open spec fn group_text(notes: Seq<NoteModel>, key: Option<Seq<char>>) -> Seq<char>
    decreases notes.len(),
{
    if notes.len() == 0 {
        Seq::empty()
    } else {
        group_text(notes.drop_last(), key) + (if notes.last().folder_id == key {
            note_text(notes.last())
        } else {
            Seq::empty()
        })
    }
}

/// A folder's section: its heading, then the notes filed under its id.
pub open spec fn folder_section(f: FolderModel, notes: Seq<NoteModel>) -> Seq<char> {
    "## Folder: "@ + f.name + "\n\n"@ + group_text(notes, Some(f.id))
}

/// The sections of all folders, in the order the folders are stored.
pub open spec fn folders_text(folders: Seq<FolderModel>, notes: Seq<NoteModel>) -> Seq<char>
    decreases folders.len(),
{
    if folders.len() == 0 {
        Seq::empty()
    } else {
        folders_text(folders.drop_last(), notes) + folder_section(folders.last(), notes)
    }
}

pub open spec fn has_unfiled(notes: Seq<NoteModel>) -> bool {
    exists|k: int| 0 <= k < notes.len() && (#[trigger] notes[k]).folder_id is None
}

/// The section of notes in no folder; it is left out when there are none.
pub open spec fn unfiled_text(notes: Seq<NoteModel>) -> Seq<char> {
    if has_unfiled(notes) {
        "## Notes (No Folder)\n\n"@ + group_text(notes, None)
    } else {
        Seq::empty()
    }
}

/// The title and the two totals that open an export.
pub open spec fn markdown_header(p: ParcelModel) -> Seq<char> {
    "# Parcel Notes Export\n\n"@ + "*Total notes: "@ + decimal(p.notes.len()) + "*\n"@
        + "*Total folders: "@ + decimal(p.folders.len()) + "*\n\n"@
}

/// Everything after the header: the folder sections, then the unfiled notes.
pub open spec fn markdown_sections(p: ParcelModel) -> Seq<char> {
    folders_text(p.folders, p.notes) + unfiled_text(p.notes)
}

/// The Markdown rendering of a document.
pub open spec fn markdown(p: ParcelModel) -> Seq<char> {
    markdown_header(p) + markdown_sections(p)
}

fn digit_str(d: usize) -> (r: &'static str)
    requires
        d < 10,
    ensures
        r@ == seq![digit_char(d as nat)],
{
    proof {
        reveal_strlit("0");
        reveal_strlit("1");
        reveal_strlit("2");
        reveal_strlit("3");
        reveal_strlit("4");
        reveal_strlit("5");
        reveal_strlit("6");
        reveal_strlit("7");
        reveal_strlit("8");
        reveal_strlit("9");
    }
    let r = if d == 0 {
        "0"
    } else if d == 1 {
        "1"
    } else if d == 2 {
        "2"
    } else if d == 3 {
        "3"
    } else if d == 4 {
        "4"
    } else if d == 5 {
        "5"
    } else if d == 6 {
        "6"
    } else if d == 7 {
        "7"
    } else if d == 8 {
        "8"
    } else {
        "9"
    };
    assert(r@ =~= seq![digit_char(d as nat)]);
    r
}

/// Appends the decimal digits of `n`.
pub fn push_decimal(out: &mut String, n: usize)
    ensures
        final(out)@ == old(out)@ + decimal(n as nat),
    decreases n,
{
    if n >= 10 {
        push_decimal(out, n / 10);
    }
    out.append(digit_str(n % 10));
    assert(final(out)@ =~= old(out)@ + decimal(n as nat));
}

/// Appends one rendered note.
fn append_note(out: &mut String, note: &Note)
    ensures
        final(out)@ == old(out)@ + note_text(note@),
{
    out.append("### ");
    if note.title.as_str().is_empty() {
        out.append("Untitled");
    } else {
        out.append(note.title.as_str());
    }
    out.append("\n\n");
    if !note.body.as_str().is_empty() {
        out.append(note.body.as_str());
        out.append("\n\n");
    }
    out.append("*Color: ");
    out.append(note.color.as_str());
    out.append(" | Pinned: ");
    if note.pinned {
        out.append("true");
    } else {
        out.append("false");
    }
    out.append("*\n\n");
    assert(final(out)@ =~= old(out)@ + note_text(note@));
}

/// Whether a note's folder reference is `key`.
fn in_group(folder_id: &Option<String>, key: &Option<String>) -> (r: bool)
    ensures
        r == (opt_view(*folder_id) == opt_view(*key)),
{
    match folder_id {
        Some(a) => match key {
            Some(b) => {
                let same = a.eq(b);
                assert(same == (Some(a@) == Some(b@)));
                same
            },
            None => false,
        },
        None => key.is_none(),
    }
}

proof fn lemma_group_text_step(notes: Seq<NoteModel>, key: Option<Seq<char>>, i: int)
    requires
        0 <= i < notes.len(),
    ensures
        group_text(notes.take(i + 1), key) == group_text(notes.take(i), key) + (if notes[i].folder_id
            == key {
            note_text(notes[i])
        } else {
            Seq::empty()
        }),
{
    assert(notes.take(i + 1).drop_last() =~= notes.take(i));
}

/// Appends every note filed under `key`, in the order they are stored.
fn append_group(out: &mut String, notes: &Vec<Note>, key: &Option<String>)
    ensures
        final(out)@ == old(out)@ + group_text(notes@.map_values(|n: Note| n@), opt_view(*key)),
{
    let ghost start = out@;
    let ghost nm = notes@.map_values(|n: Note| n@);
    let n = notes.len();
    let mut i: usize = 0;
    while i < n
        invariant
            0 <= i <= n,
            n == notes@.len(),
            nm == notes@.map_values(|n: Note| n@),
            out@ == start + group_text(nm.take(i as int), opt_view(*key)),
        decreases n - i,
    {
        proof {
            lemma_group_text_step(nm, opt_view(*key), i as int);
        }
        let note = &notes[i];
        assert(nm[i as int] == note@);
        if in_group(&note.folder_id, key) {
            append_note(out, note);
        }
        assert(out@ =~= start + group_text(nm.take(i + 1), opt_view(*key)));
        i = i + 1;
    }
    assert(nm.take(n as int) =~= nm);
}

/// Whether some note is in no folder.
fn any_unfiled(notes: &Vec<Note>) -> (r: bool)
    ensures
        r == has_unfiled(notes@.map_values(|n: Note| n@)),
{
    let ghost nm = notes@.map_values(|n: Note| n@);
    let n = notes.len();
    let mut i: usize = 0;
    while i < n
        invariant
            0 <= i <= n,
            n == notes@.len(),
            nm == notes@.map_values(|n: Note| n@),
            forall|k: int| 0 <= k < i ==> (#[trigger] nm[k]).folder_id is Some,
        decreases n - i,
    {
        assert(nm[i as int] == notes[i as int]@);
        if notes[i].folder_id.is_none() {
            return true;
        }
        i = i + 1;
    }
    false
}

/// Renders a document as Markdown: a header with the totals, one section
/// per folder in stored order with the notes filed under it, then a section
/// of the notes in no folder when there are any. A note whose folder is not
/// among the folders appears in no section.
pub fn export_markdown(data: &ParcelData) -> (r: String)
    ensures
        r@ == markdown(data@),
{
    let ghost p = data@;
    let mut out = String::new();
    out.append("# Parcel Notes Export\n\n");
    out.append("*Total notes: ");
    push_decimal(&mut out, data.notes.len());
    out.append("*\n");
    out.append("*Total folders: ");
    push_decimal(&mut out, data.folders.len());
    out.append("*\n\n");
    assert(out@ =~= markdown_header(p));
    let ghost head = out@;
    let m = data.folders.len();
    let mut j: usize = 0;
    while j < m
        invariant
            0 <= j <= m,
            m == data.folders@.len(),
            p == data@,
            out@ == head + folders_text(p.folders.take(j as int), p.notes),
        decreases m - j,
    {
        let folder = &data.folders[j];
        assert(p.folders[j as int] == folder@);
        assert(p.folders.take(j + 1).drop_last() =~= p.folders.take(j as int));
        out.append("## Folder: ");
        out.append(folder.name.as_str());
        out.append("\n\n");
        let key = Some(folder.id.clone());
        append_group(&mut out, &data.notes, &key);
        assert(out@ =~= head + folders_text(p.folders.take(j + 1), p.notes));
        j = j + 1;
    }
    assert(p.folders.take(m as int) =~= p.folders);
    let ghost mid = out@;
    if any_unfiled(&data.notes) {
        out.append("## Notes (No Folder)\n\n");
        append_group(&mut out, &data.notes, &None);
    }
    assert(out@ =~= mid + unfiled_text(p.notes));
    out
}

proof fn lemma_group_text_without(notes: Seq<NoteModel>, key: Option<Seq<char>>, i: int)
    requires
        0 <= i < notes.len(),
        notes[i].folder_id != key,
    ensures
        group_text(notes.remove(i), key) == group_text(notes, key),
    decreases notes.len(),
{
    if i == notes.len() - 1 {
        assert(notes.remove(i) =~= notes.drop_last());
    } else {
        assert(notes.remove(i).drop_last() =~= notes.drop_last().remove(i));
        assert(notes.remove(i).last() == notes.last());
        lemma_group_text_without(notes.drop_last(), key, i);
    }
}

proof fn lemma_folders_text_without(folders: Seq<FolderModel>, notes: Seq<NoteModel>, i: int)
    requires
        0 <= i < notes.len(),
        forall|k: int| 0 <= k < folders.len() ==> notes[i].folder_id != Some((#[trigger] folders[k]).id),
    ensures
        folders_text(folders, notes.remove(i)) == folders_text(folders, notes),
    decreases folders.len(),
{
    if folders.len() > 0 {
        let rest = folders.drop_last();
        assert forall|k: int| 0 <= k < rest.len() implies notes[i].folder_id != Some(
            (#[trigger] rest[k]).id,
        ) by {
            assert(rest[k] == folders[k]);
        }
        lemma_folders_text_without(rest, notes, i);
        assert(notes[i].folder_id != Some(folders[folders.len() - 1].id));
        lemma_group_text_without(notes, Some(folders.last().id), i);
    }
}

/// A note that refers to a folder that is not among the folders shows up
/// nowhere in the export: with it removed, every section reads the same.
pub proof fn lemma_orphan_note_hidden(p: ParcelModel, i: int)
    requires
        0 <= i < p.notes.len(),
        p.notes[i].folder_id is Some,
        forall|k: int| 0 <= k < p.folders.len() ==> p.notes[i].folder_id != Some((#[trigger] p.folders[k]).id),
    ensures
        markdown_sections(p) == markdown_sections(ParcelModel { notes: p.notes.remove(i), ..p }),
{
    let rest = p.notes.remove(i);
    lemma_folders_text_without(p.folders, p.notes, i);
    lemma_group_text_without(p.notes, None, i);
    if has_unfiled(p.notes) {
        let k = choose|k: int| 0 <= k < p.notes.len() && (#[trigger] p.notes[k]).folder_id is None;
        if k < i {
            assert(rest[k] == p.notes[k]);
        } else {
            assert(rest[k - 1] == p.notes[k]);
        }
    }
    if has_unfiled(rest) {
        let k = choose|k: int| 0 <= k < rest.len() && (#[trigger] rest[k]).folder_id is None;
        if k < i {
            assert(rest[k] == p.notes[k]);
        } else {
            assert(rest[k] == p.notes[k + 1]);
        }
    }
}

} // verus!
