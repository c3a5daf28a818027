use vstd::prelude::*;

verus! {

/// The current schema version of a stored document.
pub const CURRENT_VERSION: u32 = 1;

/// The highest schema version a stored document may carry.
pub const MAX_VERSION: u32 = 10;

/// A folder that notes may be filed under.
#[derive(Clone, Debug, PartialEq, Eq)]
pub struct Folder {
    pub id: String,
    pub name: String,
    pub created_at: u64,
    pub updated_at: u64,
}

/// One note of the document.
#[derive(Clone, Debug, PartialEq, Eq)]
pub struct Note {
    pub id: String,
    pub title: String,
    pub body: String,
    pub folder_id: Option<String>,
    pub pinned: bool,
    pub color: String,
    pub created_at: u64,
    pub updated_at: u64,
}

/// The whole stored document: a schema version, its notes and its folders.
#[derive(Clone, Debug, PartialEq, Eq)]
pub struct ParcelData {
    pub version: u32,
    pub notes: Vec<Note>,
    pub folders: Vec<Folder>,
}

/// The mathematical value of a folder.
pub struct FolderModel {
    pub id: Seq<char>,
    pub name: Seq<char>,
    pub created_at: u64,
    pub updated_at: u64,
}

/// The mathematical value of a note.
pub struct NoteModel {
    pub id: Seq<char>,
    pub title: Seq<char>,
    pub body: Seq<char>,
    pub folder_id: Option<Seq<char>>,
    pub pinned: bool,
    pub color: Seq<char>,
    pub created_at: u64,
    pub updated_at: u64,
}

/// The mathematical value of a document.
pub struct ParcelModel {
    pub version: u32,
    pub notes: Seq<NoteModel>,
    pub folders: Seq<FolderModel>,
}

pub open spec fn opt_view(o: Option<String>) -> Option<Seq<char>> {
    match o {
        Some(s) => Some(s@),
        None => None,
    }
}

impl View for Folder {
    type V = FolderModel;

    open spec fn view(&self) -> FolderModel {
        FolderModel {
            id: self.id@,
            name: self.name@,
            created_at: self.created_at,
            updated_at: self.updated_at,
        }
    }
}

impl View for Note {
    type V = NoteModel;

    open spec fn view(&self) -> NoteModel {
        NoteModel {
            id: self.id@,
            title: self.title@,
            body: self.body@,
            folder_id: opt_view(self.folder_id),
            pinned: self.pinned,
            color: self.color@,
            created_at: self.created_at,
            updated_at: self.updated_at,
        }
    }
}

impl View for ParcelData {
    type V = ParcelModel;

    open spec fn view(&self) -> ParcelModel {
        ParcelModel {
            version: self.version,
            notes: self.notes@.map_values(|n: Note| n@),
            folders: self.folders@.map_values(|f: Folder| f@),
        }
    }
}

/// The document a first run starts from: current version, nothing in it.
pub open spec fn empty_parcel() -> ParcelModel {
    ParcelModel { version: CURRENT_VERSION, notes: Seq::empty(), folders: Seq::empty() }
}

/// The closed set of colour tags a note may carry.
pub open spec fn is_known_color(c: Seq<char>) -> bool {
    c == "paper"@ || c == "yellow"@ || c == "mint"@ || c == "lavender"@ || c == "salmon"@
        || c == "sky"@
}

/// The colour a note falls back to when its tag is unknown.
pub open spec fn default_color() -> Seq<char> {
    "paper"@
}

impl ParcelData {
    /// A fresh document: current version, no notes, no folders.
    pub fn empty() -> (r: ParcelData)
        ensures
            r@ == empty_parcel(),
    {
        let r = ParcelData { version: CURRENT_VERSION, notes: Vec::new(), folders: Vec::new() };
        assert(r@.notes =~= Seq::<NoteModel>::empty());
        assert(r@.folders =~= Seq::<FolderModel>::empty());
        r
    }
}

} // verus!
