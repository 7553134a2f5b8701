//! Notes, and the rows of the index that stand for them.

use crate::path::{note_path, path_of, Config, ConfigView};
use vstd::prelude::*;

verus! {

/// A row of the index: what is kept of a note besides its file. The path of
/// the file is not part of it.
#[derive(Debug, PartialEq, Eq)]
pub struct NoteRow {
    /// The number that the index gave the note. No two rows share one.
    pub id: i64,
    /// The title as the user wrote it.
    pub title: String,
    /// The key under which the note is filed, derived from the title once.
    pub slug: String,
    /// When the row was made. Later moments are greater as text.
    pub created_at: String,
}

/// A `NoteRow` as contracts see it.
pub struct RowView {
    pub id: int,
    pub title: Seq<char>,
    pub slug: Seq<char>,
    pub created_at: Seq<char>,
}

impl View for NoteRow {
    type V = RowView;

    open spec fn view(&self) -> RowView {
        RowView {
            id: self.id as int,
            title: self.title@,
            slug: self.slug@,
            created_at: self.created_at@,
        }
    }
}

/// A note as it is handed out: a row of the index together with the path of
/// its file.
#[derive(Debug, PartialEq, Eq)]
pub struct Note {
    pub id: i64,
    pub title: String,
    pub slug: String,
    pub created_at: String,
    /// Where the file of the note lies. Derived from the slug, never stored.
    pub path: String,
}

/// A `Note` as contracts see it.
pub struct NoteView {
    pub id: int,
    pub title: Seq<char>,
    pub slug: Seq<char>,
    pub created_at: Seq<char>,
    pub path: Seq<char>,
}

impl View for Note {
    type V = NoteView;

    open spec fn view(&self) -> NoteView {
        NoteView {
            id: self.id as int,
            title: self.title@,
            slug: self.slug@,
            created_at: self.created_at@,
            path: self.path@,
        }
    }
}

impl Clone for NoteRow {
    fn clone(&self) -> (copy: NoteRow)
        ensures
            copy@ == self@,
    {
        NoteRow {
            id: self.id,
            title: self.title.clone(),
            slug: self.slug.clone(),
            created_at: self.created_at.clone(),
        }
    }
}

impl Clone for Note {
    fn clone(&self) -> (copy: Note)
        ensures
            copy@ == self@,
    {
        Note {
            id: self.id,
            title: self.title.clone(),
            slug: self.slug.clone(),
            created_at: self.created_at.clone(),
            path: self.path.clone(),
        }
    }
}

/// The note that a row stands for: the row, with the path that its slug gives.
pub open spec fn note_of(row: RowView, cfg: ConfigView) -> NoteView {
    NoteView {
        id: row.id,
        title: row.title,
        slug: row.slug,
        created_at: row.created_at,
        path: path_of(row.slug, cfg),
    }
}

/// The views of a sequence of rows.
pub open spec fn row_views(rows: Seq<NoteRow>) -> Seq<RowView> {
    rows.map_values(|row: NoteRow| row@)
}

/// The views of a sequence of notes.
pub open spec fn views(notes: Seq<Note>) -> Seq<NoteView> {
    notes.map_values(|note: Note| note@)
}

/// The notes that a sequence of rows stands for, in the order of the rows.
pub open spec fn notes_of(rows: Seq<RowView>, cfg: ConfigView) -> Seq<NoteView> {
    rows.map_values(|row: RowView| note_of(row, cfg))
}

impl NoteRow {
    /// Makes the note that this row stands for.
    pub fn to_note(&self, cfg: &Config) -> (note: Note)
        ensures
            note@ == note_of(self@, cfg@),
    {
        Note {
            id: self.id,
            title: self.title.clone(),
            slug: self.slug.clone(),
            created_at: self.created_at.clone(),
            path: note_path(self.slug.as_str(), cfg),
        }
    }
}

} // verus!
