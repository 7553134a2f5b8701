//! What the selector shows: a table with one line for each candidate, and
//! the marked line set off from the others.

use crate::note::{views, Note, NoteView};
use crate::selector::NotesTable;
use crate::text::{decimal, decimal_string};
use vstd::prelude::*;

verus! {

/// The line above the table.
pub const TITLE: &'static str = "Notes (q to quit, ↑/↓ or j/k to navigate, Enter to select)";

/// What is written before the marked line.
pub const HIGHLIGHT_SYMBOL: &'static str = ">> ";

/// How wide a column is.
#[derive(Clone, Copy, Debug, PartialEq, Eq)]
pub enum Width {
    /// Exactly so many cells.
    Length(u16),
    /// At least so many cells.
    Min(u16),
}

/// The table as it is to be drawn.
#[derive(Debug, PartialEq, Eq)]
pub struct TableFrame {
    /// The names of the columns.
    pub header: Vec<String>,
    /// The width of each column.
    pub widths: Vec<Width>,
    /// One line for each candidate, in their order, with one text for each
    /// column.
    pub rows: Vec<Vec<String>>,
    /// The index of the line that is set off from the others.
    pub highlighted: Option<usize>,
}

/// The views of a sequence of strings.
pub open spec fn texts(cells: Seq<String>) -> Seq<Seq<char>> {
    cells.map_values(|cell: String| cell@)
}

/// The names of the columns: the number of the note, its title, the moment of
/// its creation, and its slug.
pub open spec fn header_of() -> Seq<Seq<char>> {
    seq!["ID"@, "Title"@, "Created At"@, "Slug"@]
}

/// The widths of the columns.
pub open spec fn widths_of() -> Seq<Width> {
    seq![Width::Length(5), Width::Min(20), Width::Length(20), Width::Min(15)]
}

/// The line of a note: its number in decimal digits, its title, the moment of
/// its creation, and its slug.
pub open spec fn cells_of(note: NoteView) -> Seq<Seq<char>> {
    seq![decimal(note.id), note.title, note.created_at, note.slug]
}

/// Makes the names of the columns.
pub fn header_cells() -> (cells: Vec<String>)
    ensures
        texts(cells@) == header_of(),
{
    let mut cells: Vec<String> = Vec::new();
    cells.push("ID".to_owned());
    cells.push("Title".to_owned());
    cells.push("Created At".to_owned());
    cells.push("Slug".to_owned());
    assert(texts(cells@) =~= header_of());
    cells
}

/// Makes the widths of the columns.
pub fn column_widths() -> (widths: Vec<Width>)
    ensures
        widths@ == widths_of(),
{
    let mut widths: Vec<Width> = Vec::new();
    widths.push(Width::Length(5));
    widths.push(Width::Min(20));
    widths.push(Width::Length(20));
    widths.push(Width::Min(15));
    assert(widths@ =~= widths_of());
    widths
}

/// Makes the line of a note.
pub fn row_cells(note: &Note) -> (cells: Vec<String>)
    ensures
        texts(cells@) == cells_of(note@),
{
    let mut cells: Vec<String> = Vec::new();
    cells.push(decimal_string(note.id));
    cells.push(note.title.clone());
    cells.push(note.created_at.clone());
    cells.push(note.slug.clone());
    assert(texts(cells@) =~= cells_of(note@));
    cells
}

impl NotesTable {
    /// The table that shows this selector: the header, one line for each
    /// candidate, and the line of the marked candidate set off.
    pub fn frame(&self) -> (frame: TableFrame)
        ensures
            texts(frame.header@) == header_of(),
            frame.widths@ == widths_of(),
            frame.rows@.len() == self@.notes.len(),
            forall|i: int|
                0 <= i < self@.notes.len() ==> texts(#[trigger] frame.rows@[i]@) == cells_of(
                    self@.notes[i],
                ),
            match frame.highlighted {
                Some(i) => self@.selected == Some(i as int),
                None => self@.selected is None,
            },
    {
        let notes = self.notes();
        let mut rows: Vec<Vec<String>> = Vec::new();
        let mut i: usize = 0;
        while i < notes.len()
            invariant
                i <= notes.len(),
                rows@.len() == i,
                views(notes@) == self@.notes,
                forall|k: int|
                    0 <= k < i ==> texts(#[trigger] rows@[k]@) == cells_of(self@.notes[k]),
            decreases notes.len() - i,
        {
            assert(self@.notes[i as int] == notes@[i as int]@);
            rows.push(row_cells(&notes[i]));
            i = i + 1;
        }
        assert(self@.notes.len() == notes@.len());
        TableFrame {
            header: header_cells(),
            widths: column_widths(),
            rows,
            highlighted: self.selected(),
        }
    }
}

} // verus!
