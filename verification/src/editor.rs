//! Handing a note over to the user's editor.

use crate::note::{views, Note, NoteView};
use crate::path::{expand, expand_home, view_of};
use crate::selector::TableView;
use crate::session::{opening, run_notes_ui, Session};
use vstd::prelude::*;

verus! {

/// The editor that is used where the user has named none.
pub const DEFAULT_EDITOR: &'static str = "vi";

/// A program to run on a file.
#[derive(Debug, PartialEq, Eq)]
pub struct EditorCommand {
    /// The program.
    pub program: String,
    /// The file that it is given as its one argument.
    pub file: String,
}

/// The command that opens the file at `file_path`: the editor that the user
/// has named, or the default one, on the path with its leading tilde replaced
/// by the home directory.
pub fn editor_command(editor: Option<String>, file_path: &str, home: Option<&str>) -> (command:
    EditorCommand)
    ensures
        command.program@ == match editor {
            Some(name) => name@,
            None => DEFAULT_EDITOR@,
        },
        command.file@ == expand_home(file_path@, view_of(home)),
{
    let program = match editor {
        Some(name) => name,
        None => DEFAULT_EDITOR.to_owned(),
    };
    EditorCommand { program, file: expand(file_path, home) }
}

/// What to do with the notes that a search has found.
pub enum EditPlan {
    /// There is nothing to open.
    NotFound,
    /// There is one note: open the file at this path.
    Open(String),
    /// There are several notes: let the user choose in this sitting at the
    /// selector, which has not begun yet.
    Choose(Session),
}

/// The plan for `notes`, as contracts see it.
pub open spec fn plan_matches(plan: EditPlan, notes: Seq<NoteView>) -> bool {
    match plan {
        EditPlan::NotFound => notes.len() == 0,
        EditPlan::Open(path) => notes.len() == 1 && path@ == notes[0].path,
        EditPlan::Choose(session) => notes.len() > 1 && session@ == opening(
            TableView { notes, selected: Some(0int) },
        ),
    }
}

/// Decides what to do with the notes that a search has found: nothing where
/// there are none, open the note where there is one, and let the user choose
/// where there are several.
pub fn plan_edit(notes: Vec<Note>) -> (plan: EditPlan)
    ensures
        plan_matches(plan, views(notes@)),
{
    if notes.len() == 0 {
        EditPlan::NotFound
    } else if notes.len() == 1 {
        EditPlan::Open(notes[0].path.clone())
    } else {
        EditPlan::Choose(run_notes_ui(notes))
    }
}

} // verus!
