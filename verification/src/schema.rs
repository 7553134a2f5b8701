//! The tables of the index, and the statements that the caller runs on it.

use vstd::prelude::*;

verus! {

/// Makes the table of notes. Its columns stand in the order that
/// `COLUMN_ID`, `COLUMN_TITLE`, `COLUMN_SLUG` and `COLUMN_CREATED_AT` give.
pub const CREATE_NOTES: &'static str =
    "CREATE TABLE IF NOT EXISTS notes (
            id INTEGER PRIMARY KEY AUTOINCREMENT,
            title TEXT NOT NULL,
            slug TEXT NOT NULL,
            created_at TIMESTAMP DEFAULT CURRENT_TIMESTAMP
        )";

/// Makes the table of tags. No two tags share a name.
pub const CREATE_TAGS: &'static str =
    "CREATE TABLE IF NOT EXISTS tags (
            id INTEGER PRIMARY KEY AUTOINCREMENT,
            name TEXT NOT NULL UNIQUE
        )";

/// Makes the table that joins notes and tags.
pub const CREATE_NOTE_TAGS: &'static str =
    "CREATE TABLE IF NOT EXISTS note_tags (
            note_id INTEGER NOT NULL,
            tag_id INTEGER NOT NULL,
            FOREIGN KEY (note_id) REFERENCES notes(id),
            FOREIGN KEY (tag_id) REFERENCES tags(id),
            PRIMARY KEY (note_id, tag_id)
        )";

/// Makes the table of settings, one value for each key.
pub const CREATE_SETTINGS: &'static str =
    "CREATE TABLE IF NOT EXISTS settings (
            key TEXT PRIMARY KEY,
            value TEXT NOT NULL
        )";

/// Makes the table that keeps what a note held before.
pub const CREATE_NOTES_HISTORY: &'static str =
    "CREATE TABLE IF NOT EXISTS notes_history (
            id INTEGER PRIMARY KEY AUTOINCREMENT,
            note_id INTEGER NOT NULL,
            content TEXT NOT NULL,
            created_at TIMESTAMP DEFAULT CURRENT_TIMESTAMP,
            FOREIGN KEY (note_id) REFERENCES notes(id)
        )";

/// Adds a row to the table of notes. Its two parameters are the title and
/// the slug; the index gives the number and the moment.
pub const INSERT_NOTE: &'static str = "INSERT INTO notes (title, slug) VALUES (?1, ?2)";

/// Reads the table of notes, each row with its columns in their order.
pub const SELECT_NOTES: &'static str = "SELECT id, title, slug, created_at FROM notes";

/// The place of the number in a row of notes.
pub const COLUMN_ID: usize = 0;

/// The place of the title in a row of notes.
pub const COLUMN_TITLE: usize = 1;

/// The place of the slug in a row of notes.
pub const COLUMN_SLUG: usize = 2;

/// The place of the moment of creation in a row of notes.
pub const COLUMN_CREATED_AT: usize = 3;

/// The statements that make the index, in the order in which they have to
/// run: a table is made after the tables that it refers to.
pub open spec fn tables() -> Seq<&'static str> {
    seq![CREATE_NOTES, CREATE_TAGS, CREATE_NOTE_TAGS, CREATE_SETTINGS, CREATE_NOTES_HISTORY]
}

/// The statements that make the tables of the index where they are missing.
/// The caller runs them one after the other and stops at the first that
/// fails.
pub fn init() -> (statements: Vec<&'static str>)
    ensures
        statements@ == tables(),
{
    let mut statements: Vec<&'static str> = Vec::new();
    statements.push(CREATE_NOTES);
    statements.push(CREATE_TAGS);
    statements.push(CREATE_NOTE_TAGS);
    statements.push(CREATE_SETTINGS);
    statements.push(CREATE_NOTES_HISTORY);
    assert(statements@ =~= tables());
    statements
}

} // verus!
