use nottes::create::{add_note, note_template, AddNote, Reply, Stage, Step, StoreError};
use nottes::index::get_all_notes;
use nottes::note::NoteRow;
use nottes::path::Config;

fn config() -> Config {
    Config { base_dir: "/srv/notes".to_string(), home: None }
}

/// Files and an index that live in memory, for the creation to act on.
struct Shelf {
    files: Vec<(String, String)>,
    rows: Vec<NoteRow>,
    clock: u32,
    write_fault: Option<String>,
    insert_fault: Option<String>,
}

impl Shelf {
    fn new() -> Shelf {
        Shelf { files: Vec::new(), rows: Vec::new(), clock: 0, write_fault: None, insert_fault: None }
    }

    fn file(&self, path: &str) -> Option<&String> {
        self.files.iter().find(|f| f.0 == path).map(|f| &f.1)
    }

    fn perform(&mut self, step: &Step) -> Reply {
        match step {
            Step::CheckFile { path } => {
                if self.file(path).is_some() {
                    Reply::Exists
                } else {
                    Reply::Missing
                }
            }
            Step::WriteFile { path, content } => {
                if let Some(cause) = &self.write_fault {
                    return Reply::WriteFailed(cause.clone());
                }
                self.files.retain(|f| &f.0 != path);
                self.files.push((path.clone(), content.clone()));
                Reply::Written
            }
            Step::InsertRow { title, slug } => {
                if let Some(cause) = &self.insert_fault {
                    return Reply::InsertFailed(cause.clone());
                }
                self.clock += 1;
                let id: i64 = self.rows.len() as i64 + 1;
                self.rows.push(NoteRow {
                    id,
                    title: title.clone(),
                    slug: slug.clone(),
                    created_at: format!("2024-05-01 10:00:{:02}", self.clock),
                });
                Reply::Inserted
            }
            Step::Finish(_) => panic!("nothing is left to do"),
        }
    }

    fn create(&mut self, title: &str) -> Result<String, StoreError> {
        let mut add: AddNote = add_note(title.to_string(), &config());
        let mut step = add.request();
        let mut rounds: u32 = 0;
        loop {
            if let Step::Finish(result) = step {
                assert_eq!(add.stage(), Stage::Finished);
                return result;
            }
            assert!(rounds < 3);
            let reply = self.perform(&step);
            step = add.advance(reply);
            rounds += 1;
        }
    }
}

#[test]
fn template_holds_the_title_between_dashes() {
    assert_eq!(note_template("My First Note"), "---\ntitle: My First Note\n---\n\n");
    assert_eq!(note_template(""), "---\ntitle: \n---\n\n");
}

#[test]
fn add_creates_the_file_and_one_row() {
    let mut shelf = Shelf::new();
    let path = shelf.create("My First Note");
    assert_eq!(path, Ok("/srv/notes/My_First_Note.md".to_string()));
    assert_eq!(shelf.files.len(), 1);
    let content = shelf.file("/srv/notes/My_First_Note.md").unwrap();
    assert!(content.contains("title: My First Note"));
    assert_eq!(shelf.rows.len(), 1);
    assert_eq!(shelf.rows[0].slug, "My_First_Note");
    assert_eq!(shelf.rows[0].title, "My First Note");
}

#[test]
fn create_twice_gives_the_same_path_and_one_note() {
    let mut shelf = Shelf::new();
    let first = shelf.create("Groceries today");
    let second = shelf.create("Groceries today");
    assert_eq!(first, Ok("/srv/notes/Groceries_today.md".to_string()));
    assert_eq!(second, first);
    assert_eq!(shelf.files.len(), 1);
    assert_eq!(shelf.rows.iter().filter(|r| r.slug == "Groceries_today").count(), 1);
}

#[test]
fn create_twice_does_nothing_the_second_time() {
    let mut shelf = Shelf::new();
    shelf.create("A").unwrap();
    shelf.write_fault = Some("disk full".to_string());
    shelf.insert_fault = Some("locked".to_string());
    assert_eq!(shelf.create("A"), Ok("/srv/notes/A.md".to_string()));
    assert_eq!(shelf.rows.len(), 1);
}

#[test]
fn titles_with_one_slug_are_one_note() {
    let mut shelf = Shelf::new();
    let first = shelf.create("a b");
    let second = shelf.create("a   b");
    let third = shelf.create("a_b");
    assert_eq!(first, second);
    assert_eq!(first, third);
    assert_eq!(shelf.rows.len(), 1);
    assert_eq!(shelf.rows[0].title, "a b");
}

#[test]
fn created_notes_are_listed_most_recent_first() {
    let mut shelf = Shelf::new();
    shelf.create("A").unwrap();
    shelf.create("B").unwrap();
    shelf.create("C").unwrap();
    let notes = get_all_notes(&shelf.rows, &config());
    let titles: Vec<&str> = notes.iter().map(|n| n.title.as_str()).collect();
    assert_eq!(titles, vec!["C", "B", "A"]);
    assert_eq!(notes[0].path, "/srv/notes/C.md");
}

#[test]
fn creation_asks_for_the_file_before_the_row() {
    let mut add = add_note("My First Note".to_string(), &config());
    assert_eq!(add.stage(), Stage::Checking);
    assert_eq!(add.request(), Step::CheckFile { path: "/srv/notes/My_First_Note.md".to_string() });
    let write = add.advance(Reply::Missing);
    assert_eq!(add.stage(), Stage::Writing);
    assert_eq!(
        write,
        Step::WriteFile {
            path: "/srv/notes/My_First_Note.md".to_string(),
            content: "---\ntitle: My First Note\n---\n\n".to_string(),
        }
    );
    let insert = add.advance(Reply::Written);
    assert_eq!(add.stage(), Stage::Inserting);
    assert_eq!(
        insert,
        Step::InsertRow { title: "My First Note".to_string(), slug: "My_First_Note".to_string() }
    );
    let end = add.advance(Reply::Inserted);
    assert_eq!(add.stage(), Stage::Finished);
    assert_eq!(end, Step::Finish(Ok("/srv/notes/My_First_Note.md".to_string())));
}

#[test]
fn creation_ends_at_once_where_the_file_is_there() {
    let mut add = add_note("x".to_string(), &config());
    assert_eq!(add.advance(Reply::Exists), Step::Finish(Ok("/srv/notes/x.md".to_string())));
    assert_eq!(add.stage(), Stage::Finished);
}

#[test]
fn failed_write_is_reported_and_no_row_is_asked_for() {
    let mut shelf = Shelf::new();
    shelf.write_fault = Some("permission denied".to_string());
    let result = shelf.create("A");
    assert_eq!(result, Err(StoreError::File("permission denied".to_string())));
    assert!(shelf.files.is_empty());
    assert!(shelf.rows.is_empty());
    assert_eq!(result.unwrap_err().message(), "Failed to write note: permission denied");
}

#[test]
fn failed_insert_is_reported_and_the_file_stays() {
    let mut shelf = Shelf::new();
    shelf.insert_fault = Some("database is locked".to_string());
    let result = shelf.create("A");
    assert_eq!(result, Err(StoreError::Index("database is locked".to_string())));
    assert!(shelf.file("/srv/notes/A.md").is_some());
    assert!(shelf.rows.is_empty());
    assert_eq!(
        result.unwrap_err().message(),
        "Failed to insert note into database: database is locked"
    );
}

#[test]
fn reply_out_of_turn_changes_nothing() {
    let mut add = add_note("x".to_string(), &config());
    let check = Step::CheckFile { path: "/srv/notes/x.md".to_string() };
    assert_eq!(add.advance(Reply::Written), check);
    assert_eq!(add.advance(Reply::Inserted), check);
    assert_eq!(add.advance(Reply::InsertFailed("no".to_string())), check);
    assert_eq!(add.stage(), Stage::Checking);
    add.advance(Reply::Missing);
    let write = add.request();
    assert_eq!(add.advance(Reply::Exists), write);
    assert_eq!(add.advance(Reply::Inserted), write);
    assert_eq!(add.stage(), Stage::Writing);
    add.advance(Reply::Written);
    let insert = add.request();
    assert_eq!(add.advance(Reply::Written), insert);
    assert_eq!(add.advance(Reply::WriteFailed("no".to_string())), insert);
    assert_eq!(add.stage(), Stage::Inserting);
}

#[test]
fn finished_creation_stays_finished() {
    let mut add = add_note("x".to_string(), &config());
    add.advance(Reply::Missing);
    let end = add.advance(Reply::WriteFailed("disk full".to_string()));
    assert_eq!(end, Step::Finish(Err(StoreError::File("disk full".to_string()))));
    assert_eq!(add.advance(Reply::Written), end);
    assert_eq!(add.advance(Reply::Missing), end);
    assert_eq!(add.request(), end);
}

#[test]
fn error_can_be_copied() {
    let error = StoreError::Index("gone".to_string());
    assert_eq!(error.clone(), error);
    let other = StoreError::File("gone".to_string());
    assert_eq!(other.clone(), other);
    assert_ne!(error, other);
}
