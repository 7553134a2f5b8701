use nottes::note::Note;
use nottes::selector::{Event, Key};
use nottes::session::{run_notes_ui, Ask, Phase, Session, Told};

fn note(id: i64, title: &str) -> Note {
    Note {
        id,
        title: title.to_string(),
        slug: title.to_string(),
        created_at: "2024-05-01 10:00:00".to_string(),
        path: format!("/notes/{}.md", title),
    }
}

fn browsing() -> Session {
    let mut session = run_notes_ui(vec![note(1, "a"), note(2, "b"), note(3, "c")]);
    assert_eq!(session.advance(Told::Done), Ask::Show);
    session
}

#[test]
fn sitting_begins_with_the_terminal() {
    let session = run_notes_ui(vec![note(1, "a")]);
    assert_eq!(session.phase(), Phase::Starting);
    assert_eq!(session.request(), Ask::Setup);
    assert_eq!(session.table().selected(), Some(0));
}

#[test]
fn chosen_note_is_opened_after_the_terminal_is_put_back() {
    let mut session = browsing();
    assert_eq!(session.advance(Told::Event(Event::Key(Key::Down))), Ask::Show);
    assert_eq!(session.advance(Told::Event(Event::Idle)), Ask::Show);
    assert_eq!(session.table().selected(), Some(1));
    assert_eq!(session.advance(Told::Event(Event::Key(Key::Enter))), Ask::Restore);
    assert_eq!(session.phase(), Phase::Restoring);
    assert_eq!(session.advance(Told::Done), Ask::Open("/notes/b.md".to_string()));
    assert_eq!(session.phase(), Phase::Finished);
}

#[test]
fn giving_up_puts_the_terminal_back_and_opens_nothing() {
    let mut session = browsing();
    assert_eq!(session.advance(Told::Event(Event::Key(Key::Char('q')))), Ask::Restore);
    assert_eq!(session.advance(Told::Done), Ask::Leave);
    let mut other = browsing();
    assert_eq!(other.advance(Told::Event(Event::Key(Key::Esc))), Ask::Restore);
    assert_eq!(other.advance(Told::Done), Ask::Leave);
}

#[test]
fn confirming_without_candidates_gives_up() {
    let mut session = run_notes_ui(Vec::new());
    assert_eq!(session.advance(Told::Done), Ask::Show);
    assert_eq!(session.advance(Told::Event(Event::Key(Key::Down))), Ask::Show);
    assert_eq!(session.advance(Told::Event(Event::Key(Key::Enter))), Ask::Restore);
    assert_eq!(session.advance(Told::Done), Ask::Leave);
}

#[test]
fn failed_setup_still_puts_the_terminal_back() {
    let mut session = run_notes_ui(vec![note(1, "a")]);
    assert_eq!(session.advance(Told::Failed("no tty".to_string())), Ask::Restore);
    assert_eq!(session.advance(Told::Done), Ask::Fail("no tty".to_string()));
}

#[test]
fn failure_while_browsing_puts_the_terminal_back() {
    let mut session = browsing();
    assert_eq!(session.advance(Told::Failed("broken pipe".to_string())), Ask::Restore);
    assert_eq!(
        session.advance(Told::Failed("still broken".to_string())),
        Ask::Fail("broken pipe".to_string())
    );
}

#[test]
fn failed_restore_is_reported() {
    let mut session = browsing();
    assert_eq!(session.advance(Told::Event(Event::Key(Key::Enter))), Ask::Restore);
    assert_eq!(
        session.advance(Told::Failed("cannot leave raw mode".to_string())),
        Ask::Fail("cannot leave raw mode".to_string())
    );
}

#[test]
fn what_is_told_out_of_turn_changes_nothing() {
    let mut session = run_notes_ui(vec![note(1, "a"), note(2, "b")]);
    assert_eq!(session.advance(Told::Event(Event::Key(Key::Enter))), Ask::Setup);
    assert_eq!(session.phase(), Phase::Starting);
    assert_eq!(session.advance(Told::Done), Ask::Show);
    assert_eq!(session.advance(Told::Done), Ask::Show);
    assert_eq!(session.phase(), Phase::Browsing);
    assert_eq!(session.advance(Told::Event(Event::Key(Key::Char('q')))), Ask::Restore);
    assert_eq!(session.advance(Told::Event(Event::Key(Key::Enter))), Ask::Restore);
    assert_eq!(session.table().selected(), Some(0));
}

#[test]
fn finished_sitting_stays_finished() {
    let mut session = browsing();
    session.advance(Told::Event(Event::Key(Key::Enter)));
    let end = session.advance(Told::Done);
    assert_eq!(end, Ask::Open("/notes/a.md".to_string()));
    assert_eq!(session.advance(Told::Event(Event::Key(Key::Char('q')))), end);
    assert_eq!(session.advance(Told::Failed("late".to_string())), end);
    assert_eq!(session.advance(Told::Done), end);
    assert_eq!(session.request(), end);
}
