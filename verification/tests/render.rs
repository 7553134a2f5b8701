use nottes::note::Note;
use nottes::render::{column_widths, header_cells, row_cells, Width, HIGHLIGHT_SYMBOL, TITLE};
use nottes::selector::NotesTable;

fn note(id: i64, title: &str, slug: &str) -> Note {
    Note {
        id,
        title: title.to_string(),
        slug: slug.to_string(),
        created_at: "2024-05-01 10:00:00".to_string(),
        path: format!("/notes/{}.md", slug),
    }
}

#[test]
fn header_names_the_four_columns() {
    assert_eq!(header_cells(), vec!["ID", "Title", "Created At", "Slug"]);
}

#[test]
fn columns_have_their_widths() {
    assert_eq!(
        column_widths(),
        vec![Width::Length(5), Width::Min(20), Width::Length(20), Width::Min(15)]
    );
}

#[test]
fn line_of_a_note_has_number_title_moment_and_slug() {
    let cells = row_cells(&note(42, "My First Note", "My_First_Note"));
    assert_eq!(cells, vec!["42", "My First Note", "2024-05-01 10:00:00", "My_First_Note"]);
}

#[test]
fn frame_has_one_line_for_each_candidate() {
    let mut table = NotesTable::new(vec![note(1, "a", "a"), note(20, "b c", "b_c")]);
    table.next();
    let frame = table.frame();
    assert_eq!(frame.header, header_cells());
    assert_eq!(frame.widths, column_widths());
    assert_eq!(
        frame.rows,
        vec![
            vec!["1", "a", "2024-05-01 10:00:00", "a"],
            vec!["20", "b c", "2024-05-01 10:00:00", "b_c"],
        ]
    );
    assert_eq!(frame.highlighted, Some(1));
}

#[test]
fn frame_without_candidates_has_no_line() {
    let frame = NotesTable::new(Vec::new()).frame();
    assert!(frame.rows.is_empty());
    assert_eq!(frame.highlighted, None);
    assert_eq!(frame.header.len(), 4);
}

#[test]
fn table_is_titled_with_its_keys() {
    assert!(TITLE.starts_with("Notes"));
    assert!(TITLE.contains("q to quit"));
    assert_eq!(HIGHLIGHT_SYMBOL, ">> ");
}
