use nottes::path::{database_dir, database_path, expand, note_path, resolve, Config, BASE_DIR};
use nottes::slug::{is_whitespace, slug_of, SEPARATOR};

fn config(base_dir: &str, home: Option<&str>) -> Config {
    Config { base_dir: base_dir.to_string(), home: home.map(|h| h.to_string()) }
}

#[test]
fn slug_replaces_each_space() {
    assert_eq!(slug_of("My First Note"), "My_First_Note");
}

#[test]
fn slug_collapses_a_run_of_whitespace() {
    assert_eq!(slug_of("a  \t\n b"), "a_b");
    assert_eq!(slug_of("a   b    c"), "a_b_c");
}

#[test]
fn slug_keeps_whitespace_at_the_ends_as_one_separator() {
    assert_eq!(slug_of("  a  "), "_a_");
    assert_eq!(slug_of(" "), "_");
    assert_eq!(slug_of("\t \t"), "_");
}

#[test]
fn slug_of_the_empty_title_is_empty() {
    assert_eq!(slug_of(""), "");
}

#[test]
fn slug_keeps_case_and_punctuation() {
    assert_eq!(slug_of("Hello, World! (v2.0)"), "Hello,_World!_(v2.0)");
    assert_eq!(slug_of("a_b"), "a_b");
    assert_eq!(slug_of("ÄÖ ü"), "ÄÖ_ü");
}

#[test]
fn slug_knows_whitespace_beyond_ascii() {
    assert_eq!(slug_of("a\u{00A0}b"), "a_b");
    assert_eq!(slug_of("a\u{3000}\u{2003}b"), "a_b");
    assert_eq!(slug_of("a\u{200B}b"), "a\u{200B}b");
}

#[test]
fn whitespace_is_what_the_standard_library_calls_so() {
    let mut n: u32 = 0;
    while n <= 0x3100 {
        if let Some(c) = char::from_u32(n) {
            assert_eq!(is_whitespace(c), c.is_whitespace(), "code point {}", n);
        }
        n += 1;
    }
    assert!(!is_whitespace(SEPARATOR));
    assert!(!is_whitespace('\u{10FFFF}'));
}

#[test]
fn slug_is_the_same_each_time() {
    let cfg = config("~/.nottes", Some("/home/ada"));
    let first = resolve("One  more note", &cfg);
    let second = resolve("One  more note", &cfg);
    assert_eq!(first, second);
    assert_eq!(first.0, "One_more_note");
    assert_eq!(first.1, "/home/ada/.nottes/One_more_note.md");
}

#[test]
fn resolve_gives_slug_and_path() {
    let cfg = config("/srv/notes", None);
    let (slug, path) = resolve("My First Note", &cfg);
    assert_eq!(slug, "My_First_Note");
    assert_eq!(path, "/srv/notes/My_First_Note.md");
}

#[test]
fn resolve_accepts_the_empty_title() {
    let cfg = config("/srv/notes", None);
    let (slug, path) = resolve("", &cfg);
    assert_eq!(slug, "");
    assert_eq!(path, "/srv/notes/.md");
}

#[test]
fn path_fills_in_the_home_directory() {
    let cfg = config("~/.nottes", Some("/home/ada"));
    assert_eq!(note_path("todo", &cfg), "/home/ada/.nottes/todo.md");
    let bare = config("~", Some("/home/ada"));
    assert_eq!(note_path("todo", &bare), "/home/ada/todo.md");
}

#[test]
fn path_without_a_home_directory_keeps_the_tilde() {
    let cfg = config("~/.nottes", None);
    assert_eq!(note_path("todo", &cfg), "~/.nottes/todo.md");
}

#[test]
fn path_of_another_users_home_is_left_alone() {
    let cfg = config("~bob/notes", Some("/home/ada"));
    assert_eq!(note_path("todo", &cfg), "~bob/notes/todo.md");
}

#[test]
fn expand_replaces_a_leading_tilde() {
    assert_eq!(expand("~/a/b", Some("/home/ada")), "/home/ada/a/b");
    assert_eq!(expand("~", Some("/home/ada")), "/home/ada");
}

#[test]
fn expand_leaves_other_text_alone() {
    assert_eq!(expand("/a/~/b", Some("/home/ada")), "/a/~/b");
    assert_eq!(expand("a~", Some("/home/ada")), "a~");
    assert_eq!(expand("", Some("/home/ada")), "");
    assert_eq!(expand("~ada/x", Some("/home/ada")), "~ada/x");
    assert_eq!(expand("~/a", None), "~/a");
}

#[test]
fn expand_takes_a_backslash_for_no_separator() {
    assert_eq!(expand("~\\notes", Some("/home/ada")), "~\\notes");
    assert_eq!(expand("~\\", Some("C:\\Users\\ada")), "~\\");
}

#[test]
fn database_lies_under_the_base_directory() {
    let cfg = config("~/.nottes", Some("/home/ada"));
    assert_eq!(database_dir(&cfg), "/home/ada/.nottes/.db");
    assert_eq!(database_path(&cfg), "/home/ada/.nottes/.db/nottes.db");
    let plain = config("/srv/notes", None);
    assert_eq!(database_path(&plain), "/srv/notes/.db/nottes.db");
}

#[test]
fn usual_configuration_has_the_usual_base_directory() {
    let cfg = Config::new(Some("/home/ada".to_string()));
    assert_eq!(cfg.base_dir, BASE_DIR);
    assert_eq!(cfg.base_dir, "~/.nottes");
    assert_eq!(cfg.home, Some("/home/ada".to_string()));
    assert_eq!(note_path("x", &cfg), "/home/ada/.nottes/x.md");
}
