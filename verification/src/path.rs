//! Where things live: the path of a note's file and of the index, derived
//! from the base directory.

use crate::slug::{slug_of, slugify};
use vstd::prelude::*;
use vstd::string::StringExecFns;

verus! {

/// The base directory that is used when the caller names no other.
pub const BASE_DIR: &'static str = "~/.nottes";

/// What every operation needs to know of its surroundings: the directory that
/// holds the notes, and the user's home directory if there is one.
pub struct Config {
    /// The directory of the notes. A leading `~` stands for the home directory.
    pub base_dir: String,
    /// The home directory, or `None` where the user has none.
    pub home: Option<String>,
}

/// A `Config` as contracts see it.
pub struct ConfigView {
    pub base_dir: Seq<char>,
    pub home: Option<Seq<char>>,
}

impl View for Config {
    type V = ConfigView;

    open spec fn view(&self) -> ConfigView {
        ConfigView {
            base_dir: self.base_dir@,
            home: match self.home {
                Some(h) => Some(h@),
                None => None,
            },
        }
    }
}

impl Config {
    /// The configuration with the usual base directory.
    pub fn new(home: Option<String>) -> (cfg: Config)
        ensures
            cfg.base_dir@ == BASE_DIR@,
            cfg.home == home,
    {
        Config { base_dir: BASE_DIR.to_owned(), home }
    }
}

/// Whether `input` begins with a tilde that stands for the home directory:
/// one that ends the text or is followed by a slash.
pub open spec fn names_home(input: Seq<char>) -> bool {
    input.len() > 0 && input[0] == '~' && (input.len() == 1 || input[1] == '/')
}

/// `input` with a leading tilde replaced by the home directory. Text that does
/// not begin with such a tilde is left as it is, and so is any text where there
/// is no home directory.
pub open spec fn expand_home(input: Seq<char>, home: Option<Seq<char>>) -> Seq<char> {
    match home {
        Some(h) if names_home(input) => h + input.skip(1),
        _ => input,
    }
}

/// The view of an optional string slice.
pub open spec fn view_of(text: Option<&str>) -> Option<Seq<char>> {
    match text {
        Some(t) => Some(t@),
        None => None,
    }
}

/// Whether `input` begins with a tilde and a backslash.
pub open spec fn tilde_backslash(input: Seq<char>) -> bool {
    input.len() >= 2 && input[0] == '~' && input[1] == '\\'
}

/// `shellexpand::tilde_with_context`, called with a function that returns
/// `home`. Assumed, as its source has it: where `input` begins with a tilde
/// that is followed by a slash or by nothing, and `home` is there, the result
/// is `home` followed by what comes after the tilde; otherwise the result is
/// `input`. Where a backslash follows the tilde the outcome differs between
/// platforms, and such an input is not handed over.
#[verifier::external_body]
fn tilde_with_home(input: &str, home: Option<&str>) -> (out: String)
    requires
        !tilde_backslash(input@),
    ensures
        out@ == expand_home(input@, view_of(home)),
{
    shellexpand::tilde_with_context(input, || home).into_owned()
}

/// Replaces a leading tilde in `input` by the home directory. A backslash
/// after the tilde is no separator: such a text is left as it is.
pub fn expand(input: &str, home: Option<&str>) -> (out: String)
    ensures
        out@ == expand_home(input@, view_of(home)),
{
    let n: usize = input.unicode_len();
    if n >= 2 && input.get_char(0) == '~' && input.get_char(1) == '\\' {
        input.to_owned()
    } else {
        tilde_with_home(input, home)
    }
}

/// The file of the note with the slug `slug` under `base_dir`, as it is
/// written before the home directory is filled in.
pub open spec fn file_under(base_dir: Seq<char>, slug: Seq<char>) -> Seq<char> {
    base_dir + "/"@ + slug + ".md"@
}

/// The path of the note with the slug `slug`. It is never stored: it is
/// derived from the slug wherever it is needed.
pub open spec fn path_of(slug: Seq<char>, cfg: ConfigView) -> Seq<char> {
    expand_home(file_under(cfg.base_dir, slug), cfg.home)
}

/// The path of a note is the base directory with the home directory filled
/// in, then a slash, the slug and the extension.
pub proof fn law_path_lies_under_the_base(slug: Seq<char>, cfg: ConfigView)
    ensures
        path_of(slug, cfg) == expand_home(cfg.base_dir, cfg.home) + "/"@ + slug + ".md"@,
{
    reveal_strlit("/");
    let file = file_under(cfg.base_dir, slug);
    if cfg.base_dir.len() > 0 {
        assert(file[0] == cfg.base_dir[0]);
        if cfg.base_dir.len() > 1 {
            assert(file[1] == cfg.base_dir[1]);
        } else {
            assert(file[1] == '/');
        }
    } else {
        assert(file[0] == '/');
    }
    if let Some(home) = cfg.home {
        if names_home(cfg.base_dir) {
            assert(home + file.skip(1) =~= home + cfg.base_dir.skip(1) + "/"@ + slug + ".md"@);
        }
    }
}

/// The home directory of `cfg` as a string slice.
fn home_of(cfg: &Config) -> (home: Option<&str>)
    ensures
        view_of(home) == cfg@.home,
{
    match &cfg.home {
        Some(h) => Some(h.as_str()),
        None => None,
    }
}

/// Computes the path of the note with the slug `slug`.
pub fn note_path(slug: &str, cfg: &Config) -> (path: String)
    ensures
        path@ == path_of(slug@, cfg@),
{
    let mut file = cfg.base_dir.clone();
    file.append("/");
    file.append(slug);
    file.append(".md");
    expand(file.as_str(), home_of(cfg))
}

/// Whether `slug` and `path` are what the title `title` resolves to.
pub open spec fn resolves_to(
    title: Seq<char>,
    cfg: ConfigView,
    slug: Seq<char>,
    path: Seq<char>,
) -> bool {
    slug == slugify(title) && path == path_of(slugify(title), cfg)
}

/// Resolving is a function of the title and the configuration: whatever it
/// gives for them at one time, it gives at any other.
pub proof fn law_resolve_is_deterministic(
    title: Seq<char>,
    cfg: ConfigView,
    first: (Seq<char>, Seq<char>),
    second: (Seq<char>, Seq<char>),
)
    requires
        resolves_to(title, cfg, first.0, first.1),
        resolves_to(title, cfg, second.0, second.1),
    ensures
        first == second,
{
}

/// Maps a title to the slug and the path of its note.
pub fn resolve(title: &str, cfg: &Config) -> (place: (String, String))
    ensures
        resolves_to(title@, cfg@, place.0@, place.1@),
{
    let slug = slug_of(title);
    let path = note_path(slug.as_str(), cfg);
    (slug, path)
}

/// The directory that holds the index.
pub open spec fn index_dir_of(cfg: ConfigView) -> Seq<char> {
    expand_home(cfg.base_dir, cfg.home) + "/.db"@
}

/// The file that holds the index.
pub open spec fn index_path_of(cfg: ConfigView) -> Seq<char> {
    index_dir_of(cfg) + "/nottes.db"@
}

/// Computes the directory that holds the index, which has to exist before
/// the index is opened.
pub fn database_dir(cfg: &Config) -> (dir: String)
    ensures
        dir@ == index_dir_of(cfg@),
{
    let mut dir = expand(cfg.base_dir.as_str(), home_of(cfg));
    dir.append("/.db");
    dir
}

/// Computes the path of the file that holds the index.
pub fn database_path(cfg: &Config) -> (path: String)
    ensures
        path@ == index_path_of(cfg@),
{
    let mut path = database_dir(cfg);
    path.append("/nottes.db");
    path
}

} // verus!
