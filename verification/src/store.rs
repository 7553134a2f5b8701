//! The note store as a whole: the files and the index together, and what
//! creating a note does to them.
//!
//! The files and the index are not in this crate's hands. What is stated here
//! holds where they behave as files and an index do: a file that was written
//! is there, a row that was added is the last row, its number is greater than
//! every number before it, and either of the two may fail, in which case
//! nothing has changed.

use crate::create::{
    after, request_of, start_of, template_of, AddView, ErrorView, ReplyView, Stage, StepView,
};
use crate::index::{by_age, law_by_age_reverses_growth, law_growth_is_by_age};
use crate::note::{notes_of, RowView};
use crate::path::{path_of, ConfigView};
use crate::slug::slugify;
use crate::text::text_before;
use vstd::prelude::*;

verus! {

/// The files and the index.
pub struct World {
    /// What each file holds, by its path.
    pub files: Map<Seq<char>, Seq<char>>,
    /// The rows of the index, in the order in which they were added.
    pub rows: Seq<RowView>,
    /// The greatest number that the index has given to a row so far.
    pub last_id: int,
}

/// What the surroundings are like while one note is created.
pub struct Turn {
    /// Why a file cannot be written, if it cannot.
    pub write_fault: Option<Seq<char>>,
    /// Why a row cannot be added, if it cannot.
    pub insert_fault: Option<Seq<char>>,
    /// The moment, as the index writes it.
    pub now: Seq<char>,
}

/// What doing a step makes of the files and the index, and what is reported
/// back. The step that ends a creation asks for nothing: it leaves them as
/// they are, and what is reported of it is never read.
pub open spec fn answer(world: World, step: StepView, turn: Turn) -> (World, ReplyView) {
    match step {
        StepView::CheckFile { path } => if world.files.contains_key(path) {
            (world, ReplyView::Exists)
        } else {
            (world, ReplyView::Missing)
        },
        StepView::WriteFile { path, content } => match turn.write_fault {
            Some(cause) => (world, ReplyView::WriteFailed(cause)),
            None => (World { files: world.files.insert(path, content), ..world }, ReplyView::Written),
        },
        StepView::InsertRow { title, slug } => match turn.insert_fault {
            Some(cause) => (world, ReplyView::InsertFailed(cause)),
            None => (
                World {
                    rows: world.rows.push(
                        RowView { id: world.last_id + 1, title, slug, created_at: turn.now },
                    ),
                    last_id: world.last_id + 1,
                    ..world
                },
                ReplyView::Inserted,
            ),
        },
        StepView::Finish(_) => (world, ReplyView::Exists),
    }
}

/// A creation carried on for at most `rounds` steps, each step done as it is
/// asked for and answered as it went.
pub open spec fn run(add: AddView, world: World, turn: Turn, rounds: nat) -> (AddView, World)
    decreases rounds,
{
    if rounds == 0 || add.stage == Stage::Finished {
        (add, world)
    } else {
        let (next, reply) = answer(world, request_of(add), turn);
        run(after(add, reply), next, turn, (rounds - 1) as nat)
    }
}

/// Creating a note with the title `title`: the files and the index
/// afterwards, and what is handed out.
pub open spec fn create(world: World, title: Seq<char>, cfg: ConfigView, turn: Turn) -> (
    World,
    Result<Seq<char>, ErrorView>,
) {
    let (add, next) = run(start_of(title, cfg), world, turn, 3);
    (
        next,
        match add.error {
            Some(error) => Err(error),
            None => Ok(add.path),
        },
    )
}

/// Whether the files and the index agree: every row has its file, no two
/// rows share a slug, and the rows are numbered upwards, none beyond the last
/// number given.
pub open spec fn consistent(world: World, cfg: ConfigView) -> bool {
    &&& forall|i: int|
        0 <= i < world.rows.len() ==> world.files.contains_key(
            path_of(#[trigger] world.rows[i].slug, cfg),
        )
    &&& forall|i: int, j: int|
        0 <= i < j < world.rows.len() ==> world.rows[i].slug != world.rows[j].slug
    &&& forall|i: int, j: int| 0 <= i < j < world.rows.len() ==> world.rows[i].id < world.rows[j].id
    &&& forall|i: int| 0 <= i < world.rows.len() ==> (#[trigger] world.rows[i]).id <= world.last_id
}

/// Whether no row of `rows` was made at an earlier moment than a row before
/// it.
pub open spec fn in_time(rows: Seq<RowView>) -> bool {
    forall|i: int, j: int|
        0 <= i < j < rows.len() ==> !text_before(rows[j].created_at, rows[i].created_at)
}

/// Three steps bring every creation to its end.
pub proof fn law_create_finishes(world: World, title: Seq<char>, cfg: ConfigView, turn: Turn)
    ensures
        run(start_of(title, cfg), world, turn, 3).0.stage == Stage::Finished,
{
    reveal_with_fuel(run, 4);
}

/// What creating a note comes to. Where the file is there already, nothing
/// changes and its path is handed out. Where the file cannot be written,
/// nothing changes and the failure is handed out. Where the row cannot be
/// added, the file stays and the failure is handed out. Otherwise the file
/// holds the template, the index has one more row, which is its last, and the
/// path is handed out.
pub proof fn law_create(world: World, title: Seq<char>, cfg: ConfigView, turn: Turn)
    ensures
        ({
            let slug = slugify(title);
            let path = path_of(slug, cfg);
            let written = World { files: world.files.insert(path, template_of(title)), ..world };
            let row = RowView { id: world.last_id + 1, title, slug, created_at: turn.now };
            create(world, title, cfg, turn) == if world.files.contains_key(path) {
                (world, Ok::<Seq<char>, ErrorView>(path))
            } else if let Some(cause) = turn.write_fault {
                (world, Err::<Seq<char>, ErrorView>(ErrorView::File(cause)))
            } else if let Some(cause) = turn.insert_fault {
                (written, Err::<Seq<char>, ErrorView>(ErrorView::Index(cause)))
            } else {
                (
                    World { rows: world.rows.push(row), last_id: world.last_id + 1, ..written },
                    Ok::<Seq<char>, ErrorView>(path),
                )
            }
        }),
{
    reveal_with_fuel(run, 4);
}

/// Creating a note a second time hands out the same path and changes
/// nothing, whatever would fail by then. The note's file is there, and where
/// the files and the index agreed before, at most one row has the note's slug.
pub proof fn law_create_is_idempotent(
    world: World,
    title: Seq<char>,
    cfg: ConfigView,
    first: Turn,
    second: Turn,
)
    requires
        create(world, title, cfg, first).1 is Ok,
    ensures
        ({
            let (once, path) = create(world, title, cfg, first);
            let (twice, again) = create(once, title, cfg, second);
            &&& path == Ok::<Seq<char>, ErrorView>(path_of(slugify(title), cfg))
            &&& again == path
            &&& twice == once
            &&& once.files.contains_key(path_of(slugify(title), cfg))
            &&& consistent(world, cfg) ==> forall|i: int, j: int|
                0 <= i < twice.rows.len() && 0 <= j < twice.rows.len() && twice.rows[i].slug
                    == slugify(title) && twice.rows[j].slug == slugify(title) ==> i == j
        }),
{
    law_create(world, title, cfg, first);
    let once = create(world, title, cfg, first).0;
    law_create(once, title, cfg, second);
    if consistent(world, cfg) {
        law_create_keeps_agreement(world, title, cfg, first);
    }
}

/// Creating a note leaves the files and the index in agreement, also where
/// it fails: a row is never there without its file.
pub proof fn law_create_keeps_agreement(
    world: World,
    title: Seq<char>,
    cfg: ConfigView,
    turn: Turn,
)
    requires
        consistent(world, cfg),
    ensures
        consistent(create(world, title, cfg, turn).0, cfg),
{
    law_create(world, title, cfg, turn);
    let next = create(world, title, cfg, turn).0;
    let path = path_of(slugify(title), cfg);
    if next.rows.len() > world.rows.len() {
        assert(!world.files.contains_key(path));
        assert forall|i: int, j: int| 0 <= i < j < next.rows.len() implies next.rows[i].slug
            != next.rows[j].slug && next.rows[i].id < next.rows[j].id by {
            assert(next.rows[i] == world.rows[i]);
            if j < world.rows.len() {
                assert(next.rows[j] == world.rows[j]);
            } else {
                assert(world.files.contains_key(path_of(world.rows[i].slug, cfg)));
            }
        }
        assert forall|i: int| 0 <= i < next.rows.len() implies next.files.contains_key(
            path_of(#[trigger] next.rows[i].slug, cfg),
        ) && next.rows[i].id <= next.last_id by {
            if i < world.rows.len() {
                assert(next.rows[i] == world.rows[i]);
            }
        }
    }
}

/// Where time does not run backwards, the rows stay in the order of their
/// moments when a note is created.
pub proof fn law_create_keeps_time(world: World, title: Seq<char>, cfg: ConfigView, turn: Turn)
    requires
        in_time(world.rows),
        forall|i: int|
            0 <= i < world.rows.len() ==> !text_before(turn.now, #[trigger] world.rows[i].created_at),
    ensures
        in_time(create(world, title, cfg, turn).0.rows),
{
    law_create(world, title, cfg, turn);
    let next = create(world, title, cfg, turn).0;
    if next.rows.len() > world.rows.len() {
        assert forall|i: int, j: int| 0 <= i < j < next.rows.len() implies !text_before(
            next.rows[j].created_at,
            next.rows[i].created_at,
        ) by {
            assert(next.rows[i] == world.rows[i]);
            if j < world.rows.len() {
                assert(next.rows[j] == world.rows[j]);
            }
        }
    }
}

/// Of an index that agrees with the files and whose rows are in the order of
/// their moments, the notes by age are the rows turned round: the note that
/// was created last comes first.
pub proof fn law_last_created_comes_first(world: World, cfg: ConfigView)
    requires
        consistent(world, cfg),
        in_time(world.rows),
    ensures
        by_age(notes_of(world.rows, cfg)) == notes_of(world.rows, cfg).reverse(),
{
    let notes = notes_of(world.rows, cfg);
    assert forall|i: int, j: int| 0 <= i < j < notes.len() implies notes[i].id < notes[j].id
        && !text_before(notes[j].created_at, notes[i].created_at) by {}
    law_growth_is_by_age(notes);
    law_by_age_reverses_growth(notes);
}

} // verus!
