//! What the index answers: all notes, the newest first, and the notes whose
//! title holds a given text.

use crate::note::{note_of, notes_of, row_views, views, Note, NoteRow, NoteView, RowView};
use crate::path::{path_of, resolve, Config, ConfigView};
use crate::slug::slugify;
use crate::text::{
    chars_of, comes_before, contains_text, lemma_text_order_is_strict,
    lemma_text_order_is_total, lemma_text_order_is_transitive, stands_in, text_before,
};
use vstd::prelude::*;

verus! {

/// Whether `a` is newer than `b`: made at a later moment, or at the same
/// moment and with the greater number.
pub open spec fn newer(a: NoteView, b: NoteView) -> bool {
    text_before(b.created_at, a.created_at) || (a.created_at == b.created_at && a.id > b.id)
}

/// Whether no note in `notes` stands before a newer one.
pub open spec fn newest_first(notes: Seq<NoteView>) -> bool {
    forall|i: int, j: int| 0 <= i < j < notes.len() ==> !newer(notes[j], notes[i])
}

/// Where `note` enters `list`: before the first note that it is newer than,
/// and at the end where there is none.
pub open spec fn place_of(list: Seq<NoteView>, note: NoteView) -> int
    decreases list.len(),
{
    if list.len() == 0 || newer(note, list[0]) {
        0
    } else {
        1 + place_of(list.skip(1), note)
    }
}

/// The notes ordered by age, the newest first. Notes of which none is newer
/// than the other keep the order that they had.
pub open spec fn by_age(notes: Seq<NoteView>) -> Seq<NoteView>
    decreases notes.len(),
{
    if notes.len() == 0 {
        notes
    } else {
        let earlier = by_age(notes.drop_last());
        earlier.insert(place_of(earlier, notes.last()), notes.last())
    }
}

/// The notes whose title holds `text`, in the order that they had.
pub open spec fn titled(notes: Seq<NoteView>, text: Seq<char>) -> Seq<NoteView> {
    notes.filter(|note: NoteView| contains_text(note.title, text))
}

/// Being newer is a strict order: no note is newer than itself, two notes are
/// not each newer than the other, and newer than newer is newer.
pub proof fn lemma_newer_is_an_order(a: NoteView, b: NoteView, c: NoteView)
    ensures
        !newer(a, a),
        !(newer(a, b) && newer(b, a)),
        newer(a, b) && newer(b, c) ==> newer(a, c),
{
    lemma_text_order_is_strict(a.created_at, b.created_at);
    lemma_text_order_is_strict(b.created_at, a.created_at);
    if newer(a, b) && newer(b, c) {
        if text_before(b.created_at, a.created_at) && text_before(c.created_at, b.created_at) {
            lemma_text_order_is_transitive(c.created_at, b.created_at, a.created_at);
        }
    }
}

/// The place of a note in a list is within the list or at its end; the notes
/// before it are not older than the note, and the one at it is.
pub proof fn lemma_place_of(list: Seq<NoteView>, note: NoteView)
    ensures
        0 <= place_of(list, note) <= list.len(),
        forall|k: int| 0 <= k < place_of(list, note) ==> !newer(note, #[trigger] list[k]),
        place_of(list, note) < list.len() ==> newer(note, list[place_of(list, note)]),
    decreases list.len(),
{
    if list.len() == 0 || newer(note, list[0]) {
    } else {
        let rest = list.skip(1);
        lemma_place_of(rest, note);
        assert forall|k: int| 0 <= k < place_of(list, note) implies !newer(
            note,
            #[trigger] list[k],
        ) by {
            if k > 0 {
                assert(list[k] == rest[k - 1]);
            }
        }
    }
}

/// The place of a note in a list is the only place with these two properties.
proof fn lemma_place_found(list: Seq<NoteView>, note: NoteView, place: int)
    requires
        0 <= place <= list.len(),
        forall|k: int| 0 <= k < place ==> !newer(note, #[trigger] list[k]),
        place < list.len() ==> newer(note, list[place]),
    ensures
        place_of(list, note) == place,
    decreases list.len(),
{
    if place > 0 {
        let rest = list.skip(1);
        assert(!newer(note, list[0]));
        assert forall|k: int| 0 <= k < place - 1 implies !newer(note, #[trigger] rest[k]) by {
            assert(rest[k] == list[k + 1]);
        }
        lemma_place_found(rest, note, place - 1);
    }
}

/// Ordering by age gives the newest note first.
pub proof fn law_by_age_is_newest_first(notes: Seq<NoteView>)
    ensures
        newest_first(by_age(notes)),
    decreases notes.len(),
{
    if notes.len() > 0 {
        let earlier = by_age(notes.drop_last());
        let note = notes.last();
        let place = place_of(earlier, note);
        let all = by_age(notes);
        law_by_age_is_newest_first(notes.drop_last());
        lemma_place_of(earlier, note);
        assert forall|i: int, j: int| 0 <= i < j < all.len() implies !newer(all[j], all[i]) by {
            if j == place {
                assert(all[i] == earlier[i]);
            } else if i == place {
                assert(all[j] == earlier[j - 1]);
                lemma_newer_is_an_order(all[j], note, earlier[place]);
                if j - 1 > place {
                    assert(!newer(earlier[j - 1], earlier[place]));
                }
            } else {
                let before_i = if i < place {
                    i
                } else {
                    i - 1
                };
                let before_j = if j < place {
                    j
                } else {
                    j - 1
                };
                assert(all[i] == earlier[before_i]);
                assert(all[j] == earlier[before_j]);
            }
        }
    }
}

/// Where the newest note stands first, no note stands before one of a later
/// moment.
pub proof fn law_newest_first_goes_by_moment(notes: Seq<NoteView>)
    requires
        newest_first(notes),
    ensures
        forall|i: int, j: int|
            0 <= i < j < notes.len() ==> !text_before(notes[i].created_at, notes[j].created_at),
{
    assert forall|i: int, j: int| 0 <= i < j < notes.len() implies !text_before(
        notes[i].created_at,
        notes[j].created_at,
    ) by {
        assert(!newer(notes[j], notes[i]));
    }
}

/// Ordering by age neither adds a note nor loses one.
pub proof fn law_by_age_keeps_the_notes(notes: Seq<NoteView>)
    ensures
        by_age(notes).len() == notes.len(),
        by_age(notes).to_multiset() == notes.to_multiset(),
    decreases notes.len(),
{
    if notes.len() > 0 {
        let earlier = by_age(notes.drop_last());
        let note = notes.last();
        law_by_age_keeps_the_notes(notes.drop_last());
        lemma_place_of(earlier, note);
        vstd::seq_lib::to_multiset_insert(earlier, place_of(earlier, note), note);
        vstd::seq_lib::to_multiset_build(notes.drop_last(), note);
        assert(notes.drop_last().push(note) == notes);
    }
}

/// Where each note is newer than all that stand before it, as it is in an
/// index that numbers its rows upwards in a time that does not run backwards,
/// ordering by age turns the notes round: the last one comes first.
pub proof fn law_by_age_reverses_growth(notes: Seq<NoteView>)
    requires
        forall|i: int, j: int| 0 <= i < j < notes.len() ==> newer(notes[j], notes[i]),
    ensures
        by_age(notes) == notes.reverse(),
    decreases notes.len(),
{
    if notes.len() > 0 {
        let head = notes.drop_last();
        let note = notes.last();
        law_by_age_reverses_growth(head);
        let earlier = by_age(head);
        if earlier.len() > 0 {
            assert(earlier[0] == head[head.len() - 1]);
            assert(newer(note, earlier[0]));
        }
        assert(place_of(earlier, note) == 0);
        assert(earlier.insert(0, note) =~= notes.reverse());
    }
}

/// Rows that are numbered upwards, at moments of which none is earlier than
/// the one before, are each newer than all that stand before them.
pub proof fn law_growth_is_by_age(notes: Seq<NoteView>)
    requires
        forall|i: int, j: int|
            0 <= i < j < notes.len() ==> notes[i].id < notes[j].id && !text_before(
                notes[j].created_at,
                notes[i].created_at,
            ),
    ensures
        forall|i: int, j: int| 0 <= i < j < notes.len() ==> newer(notes[j], notes[i]),
{
    assert forall|i: int, j: int| 0 <= i < j < notes.len() implies newer(notes[j], notes[i]) by {
        lemma_text_order_is_total(notes[i].created_at, notes[j].created_at);
    }
}

/// Every note's title holds the empty text, so the empty text finds all notes.
pub proof fn law_empty_text_finds_all(notes: Seq<NoteView>)
    ensures
        titled(notes, Seq::empty()) == notes,
    decreases notes.len(),
{
    let empty = Seq::<char>::empty();
    let holds = |note: NoteView| contains_text(note.title, empty);
    reveal(Seq::filter);
    if notes.len() > 0 {
        law_empty_text_finds_all(notes.drop_last());
        let title = notes.last().title;
        assert(title.subrange(0, 0) =~= empty);
        assert(crate::text::occurs_at(title, empty, 0));
        assert(holds(notes.last()));
        assert(notes.drop_last().push(notes.last()) == notes);
    }
}

/// Every note that a text finds holds the text in its title, and is one of
/// the notes that were searched.
pub proof fn law_found_notes_hold_the_text(notes: Seq<NoteView>, text: Seq<char>)
    ensures
        forall|i: int|
            0 <= i < titled(notes, text).len() ==> contains_text(
                (#[trigger] titled(notes, text)[i]).title,
                text,
            ) && notes.contains(titled(notes, text)[i]),
{
    let holds = |note: NoteView| contains_text(note.title, text);
    assert forall|i: int| 0 <= i < titled(notes, text).len() implies contains_text(
        (#[trigger] titled(notes, text)[i]).title,
        text,
    ) && notes.contains(titled(notes, text)[i]) by {
        notes.lemma_filter_pred(holds, i);
        notes.lemma_filter_contains_rev(holds, notes.filter(holds)[i]);
    }
}

/// A text that no title holds finds no note.
pub proof fn law_unknown_text_finds_nothing(notes: Seq<NoteView>, text: Seq<char>)
    requires
        forall|i: int| 0 <= i < notes.len() ==> !contains_text(#[trigger] notes[i].title, text),
    ensures
        titled(notes, text).len() == 0,
    decreases notes.len(),
{
    reveal(Seq::filter);
    if notes.len() > 0 {
        law_unknown_text_finds_nothing(notes.drop_last(), text);
    }
}

/// Tells whether `a` is newer than `b`.
pub fn is_newer(a: &Note, b: &Note) -> (result: bool)
    ensures
        result == newer(a@, b@),
{
    comes_before(b.created_at.as_str(), a.created_at.as_str()) || (a.created_at == b.created_at
        && a.id > b.id)
}

/// All notes of the index, the newest first. `rows` are the rows of the
/// index, in any order; each note gets the path that its slug gives.
pub fn get_all_notes(rows: &Vec<NoteRow>, cfg: &Config) -> (notes: Vec<Note>)
    ensures
        views(notes@) == by_age(notes_of(row_views(rows@), cfg@)),
        newest_first(views(notes@)),
        views(notes@).to_multiset() == notes_of(row_views(rows@), cfg@).to_multiset(),
        notes@.len() == rows@.len(),
{
    let ghost all = notes_of(row_views(rows@), cfg@);
    let mut notes: Vec<Note> = Vec::new();
    let mut i: usize = 0;
    while i < rows.len()
        invariant
            i <= rows.len(),
            all == notes_of(row_views(rows@), cfg@),
            views(notes@) == by_age(all.take(i as int)),
        decreases rows.len() - i,
    {
        let note = rows[i].to_note(cfg);
        let mut place: usize = 0;
        while place < notes.len() && !is_newer(&note, &notes[place])
            invariant
                place <= notes.len(),
                forall|k: int| 0 <= k < place ==> !newer(note@, #[trigger] views(notes@)[k]),
            decreases notes.len() - place,
        {
            place = place + 1;
        }
        proof {
            let earlier = views(notes@);
            assert(all.take(i + 1).drop_last() == all.take(i as int));
            assert(all.take(i + 1).last() == note@);
            lemma_place_found(earlier, note@, place as int);
            assert(views(notes@.insert(place as int, note)) =~= earlier.insert(
                place as int,
                note@,
            ));
        }
        notes.insert(place, note);
        i = i + 1;
    }
    proof {
        assert(all.take(rows.len() as int) == all);
        law_by_age_is_newest_first(all);
        law_by_age_keeps_the_notes(all);
    }
    notes
}

/// The notes whose title holds `title`, character for character and with
/// upper and lower case told apart, in the order of `rows`. The empty text
/// finds every note.
pub fn get_notes_by_title(rows: &Vec<NoteRow>, title: &str, cfg: &Config) -> (notes: Vec<Note>)
    ensures
        views(notes@) == titled(notes_of(row_views(rows@), cfg@), title@),
{
    let ghost all = notes_of(row_views(rows@), cfg@);
    let ghost holds = |note: NoteView| contains_text(note.title, title@);
    let needle = chars_of(title);
    let mut notes: Vec<Note> = Vec::new();
    let mut i: usize = 0;
    proof {
        reveal(Seq::filter);
        assert(all.take(0).filter(holds) =~= views(notes@));
    }
    while i < rows.len()
        invariant
            i <= rows.len(),
            needle@ == title@,
            all == notes_of(row_views(rows@), cfg@),
            holds == |note: NoteView| contains_text(note.title, title@),
            views(notes@) == all.take(i as int).filter(holds),
        decreases rows.len() - i,
    {
        let hay = chars_of(rows[i].title.as_str());
        proof {
            reveal(Seq::filter);
            assert(all.take(i + 1).drop_last() == all.take(i as int));
            assert(all.take(i + 1).last() == all[i as int]);
            assert(all[i as int].title == hay@);
        }
        if stands_in(&hay, &needle) {
            let note = rows[i].to_note(cfg);
            proof {
                assert(views(notes@.push(note)) =~= views(notes@).push(note@));
            }
            notes.push(note);
        }
        i = i + 1;
    }
    proof {
        assert(all.take(rows.len() as int) == all);
    }
    notes
}

/// Whether the row at `at` is the first row of `rows` with the slug `slug`.
pub open spec fn first_with_slug(rows: Seq<RowView>, slug: Seq<char>, at: int) -> bool {
    &&& 0 <= at < rows.len()
    &&& rows[at].slug == slug
    &&& forall|k: int| 0 <= k < at ==> (#[trigger] rows[k]).slug != slug
}

/// The note that stands for a file without a row: it has the title, the slug
/// and the path, the number 0, which no row has, and no moment.
pub open spec fn unfiled(title: Seq<char>, cfg: ConfigView) -> NoteView {
    NoteView {
        id: 0,
        title,
        slug: slugify(title),
        created_at: Seq::empty(),
        path: path_of(slugify(title), cfg),
    }
}

/// The note that is there already under the title `title`: the note of the
/// first row that has the slug of the title, and where the index has no such
/// row, a note made up from the title alone. Its path is the path that the
/// title resolves to in either case.
pub fn existing_note(rows: &Vec<NoteRow>, title: &str, cfg: &Config) -> (note: Note)
    ensures
        note@.slug == slugify(title@),
        note@.path == path_of(slugify(title@), cfg@),
        forall|at: int|
            first_with_slug(row_views(rows@), slugify(title@), at) ==> note@ == note_of(
                row_views(rows@)[at],
                cfg@,
            ),
        (forall|at: int| 0 <= at < rows@.len() ==> (#[trigger] row_views(rows@)[at]).slug
            != slugify(title@)) ==> note@ == unfiled(title@, cfg@),
{
    let (slug, path) = resolve(title, cfg);
    let mut i: usize = 0;
    while i < rows.len()
        invariant
            i <= rows.len(),
            slug@ == slugify(title@),
            forall|k: int| 0 <= k < i ==> (#[trigger] row_views(rows@)[k]).slug != slug@,
        decreases rows.len() - i,
    {
        if rows[i].slug == slug {
            assert(row_views(rows@)[i as int] == rows@[i as int]@);
            return rows[i].to_note(cfg);
        }
        assert(row_views(rows@)[i as int] == rows@[i as int]@);
        i = i + 1;
    }
    Note { id: 0, title: title.to_owned(), slug, created_at: String::new(), path }
}

} // verus!
