//! The interactive selector: a list of candidate notes with one of them
//! marked, which the user browses until one is chosen or the choice is given
//! up.

use crate::note::{views, Note, NoteView};
use vstd::prelude::*;

verus! {

/// A key as the selector tells keys apart.
#[derive(Clone, Copy, Debug, PartialEq, Eq)]
pub enum Key {
    /// A key that stands for a character.
    Char(char),
    Enter,
    Esc,
    Up,
    Down,
    /// Any other key.
    Other,
}

/// What reaches the selector while it waits.
#[derive(Clone, Copy, Debug, PartialEq, Eq)]
pub enum Event {
    /// A key was pressed.
    Key(Key),
    /// The wait ran out, or something happened that is no key press.
    Idle,
}

/// What an event asks of the selector.
#[derive(Clone, Copy, Debug, PartialEq, Eq)]
pub enum Command {
    Quit,
    Next,
    Previous,
    Confirm,
    Ignore,
}

/// The command that an event stands for: `q` and escape quit, the down arrow
/// and `j` move down, the up arrow and `k` move up, enter confirms, and
/// everything else is ignored.
pub open spec fn command_of(event: Event) -> Command {
    match event {
        Event::Key(Key::Char('q')) | Event::Key(Key::Esc) => Command::Quit,
        Event::Key(Key::Down) | Event::Key(Key::Char('j')) => Command::Next,
        Event::Key(Key::Up) | Event::Key(Key::Char('k')) => Command::Previous,
        Event::Key(Key::Enter) => Command::Confirm,
        _ => Command::Ignore,
    }
}

/// Tells which command an event stands for.
pub fn command_for(event: Event) -> (command: Command)
    ensures
        command == command_of(event),
{
    match event {
        Event::Key(Key::Char(c)) => {
            if c == 'q' {
                Command::Quit
            } else if c == 'j' {
                Command::Next
            } else if c == 'k' {
                Command::Previous
            } else {
                Command::Ignore
            }
        },
        Event::Key(Key::Esc) => Command::Quit,
        Event::Key(Key::Down) => Command::Next,
        Event::Key(Key::Up) => Command::Previous,
        Event::Key(Key::Enter) => Command::Confirm,
        _ => Command::Ignore,
    }
}

/// Whether `selected` is a mark that a list of `len` candidates can carry:
/// the index of one of them, or no mark where there is no candidate.
pub open spec fn marks(len: nat, selected: Option<int>) -> bool {
    match selected {
        Some(i) => 0 <= i < len,
        None => len == 0,
    }
}

/// The mark after a move down: the next candidate, and the first one after
/// the last. A list without candidates stays without a mark.
pub open spec fn mark_below(len: nat, selected: Option<int>) -> Option<int> {
    if len == 0 {
        None
    } else {
        match selected {
            Some(i) if 0 <= i < len - 1 => Some(i + 1),
            _ => Some(0),
        }
    }
}

/// The mark after a move up: the candidate before, and the last one before
/// the first. A list without candidates stays without a mark.
pub open spec fn mark_above(len: nat, selected: Option<int>) -> Option<int> {
    if len == 0 {
        None
    } else {
        match selected {
            Some(i) if 0 < i < len => Some(i - 1),
            Some(_) => Some(len - 1),
            None => Some(0),
        }
    }
}

/// Where a selector stands: it is still being browsed, or a note was chosen,
/// or the choice was given up. The last two are final.
#[derive(Debug, PartialEq, Eq)]
pub enum Outcome {
    Browsing,
    /// A note was chosen; this is the path of its file.
    Selected(String),
    Cancelled,
}

/// An `Outcome` as contracts see it.
pub enum OutcomeView {
    Browsing,
    Selected(Seq<char>),
    Cancelled,
}

impl View for Outcome {
    type V = OutcomeView;

    open spec fn view(&self) -> OutcomeView {
        match self {
            Outcome::Browsing => OutcomeView::Browsing,
            Outcome::Selected(path) => OutcomeView::Selected(path@),
            Outcome::Cancelled => OutcomeView::Cancelled,
        }
    }
}

/// The candidates of a selector and its mark.
pub struct NotesTable {
    selected: Option<usize>,
    notes: Vec<Note>,
}

/// A `NotesTable` as contracts see it.
pub struct TableView {
    /// The candidates, in the order in which they are shown.
    pub notes: Seq<NoteView>,
    /// The index of the marked candidate.
    pub selected: Option<int>,
}

impl View for NotesTable {
    type V = TableView;

    closed spec fn view(&self) -> TableView {
        TableView {
            notes: views(self.notes@),
            selected: match self.selected {
                Some(i) => Some(i as int),
                None => None,
            },
        }
    }
}

/// The selector after it has taken `event`: a move changes the mark, and
/// nothing else changes anything.
pub open spec fn table_after(table: TableView, event: Event) -> TableView {
    match command_of(event) {
        Command::Next => TableView {
            notes: table.notes,
            selected: mark_below(table.notes.len(), table.selected),
        },
        Command::Previous => TableView {
            notes: table.notes,
            selected: mark_above(table.notes.len(), table.selected),
        },
        _ => table,
    }
}

/// Where the selector stands after it has taken `event`: quitting gives the
/// choice up, confirming chooses the marked note and gives the choice up
/// where no note is marked, and anything else leaves the selector browsing.
pub open spec fn outcome_of(table: TableView, event: Event) -> OutcomeView {
    match command_of(event) {
        Command::Quit => OutcomeView::Cancelled,
        Command::Confirm => match table.selected {
            Some(i) if 0 <= i < table.notes.len() => OutcomeView::Selected(table.notes[i].path),
            _ => OutcomeView::Cancelled,
        },
        _ => OutcomeView::Browsing,
    }
}

impl NotesTable {
    #[verifier::type_invariant]
    spec fn marked_within(&self) -> bool {
        marks(self@.notes.len(), self@.selected)
    }

    /// A selector over `notes`, with the first of them marked.
    pub fn new(notes: Vec<Note>) -> (table: NotesTable)
        ensures
            table@.notes == views(notes@),
            table@.selected == if notes.len() > 0 {
                Some(0int)
            } else {
                None
            },
    {
        let selected = if notes.len() > 0 {
            Some(0)
        } else {
            None
        };
        NotesTable { selected, notes }
    }

    /// Moves the mark down by one candidate.
    pub fn next(&mut self)
        ensures
            final(self)@.notes == old(self)@.notes,
            final(self)@.selected == mark_below(old(self)@.notes.len(), old(self)@.selected),
    {
        proof {
            use_type_invariant(&*self);
        }
        match self.selected {
            Some(i) => {
                let below: usize = if i >= self.notes.len() - 1 {
                    0
                } else {
                    i + 1
                };
                self.selected = Some(below);
            },
            None => {},
        }
    }

    /// Moves the mark up by one candidate.
    pub fn previous(&mut self)
        ensures
            final(self)@.notes == old(self)@.notes,
            final(self)@.selected == mark_above(old(self)@.notes.len(), old(self)@.selected),
    {
        proof {
            use_type_invariant(&*self);
        }
        match self.selected {
            Some(i) => {
                let above: usize = if i == 0 {
                    self.notes.len() - 1
                } else {
                    i - 1
                };
                self.selected = Some(above);
            },
            None => {},
        }
    }

    /// The candidates, in the order in which they are shown.
    pub fn notes(&self) -> (notes: &Vec<Note>)
        ensures
            views(notes@) == self@.notes,
    {
        &self.notes
    }

    /// The index of the marked candidate. It is `None` exactly where there is
    /// no candidate.
    pub fn selected(&self) -> (selected: Option<usize>)
        ensures
            marks(self@.notes.len(), self@.selected),
            match selected {
                Some(i) => self@.selected == Some(i as int),
                None => self@.selected is None,
            },
    {
        proof {
            use_type_invariant(self);
        }
        self.selected
    }

    /// Takes one event and tells where the selector stands after it.
    pub fn handle(&mut self, event: Event) -> (outcome: Outcome)
        ensures
            final(self)@ == table_after(old(self)@, event),
            outcome@ == outcome_of(old(self)@, event),
    {
        match command_for(event) {
            Command::Quit => Outcome::Cancelled,
            Command::Next => {
                self.next();
                Outcome::Browsing
            },
            Command::Previous => {
                self.previous();
                Outcome::Browsing
            },
            Command::Confirm => match self.selected_note() {
                Some(note) => Outcome::Selected(note.path.clone()),
                None => Outcome::Cancelled,
            },
            Command::Ignore => Outcome::Browsing,
        }
    }

    /// The marked candidate, if there is one.
    pub fn selected_note(&self) -> (note: Option<&Note>)
        ensures
            marks(self@.notes.len(), self@.selected),
            match note {
                Some(n) => self@.selected is Some && n@ == self@.notes[self@.selected->0],
                None => self@.selected is None,
            },
    {
        proof {
            use_type_invariant(self);
        }
        match self.selected {
            Some(i) => Some(&self.notes[i]),
            None => None,
        }
    }
}

/// The pause after which the selector draws itself again though nothing
/// happened, in nanoseconds: a quarter of a second.
pub const TICK_NANOS: u64 = 250_000_000;

/// How long the selector may wait for an event, in nanoseconds, when
/// `elapsed` nanoseconds have passed since the last tick: what is left of the
/// pause, and nothing once the pause is over.
pub fn poll_timeout(elapsed: u128) -> (wait: u64)
    ensures
        wait == if elapsed < TICK_NANOS {
            TICK_NANOS - elapsed
        } else {
            0
        },
{
    if elapsed < TICK_NANOS as u128 {
        TICK_NANOS - elapsed as u64
    } else {
        0
    }
}

/// Whether a new tick begins when `elapsed` nanoseconds have passed since the
/// last one. A tick only makes the selector draw itself again.
pub fn tick_due(elapsed: u128) -> (due: bool)
    ensures
        due == (elapsed >= TICK_NANOS),
{
    elapsed >= TICK_NANOS as u128
}

/// The mark after `times` moves down.
pub open spec fn mark_below_times(len: nat, selected: Option<int>, times: nat) -> Option<int>
    decreases times,
{
    if times == 0 {
        selected
    } else {
        mark_below(len, mark_below_times(len, selected, (times - 1) as nat))
    }
}

/// A move leaves a mark that the list can carry, whatever the mark was.
pub proof fn law_moves_keep_the_mark_within(len: nat, selected: Option<int>)
    ensures
        marks(len, mark_below(len, selected)),
        marks(len, mark_above(len, selected)),
{
}

/// A move down from the last candidate marks the first, and a move up from
/// the first marks the last.
pub proof fn law_moves_wrap(len: nat)
    requires
        len > 0,
    ensures
        mark_below(len, Some(len - 1)) == Some(0int),
        mark_above(len, Some(0int)) == Some(len - 1),
{
}

/// A move up undoes a move down, and a move down undoes a move up.
pub proof fn law_moves_undo_each_other(len: nat, selected: Option<int>)
    requires
        marks(len, selected),
    ensures
        mark_above(len, mark_below(len, selected)) == selected,
        mark_below(len, mark_above(len, selected)) == selected,
{
}

/// After `times` moves down from the candidate `start`, the mark is on the
/// candidate `(start + times) % len`.
pub proof fn law_moves_down_count(len: nat, start: int, times: nat)
    requires
        0 <= start < len,
    ensures
        mark_below_times(len, Some(start), times) == Some((start + times) % (len as int)),
    decreases times,
{
    let n = len as int;
    if times == 0 {
        vstd::arithmetic::div_mod::lemma_small_mod(start as nat, len);
    } else {
        law_moves_down_count(len, start, (times - 1) as nat);
        let before = (start + times - 1) % n;
        assert((start + times) % n == if before + 1 < n {
            before + 1
        } else {
            0
        }) by (nonlinear_arith)
            requires
                n > 0,
                before == (start + times - 1) % n,
        ;
    }
}

/// As many moves down as there are candidates lead back to where they began.
pub proof fn law_moves_down_come_round(len: nat, selected: Option<int>)
    requires
        marks(len, selected),
    ensures
        mark_below_times(len, selected, len) == selected,
{
    match selected {
        Some(start) => {
            law_moves_down_count(len, start, len);
            vstd::arithmetic::div_mod::lemma_mod_add_multiples_vanish(start, len as int);
            vstd::arithmetic::div_mod::lemma_small_mod(start as nat, len);
        },
        None => {
            assert(mark_below_times(len, selected, 0) == selected);
        },
    }
}

/// Confirming in a selector without candidates gives the choice up.
pub proof fn law_confirm_without_candidates(table: TableView)
    requires
        table.notes.len() == 0,
    ensures
        outcome_of(table, Event::Key(Key::Enter)) == OutcomeView::Cancelled,
        table_after(table, Event::Key(Key::Enter)) == table,
{
}

/// Only a move changes the selector, and it changes nothing but the mark; only
/// quitting and confirming end the browsing.
pub proof fn law_other_input_is_ignored(table: TableView, event: Event)
    ensures
        table_after(table, event).notes == table.notes,
        command_of(event) != Command::Next && command_of(event) != Command::Previous
            ==> table_after(table, event) == table,
        command_of(event) != Command::Quit && command_of(event) != Command::Confirm
            ==> outcome_of(table, event) == OutcomeView::Browsing,
{
}

} // verus!
