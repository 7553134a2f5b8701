//! One sitting at the selector, from taking the terminal over to giving it
//! back.
//!
//! The terminal is in the caller's hands. The caller starts with
//! `run_notes_ui`, does what the pending `Ask` asks, tells how it went, and
//! goes on until the answer is one of the three that end the sitting. Whatever
//! happens in between, the sitting does not end before the caller was asked
//! to put the terminal back as it was.

use crate::note::{views, Note};
use crate::selector::{outcome_of, table_after, Event, NotesTable, Outcome, OutcomeView, TableView};
use vstd::prelude::*;

verus! {

/// How far a sitting has come.
#[derive(Clone, Copy, Debug, PartialEq, Eq)]
pub enum Phase {
    /// The terminal is being taken over.
    Starting,
    /// The user is browsing the candidates.
    Browsing,
    /// The terminal is being put back as it was.
    Restoring,
    /// The sitting is over.
    Finished,
}

/// How the browsing came to its end.
#[derive(Debug, PartialEq, Eq)]
pub enum Ending {
    /// A note was chosen; this is the path of its file.
    Chosen(String),
    /// The choice was given up.
    GaveUp,
    /// The terminal failed, for this cause.
    Failed(String),
}

/// An `Ending` as contracts see it.
pub enum EndingView {
    Chosen(Seq<char>),
    GaveUp,
    Failed(Seq<char>),
}

impl View for Ending {
    type V = EndingView;

    open spec fn view(&self) -> EndingView {
        match self {
            Ending::Chosen(path) => EndingView::Chosen(path@),
            Ending::GaveUp => EndingView::GaveUp,
            Ending::Failed(cause) => EndingView::Failed(cause@),
        }
    }
}

/// What the caller is asked to do next. The last three end the sitting.
#[derive(Debug, PartialEq, Eq)]
pub enum Ask {
    /// Take the terminal over: raw mode, the alternate screen, the mouse.
    Setup,
    /// Draw the selector and wait for one event, no longer than the tick
    /// allows.
    Show,
    /// Put the terminal back as it was.
    Restore,
    /// Open the file at this path in the editor.
    Open(String),
    /// Do nothing more.
    Leave,
    /// Report this failure.
    Fail(String),
}

/// An `Ask` as contracts see it.
pub enum AskView {
    Setup,
    Show,
    Restore,
    Open(Seq<char>),
    Leave,
    Fail(Seq<char>),
}

impl View for Ask {
    type V = AskView;

    open spec fn view(&self) -> AskView {
        match self {
            Ask::Setup => AskView::Setup,
            Ask::Show => AskView::Show,
            Ask::Restore => AskView::Restore,
            Ask::Open(path) => AskView::Open(path@),
            Ask::Leave => AskView::Leave,
            Ask::Fail(cause) => AskView::Fail(cause@),
        }
    }
}

/// How it went, as the caller tells it.
#[derive(Debug, PartialEq, Eq)]
pub enum Told {
    /// What was asked for is done.
    Done,
    /// What was asked for failed, for this cause.
    Failed(String),
    /// The selector was shown, and this is what happened while it waited.
    Event(Event),
}

/// A `Told` as contracts see it.
pub enum ToldView {
    Done,
    Failed(Seq<char>),
    Event(Event),
}

impl View for Told {
    type V = ToldView;

    open spec fn view(&self) -> ToldView {
        match self {
            Told::Done => ToldView::Done,
            Told::Failed(cause) => ToldView::Failed(cause@),
            Told::Event(event) => ToldView::Event(*event),
        }
    }
}

/// One sitting at the selector.
pub struct Session {
    table: NotesTable,
    phase: Phase,
    ending: Option<Ending>,
}

/// A `Session` as contracts see it.
pub struct SessionView {
    /// The selector.
    pub table: TableView,
    /// How far the sitting has come.
    pub phase: Phase,
    /// How the browsing ended, once it has.
    pub ending: Option<EndingView>,
}

impl View for Session {
    type V = SessionView;

    closed spec fn view(&self) -> SessionView {
        SessionView {
            table: self.table@,
            phase: self.phase,
            ending: match self.ending {
                Some(ending) => Some(ending@),
                None => None,
            },
        }
    }
}

/// The sitting over `table` before anything was done.
pub open spec fn opening(table: TableView) -> SessionView {
    SessionView { table, phase: Phase::Starting, ending: None }
}

/// What a sitting asks of the caller in the phase where it stands.
pub open spec fn ask_of(session: SessionView) -> AskView {
    match session.phase {
        Phase::Starting => AskView::Setup,
        Phase::Browsing => AskView::Show,
        Phase::Restoring => AskView::Restore,
        Phase::Finished => match session.ending {
            Some(EndingView::Chosen(path)) => AskView::Open(path),
            Some(EndingView::Failed(cause)) => AskView::Fail(cause),
            _ => AskView::Leave,
        },
    }
}

/// A sitting that leaves its phase to put the terminal back.
pub open spec fn closing(session: SessionView, ending: EndingView) -> SessionView {
    SessionView { phase: Phase::Restoring, ending: Some(ending), ..session }
}

/// A sitting after the caller has told how it went. A terminal that cannot
/// be taken over is put back all the same. While the user browses, an event
/// goes to the selector; a choice, a giving up and a failure all lead to
/// putting the terminal back. Only after that is the sitting over: with the
/// failure that came first, if there was one. What is told out of turn
/// changes nothing.
pub open spec fn told_after(session: SessionView, told: ToldView) -> SessionView {
    match (session.phase, told) {
        (Phase::Starting, ToldView::Done) => SessionView { phase: Phase::Browsing, ..session },
        (Phase::Starting, ToldView::Failed(cause)) => closing(session, EndingView::Failed(cause)),
        (Phase::Browsing, ToldView::Event(event)) => match outcome_of(session.table, event) {
            OutcomeView::Browsing => SessionView {
                table: table_after(session.table, event),
                ..session
            },
            OutcomeView::Selected(path) => closing(
                SessionView { table: table_after(session.table, event), ..session },
                EndingView::Chosen(path),
            ),
            OutcomeView::Cancelled => closing(
                SessionView { table: table_after(session.table, event), ..session },
                EndingView::GaveUp,
            ),
        },
        (Phase::Browsing, ToldView::Failed(cause)) => closing(session, EndingView::Failed(cause)),
        (Phase::Restoring, ToldView::Done) => SessionView { phase: Phase::Finished, ..session },
        (Phase::Restoring, ToldView::Failed(cause)) => SessionView {
            phase: Phase::Finished,
            ending: match session.ending {
                Some(EndingView::Failed(first)) => Some(EndingView::Failed(first)),
                _ => Some(EndingView::Failed(cause)),
            },
            ..session
        },
        _ => session,
    }
}

/// Begins a sitting at the selector over `notes`. Nothing has happened yet:
/// the first thing asked for is the terminal.
pub fn run_notes_ui(notes: Vec<Note>) -> (session: Session)
    ensures
        session@.phase == Phase::Starting,
        session@.ending is None,
        session@.table.notes == views(notes@),
        session@.table.selected == if notes.len() > 0 {
            Some(0int)
        } else {
            None
        },
{
    Session { table: NotesTable::new(notes), phase: Phase::Starting, ending: None }
}

impl Session {
    /// The selector of this sitting.
    pub fn table(&self) -> (table: &NotesTable)
        ensures
            table@ == self@.table,
    {
        &self.table
    }

    /// How far the sitting has come.
    pub fn phase(&self) -> (phase: Phase)
        ensures
            phase == self@.phase,
    {
        self.phase
    }

    /// What the caller is asked to do now.
    pub fn request(&self) -> (ask: Ask)
        ensures
            ask@ == ask_of(self@),
    {
        match self.phase {
            Phase::Starting => Ask::Setup,
            Phase::Browsing => Ask::Show,
            Phase::Restoring => Ask::Restore,
            Phase::Finished => match &self.ending {
                Some(Ending::Chosen(path)) => Ask::Open(path.clone()),
                Some(Ending::Failed(cause)) => Ask::Fail(cause.clone()),
                _ => Ask::Leave,
            },
        }
    }

    /// Takes what the caller tells of the pending request and tells what to
    /// do next.
    pub fn advance(&mut self, told: Told) -> (ask: Ask)
        ensures
            final(self)@ == told_after(old(self)@, told@),
            ask@ == ask_of(final(self)@),
    {
        match (self.phase, told) {
            (Phase::Starting, Told::Done) => {
                self.phase = Phase::Browsing;
            },
            (Phase::Starting, Told::Failed(cause)) => {
                self.phase = Phase::Restoring;
                self.ending = Some(Ending::Failed(cause));
            },
            (Phase::Browsing, Told::Event(event)) => match self.table.handle(event) {
                Outcome::Browsing => {},
                Outcome::Selected(path) => {
                    self.phase = Phase::Restoring;
                    self.ending = Some(Ending::Chosen(path));
                },
                Outcome::Cancelled => {
                    self.phase = Phase::Restoring;
                    self.ending = Some(Ending::GaveUp);
                },
            },
            (Phase::Browsing, Told::Failed(cause)) => {
                self.phase = Phase::Restoring;
                self.ending = Some(Ending::Failed(cause));
            },
            (Phase::Restoring, Told::Done) => {
                self.phase = Phase::Finished;
            },
            (Phase::Restoring, Told::Failed(cause)) => {
                self.phase = Phase::Finished;
                let first = match &self.ending {
                    Some(Ending::Failed(_)) => true,
                    _ => false,
                };
                if !first {
                    self.ending = Some(Ending::Failed(cause));
                }
            },
            _ => {},
        }
        self.request()
    }
}

/// The sitting after the caller has told one thing after the other.
pub open spec fn told_all(session: SessionView, told: Seq<ToldView>) -> SessionView
    decreases told.len(),
{
    if told.len() == 0 {
        session
    } else {
        told_after(told_all(session, told.drop_last()), told.last())
    }
}

/// A sitting ends only from the phase in which the terminal is put back: from
/// no other phase does one step lead to the end.
pub proof fn law_terminal_is_put_back_first(session: SessionView, told: ToldView)
    requires
        session.phase != Phase::Finished,
        told_after(session, told).phase == Phase::Finished,
    ensures
        session.phase == Phase::Restoring,
        ask_of(session) == AskView::Restore,
{
}

/// However a sitting goes, once it is over the caller was asked at some time
/// to put the terminal back, and has answered.
pub proof fn law_no_ending_without_restoring(table: TableView, told: Seq<ToldView>)
    requires
        told_all(opening(table), told).phase == Phase::Finished,
    ensures
        exists|n: int|
            0 <= n < told.len() && ask_of(#[trigger] told_all(opening(table), told.take(n)))
                == AskView::Restore,
    decreases told.len(),
{
    if told.len() > 0 {
        let before = told_all(opening(table), told.drop_last());
        if before.phase == Phase::Finished {
            law_no_ending_without_restoring(table, told.drop_last());
            let n = choose|n: int|
                0 <= n < told.drop_last().len() && ask_of(
                    #[trigger] told_all(opening(table), told.drop_last().take(n)),
                ) == AskView::Restore;
            assert(told.drop_last().take(n) == told.take(n));
        } else {
            law_terminal_is_put_back_first(before, told.last());
            assert(told.take(told.len() - 1) == told.drop_last());
        }
    }
}

/// Before the terminal was put back no step ends the sitting, and a failure
/// leads straight to putting it back: also one of taking the terminal over.
pub proof fn law_every_failure_restores(session: SessionView, told: ToldView)
    requires
        session.phase == Phase::Starting || session.phase == Phase::Browsing,
    ensures
        told_after(session, told).phase != Phase::Finished,
        told is Failed ==> ask_of(told_after(session, told)) == AskView::Restore,
        told is Failed ==> told_after(session, told).ending == Some(EndingView::Failed(told->Failed_0)),
{
}

/// The browsing ends with a choice or with giving up exactly as the selector
/// says, and what is asked for next is to put the terminal back.
pub proof fn law_browsing_ends_as_the_selector_says(session: SessionView, event: Event)
    requires
        session.phase == Phase::Browsing,
    ensures
        ({
            let next = told_after(session, ToldView::Event(event));
            &&& next.table == table_after(session.table, event)
            &&& match outcome_of(session.table, event) {
                OutcomeView::Browsing => next.phase == Phase::Browsing && next.ending
                    == session.ending,
                OutcomeView::Selected(path) => ask_of(next) == AskView::Restore && next.ending
                    == Some(EndingView::Chosen(path)),
                OutcomeView::Cancelled => ask_of(next) == AskView::Restore && next.ending == Some(
                    EndingView::GaveUp,
                ),
            }
        }),
{
}

/// A sitting that is over stays as it is, and what it hands out goes by how
/// the browsing ended: a chosen note is opened, a failure is reported, and
/// otherwise nothing is done.
pub proof fn law_finished_sitting_stays(session: SessionView, told: ToldView)
    requires
        session.phase == Phase::Finished,
    ensures
        told_after(session, told) == session,
        ask_of(session) == match session.ending {
            Some(EndingView::Chosen(path)) => AskView::Open(path),
            Some(EndingView::Failed(cause)) => AskView::Fail(cause),
            _ => AskView::Leave,
        },
{
}

} // verus!
