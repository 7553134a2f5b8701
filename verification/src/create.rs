//! How a note comes into being: first its file, then its row in the index.
//!
//! Creating a note takes work that only the caller can do: looking whether a
//! file is there, writing it, adding a row to the index. What is decided in
//! between is decided here. The caller starts with `add_note`, does what the
//! pending `Step` asks, reports how it went, and goes on until the step is
//! `Finish`.

use crate::path::{path_of, resolve, Config, ConfigView};
use crate::slug::slugify;
use vstd::prelude::*;
use vstd::string::StringExecFns;

verus! {

/// Why a note could not be created. Each kind carries the cause in words.
#[derive(Debug, PartialEq, Eq)]
pub enum StoreError {
    /// The file of the note could not be written.
    File(String),
    /// The row of the note could not be added to the index. The file stays.
    Index(String),
}

/// A `StoreError` as contracts see it.
pub enum ErrorView {
    File(Seq<char>),
    Index(Seq<char>),
}

impl View for StoreError {
    type V = ErrorView;

    open spec fn view(&self) -> ErrorView {
        match self {
            StoreError::File(cause) => ErrorView::File(cause@),
            StoreError::Index(cause) => ErrorView::Index(cause@),
        }
    }
}

/// What an error says to the user.
pub open spec fn message_of(error: ErrorView) -> Seq<char> {
    match error {
        ErrorView::File(cause) => "Failed to write note: "@ + cause,
        ErrorView::Index(cause) => "Failed to insert note into database: "@ + cause,
    }
}

impl StoreError {
    /// The error in words.
    pub fn message(&self) -> (text: String)
        ensures
            text@ == message_of(self@),
    {
        match self {
            StoreError::File(cause) => {
                let mut text = "Failed to write note: ".to_owned();
                text.append(cause.as_str());
                text
            },
            StoreError::Index(cause) => {
                let mut text = "Failed to insert note into database: ".to_owned();
                text.append(cause.as_str());
                text
            },
        }
    }
}

impl Clone for StoreError {
    fn clone(&self) -> (copy: StoreError)
        ensures
            copy@ == self@,
    {
        match self {
            StoreError::File(cause) => StoreError::File(cause.clone()),
            StoreError::Index(cause) => StoreError::Index(cause.clone()),
        }
    }
}

/// What a new note's file holds: a preamble between two lines of dashes that
/// gives the title, and an empty line after it.
pub open spec fn template_of(title: Seq<char>) -> Seq<char> {
    "---\ntitle: "@ + title + "\n---\n\n"@
}

/// Makes what the file of a new note with the title `title` holds.
pub fn note_template(title: &str) -> (content: String)
    ensures
        content@ == template_of(title@),
{
    let mut content = "---\ntitle: ".to_owned();
    content.append(title);
    content.append("\n---\n\n");
    content
}

/// How far the creation of a note has come.
#[derive(Clone, Copy, Debug, PartialEq, Eq)]
pub enum Stage {
    /// It is not yet known whether the file is there.
    Checking,
    /// The file is being written.
    Writing,
    /// The file is written, and the row is being added.
    Inserting,
    /// Nothing is left to do.
    Finished,
}

/// What the caller is asked to do next.
#[derive(Debug, PartialEq, Eq)]
pub enum Step {
    /// Look whether there is a file at `path`.
    CheckFile { path: String },
    /// Write `content` to the file at `path`.
    WriteFile { path: String, content: String },
    /// Add a row with this title and slug to the index.
    InsertRow { title: String, slug: String },
    /// Hand this out: the path of the note, or why there is none.
    Finish(Result<String, StoreError>),
}

/// A `Step` as contracts see it.
pub enum StepView {
    CheckFile { path: Seq<char> },
    WriteFile { path: Seq<char>, content: Seq<char> },
    InsertRow { title: Seq<char>, slug: Seq<char> },
    Finish(Result<Seq<char>, ErrorView>),
}

impl View for Step {
    type V = StepView;

    open spec fn view(&self) -> StepView {
        match self {
            Step::CheckFile { path } => StepView::CheckFile { path: path@ },
            Step::WriteFile { path, content } => StepView::WriteFile {
                path: path@,
                content: content@,
            },
            Step::InsertRow { title, slug } => StepView::InsertRow { title: title@, slug: slug@ },
            Step::Finish(Ok(path)) => StepView::Finish(Ok(path@)),
            Step::Finish(Err(error)) => StepView::Finish(Err(error@)),
        }
    }
}

/// How a step went, as the caller reports it.
#[derive(Debug, PartialEq, Eq)]
pub enum Reply {
    /// There is a file at the path.
    Exists,
    /// There is no file at the path.
    Missing,
    /// The file was written in full.
    Written,
    /// The file could not be written, for this cause.
    WriteFailed(String),
    /// The row was added.
    Inserted,
    /// The row could not be added, for this cause.
    InsertFailed(String),
}

/// A `Reply` as contracts see it.
pub enum ReplyView {
    Exists,
    Missing,
    Written,
    WriteFailed(Seq<char>),
    Inserted,
    InsertFailed(Seq<char>),
}

impl View for Reply {
    type V = ReplyView;

    open spec fn view(&self) -> ReplyView {
        match self {
            Reply::Exists => ReplyView::Exists,
            Reply::Missing => ReplyView::Missing,
            Reply::Written => ReplyView::Written,
            Reply::WriteFailed(cause) => ReplyView::WriteFailed(cause@),
            Reply::Inserted => ReplyView::Inserted,
            Reply::InsertFailed(cause) => ReplyView::InsertFailed(cause@),
        }
    }
}

/// The creation of one note, from the first look at its file to the end.
pub struct AddNote {
    title: String,
    slug: String,
    path: String,
    stage: Stage,
    error: Option<StoreError>,
}

/// An `AddNote` as contracts see it.
pub struct AddView {
    /// The title of the note.
    pub title: Seq<char>,
    /// The slug of the title.
    pub slug: Seq<char>,
    /// The path of the note's file.
    pub path: Seq<char>,
    /// How far the creation has come.
    pub stage: Stage,
    /// Why the creation failed, if it did.
    pub error: Option<ErrorView>,
}

impl View for AddNote {
    type V = AddView;

    closed spec fn view(&self) -> AddView {
        AddView {
            title: self.title@,
            slug: self.slug@,
            path: self.path@,
            stage: self.stage,
            error: match self.error {
                Some(error) => Some(error@),
                None => None,
            },
        }
    }
}

/// The creation of a note with the title `title` before anything was done.
pub open spec fn start_of(title: Seq<char>, cfg: ConfigView) -> AddView {
    AddView {
        title,
        slug: slugify(title),
        path: path_of(slugify(title), cfg),
        stage: Stage::Checking,
        error: None,
    }
}

/// What a creation asks of the caller at the stage where it stands.
pub open spec fn request_of(add: AddView) -> StepView {
    match add.stage {
        Stage::Checking => StepView::CheckFile { path: add.path },
        Stage::Writing => StepView::WriteFile { path: add.path, content: template_of(add.title) },
        Stage::Inserting => StepView::InsertRow { title: add.title, slug: add.slug },
        Stage::Finished => StepView::Finish(
            match add.error {
                Some(error) => Err(error),
                None => Ok(add.path),
            },
        ),
    }
}

/// A creation after the caller's reply. Where the file is there already,
/// nothing is left to do. The row is asked for only after the file was written
/// in full. A failure ends the creation, and a reply that does not answer what
/// was asked changes nothing.
pub open spec fn after(add: AddView, reply: ReplyView) -> AddView {
    match (add.stage, reply) {
        (Stage::Checking, ReplyView::Exists) => AddView { stage: Stage::Finished, ..add },
        (Stage::Checking, ReplyView::Missing) => AddView { stage: Stage::Writing, ..add },
        (Stage::Writing, ReplyView::Written) => AddView { stage: Stage::Inserting, ..add },
        (Stage::Writing, ReplyView::WriteFailed(cause)) => AddView {
            stage: Stage::Finished,
            error: Some(ErrorView::File(cause)),
            ..add
        },
        (Stage::Inserting, ReplyView::Inserted) => AddView { stage: Stage::Finished, ..add },
        (Stage::Inserting, ReplyView::InsertFailed(cause)) => AddView {
            stage: Stage::Finished,
            error: Some(ErrorView::Index(cause)),
            ..add
        },
        _ => add,
    }
}

/// Begins the creation of a note with the title `title`. Nothing has
/// happened yet: the first step asks whether the note's file is there.
pub fn add_note(title: String, cfg: &Config) -> (add: AddNote)
    ensures
        add@ == start_of(title@, cfg@),
{
    let (slug, path) = resolve(title.as_str(), cfg);
    AddNote { title, slug, path, stage: Stage::Checking, error: None }
}

impl AddNote {
    /// How far the creation has come.
    pub fn stage(&self) -> (stage: Stage)
        ensures
            stage == self@.stage,
    {
        self.stage
    }

    /// What the caller is asked to do now.
    pub fn request(&self) -> (step: Step)
        ensures
            step@ == request_of(self@),
    {
        match self.stage {
            Stage::Checking => Step::CheckFile { path: self.path.clone() },
            Stage::Writing => Step::WriteFile {
                path: self.path.clone(),
                content: note_template(self.title.as_str()),
            },
            Stage::Inserting => Step::InsertRow {
                title: self.title.clone(),
                slug: self.slug.clone(),
            },
            Stage::Finished => match &self.error {
                Some(error) => Step::Finish(Err(error.clone())),
                None => Step::Finish(Ok(self.path.clone())),
            },
        }
    }

    /// Takes the caller's reply to the pending step and tells what to do next.
    pub fn advance(&mut self, reply: Reply) -> (step: Step)
        ensures
            final(self)@ == after(old(self)@, reply@),
            step@ == request_of(final(self)@),
    {
        match (self.stage, reply) {
            (Stage::Checking, Reply::Exists) => {
                self.stage = Stage::Finished;
            },
            (Stage::Checking, Reply::Missing) => {
                self.stage = Stage::Writing;
            },
            (Stage::Writing, Reply::Written) => {
                self.stage = Stage::Inserting;
            },
            (Stage::Writing, Reply::WriteFailed(cause)) => {
                self.stage = Stage::Finished;
                self.error = Some(StoreError::File(cause));
            },
            (Stage::Inserting, Reply::Inserted) => {
                self.stage = Stage::Finished;
            },
            (Stage::Inserting, Reply::InsertFailed(cause)) => {
                self.stage = Stage::Finished;
                self.error = Some(StoreError::Index(cause));
            },
            _ => {},
        }
        self.request()
    }
}

} // verus!
