//! Opening a markdown file that the user picks.

use vstd::prelude::*;
use crate::dialog::{open_markdown_dialog, FileDialog, FileDialogView};
use crate::error::{CommandError, CommandErrorView};
use crate::path::{has_scheme, lemma_normalized_has_no_scheme, normalize_path, normalized};

verus! {

/// A file as it was read: where it lies and its whole text.
#[derive(Debug, Clone, PartialEq, Eq)]
pub struct FileData {
    pub path: String,
    pub content: String,
}

/// The mathematical value of a `FileData`.
pub struct FileDataView {
    pub path: Seq<char>,
    pub content: Seq<char>,
}

impl View for FileData {
    type V = FileDataView;

    open spec fn view(&self) -> FileDataView {
        FileDataView { path: self.path@, content: self.content@ }
    }
}

/// Where `open_file` stands, with what the shell reports.
#[derive(Debug, PartialEq, Eq)]
pub enum OpenStep {
    /// The front-end invoked the command.
    Invoked,
    /// The picker was left: with the chosen path, or with nothing.
    Picked(Option<String>),
    /// The read of `path` ended: with the file's text, or with the cause of
    /// the failure.
    Read { path: String, outcome: Result<String, String> },
}

/// What the shell does next for `open_file`.
#[derive(Debug, PartialEq, Eq)]
pub enum OpenNext {
    /// Show this picker, wait for the user, and report the chosen path.
    Pick(FileDialog),
    /// Read the whole file at `path` as text and report how that ended.
    Read { path: String },
    /// Hand this result to the front-end.
    Return(Result<Option<FileData>, CommandError>),
}

/// The mathematical value of an `OpenStep`.
pub enum OpenStepView {
    Invoked,
    Picked(Option<Seq<char>>),
    Read { path: Seq<char>, outcome: Result<Seq<char>, Seq<char>> },
}

/// The mathematical value of an `OpenNext`.
pub enum OpenNextView {
    Pick(FileDialogView),
    Read { path: Seq<char> },
    Return(Result<Option<FileDataView>, CommandErrorView>),
}

impl View for OpenStep {
    type V = OpenStepView;

    open spec fn view(&self) -> OpenStepView {
        match self {
            OpenStep::Invoked => OpenStepView::Invoked,
            OpenStep::Picked(Some(path)) => OpenStepView::Picked(Some(path@)),
            OpenStep::Picked(None) => OpenStepView::Picked(None),
            OpenStep::Read { path, outcome: Ok(content) } => OpenStepView::Read {
                path: path@,
                outcome: Ok(content@),
            },
            OpenStep::Read { path, outcome: Err(cause) } => OpenStepView::Read {
                path: path@,
                outcome: Err(cause@),
            },
        }
    }
}

impl View for OpenNext {
    type V = OpenNextView;

    open spec fn view(&self) -> OpenNextView {
        match self {
            OpenNext::Pick(dialog) => OpenNextView::Pick(dialog@),
            OpenNext::Read { path } => OpenNextView::Read { path: path@ },
            OpenNext::Return(Ok(Some(file))) => OpenNextView::Return(Ok(Some(file@))),
            OpenNext::Return(Ok(None)) => OpenNextView::Return(Ok(None)),
            OpenNext::Return(Err(error)) => OpenNextView::Return(Err(error@)),
        }
    }
}

/// The next move of `open_file`.
pub open spec fn open_file_next(step: OpenStepView) -> OpenNextView {
    match step {
        OpenStepView::Invoked => OpenNextView::Pick(open_markdown_dialog()),
        OpenStepView::Picked(None) => OpenNextView::Return(Ok(None)),
        OpenStepView::Picked(Some(path)) => OpenNextView::Read { path: normalized(path) },
        OpenStepView::Read { path, outcome: Ok(content) } => OpenNextView::Return(
            Ok(Some(FileDataView { path, content })),
        ),
        OpenStepView::Read { path, outcome: Err(cause) } => OpenNextView::Return(
            Err(CommandErrorView::ReadFailure { cause }),
        ),
    }
}

/// Opens a markdown file. Once invoked it asks for the markdown picker. A
/// dismissed picker ends the command with no file and no error; a chosen path
/// is normalized and asked to be read. A finished read ends the command with
/// the path and the text, a failed one with a read failure that holds the
/// cause.
pub fn open_file(step: OpenStep) -> (next: OpenNext)
    ensures
        next@ == open_file_next(step@),
{
    match step {
        OpenStep::Invoked => OpenNext::Pick(FileDialog::open_markdown()),
        OpenStep::Picked(None) => OpenNext::Return(Ok(None)),
        OpenStep::Picked(Some(picked)) => OpenNext::Read { path: normalize_path(picked.as_str()) },
        OpenStep::Read { path, outcome: Ok(content) } => OpenNext::Return(
            Ok(Some(FileData { path, content })),
        ),
        OpenStep::Read { path, outcome: Err(cause) } => OpenNext::Return(
            Err(CommandError::ReadFailure { cause }),
        ),
    }
}

/// Whatever the picker hands over, the path that `open_file` asks to read,
/// and so the path of the file it returns, does not begin with the scheme.
pub proof fn lemma_open_file_reads_plain_path(picked: Seq<char>)
    ensures
        open_file_next(OpenStepView::Picked(Some(picked))) matches OpenNextView::Read { path }
            && !has_scheme(path),
{
    lemma_normalized_has_no_scheme(picked);
}

} // verus!
