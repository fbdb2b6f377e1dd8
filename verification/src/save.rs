//! Saving text to a known path, or to one that the user chooses.

use vstd::prelude::*;
use crate::dialog::{save_markdown_dialog, FileDialog, FileDialogView};
use crate::error::{CommandError, CommandErrorView};
use crate::path::{has_scheme, lemma_normalized_has_no_scheme, normalize_path, normalized};

verus! {

/// Where `save_file` stands, with what the shell reports.
#[derive(Debug, PartialEq, Eq)]
pub enum SaveStep {
    /// The front-end invoked the command with the destination and the text.
    Invoked { path: String, content: String },
    /// The write ended: well, or with the cause of the failure.
    Written(Result<(), String>),
}

/// What the shell does next for `save_file`.
#[derive(Debug, PartialEq, Eq)]
pub enum SaveNext {
    /// Create or truncate the file at `path`, so that it holds exactly
    /// `content`, and report how that ended.
    Write { path: String, content: String },
    /// Hand this result to the front-end.
    Return(Result<bool, CommandError>),
}

/// The mathematical value of a `SaveStep`.
pub enum SaveStepView {
    Invoked { path: Seq<char>, content: Seq<char> },
    Written(Result<(), Seq<char>>),
}

/// The mathematical value of a `SaveNext`.
pub enum SaveNextView {
    Write { path: Seq<char>, content: Seq<char> },
    Return(Result<bool, CommandErrorView>),
}

impl View for SaveStep {
    type V = SaveStepView;

    open spec fn view(&self) -> SaveStepView {
        match self {
            SaveStep::Invoked { path, content } => SaveStepView::Invoked {
                path: path@,
                content: content@,
            },
            SaveStep::Written(Ok(_)) => SaveStepView::Written(Ok(())),
            SaveStep::Written(Err(cause)) => SaveStepView::Written(Err(cause@)),
        }
    }
}

impl View for SaveNext {
    type V = SaveNextView;

    open spec fn view(&self) -> SaveNextView {
        match self {
            SaveNext::Write { path, content } => SaveNextView::Write {
                path: path@,
                content: content@,
            },
            SaveNext::Return(Ok(done)) => SaveNextView::Return(Ok(*done)),
            SaveNext::Return(Err(error)) => SaveNextView::Return(Err(error@)),
        }
    }
}

/// The next move of `save_file`.
pub open spec fn save_file_next(step: SaveStepView) -> SaveNextView {
    match step {
        SaveStepView::Invoked { path, content } => SaveNextView::Write { path, content },
        SaveStepView::Written(Ok(_)) => SaveNextView::Return(Ok(true)),
        SaveStepView::Written(Err(cause)) => SaveNextView::Return(
            Err(CommandErrorView::WriteFailure { cause }),
        ),
    }
}

/// Saves text to a known path. Once invoked it asks for the file at the given
/// path to be replaced by the given text, both unchanged. A finished write
/// ends the command with `true`, a failed one with a write failure that holds
/// the cause.
pub fn save_file(step: SaveStep) -> (next: SaveNext)
    ensures
        next@ == save_file_next(step@),
{
    match step {
        SaveStep::Invoked { path, content } => SaveNext::Write { path, content },
        SaveStep::Written(Ok(_)) => SaveNext::Return(Ok(true)),
        SaveStep::Written(Err(cause)) => SaveNext::Return(
            Err(CommandError::WriteFailure { cause }),
        ),
    }
}

/// Where `save_file_as` stands, with what the shell reports.
#[derive(Debug, PartialEq, Eq)]
pub enum SaveAsStep {
    /// The front-end invoked the command with the text.
    Invoked { content: String },
    /// The picker was left: with the chosen destination, or with nothing.
    Picked { picked: Option<String>, content: String },
    /// The write to `path` ended: well, or with the cause of the failure.
    Written { path: String, outcome: Result<(), String> },
}

/// What the shell does next for `save_file_as`.
#[derive(Debug, PartialEq, Eq)]
pub enum SaveAsNext {
    /// Show this picker, wait for the user, and report the chosen destination
    /// together with `content`.
    Pick { dialog: FileDialog, content: String },
    /// Create or truncate the file at `path`, so that it holds exactly
    /// `content`, and report how that ended.
    Write { path: String, content: String },
    /// Hand this result to the front-end.
    Return(Result<Option<String>, CommandError>),
}

/// The mathematical value of a `SaveAsStep`.
pub enum SaveAsStepView {
    Invoked { content: Seq<char> },
    Picked { picked: Option<Seq<char>>, content: Seq<char> },
    Written { path: Seq<char>, outcome: Result<(), Seq<char>> },
}

/// The mathematical value of a `SaveAsNext`.
pub enum SaveAsNextView {
    Pick { dialog: FileDialogView, content: Seq<char> },
    Write { path: Seq<char>, content: Seq<char> },
    Return(Result<Option<Seq<char>>, CommandErrorView>),
}

impl View for SaveAsStep {
    type V = SaveAsStepView;

    open spec fn view(&self) -> SaveAsStepView {
        match self {
            SaveAsStep::Invoked { content } => SaveAsStepView::Invoked { content: content@ },
            SaveAsStep::Picked { picked: Some(path), content } => SaveAsStepView::Picked {
                picked: Some(path@),
                content: content@,
            },
            SaveAsStep::Picked { picked: None, content } => SaveAsStepView::Picked {
                picked: None,
                content: content@,
            },
            SaveAsStep::Written { path, outcome: Ok(_) } => SaveAsStepView::Written {
                path: path@,
                outcome: Ok(()),
            },
            SaveAsStep::Written { path, outcome: Err(cause) } => SaveAsStepView::Written {
                path: path@,
                outcome: Err(cause@),
            },
        }
    }
}

impl View for SaveAsNext {
    type V = SaveAsNextView;

    open spec fn view(&self) -> SaveAsNextView {
        match self {
            SaveAsNext::Pick { dialog, content } => SaveAsNextView::Pick {
                dialog: dialog@,
                content: content@,
            },
            SaveAsNext::Write { path, content } => SaveAsNextView::Write {
                path: path@,
                content: content@,
            },
            SaveAsNext::Return(Ok(Some(path))) => SaveAsNextView::Return(Ok(Some(path@))),
            SaveAsNext::Return(Ok(None)) => SaveAsNextView::Return(Ok(None)),
            SaveAsNext::Return(Err(error)) => SaveAsNextView::Return(Err(error@)),
        }
    }
}

/// The next move of `save_file_as`.
pub open spec fn save_file_as_next(step: SaveAsStepView) -> SaveAsNextView {
    match step {
        SaveAsStepView::Invoked { content } => SaveAsNextView::Pick {
            dialog: save_markdown_dialog(),
            content,
        },
        SaveAsStepView::Picked { picked: None, content } => SaveAsNextView::Return(Ok(None)),
        SaveAsStepView::Picked { picked: Some(path), content } => SaveAsNextView::Write {
            path: normalized(path),
            content,
        },
        SaveAsStepView::Written { path, outcome: Ok(_) } => SaveAsNextView::Return(Ok(Some(path))),
        SaveAsStepView::Written { path, outcome: Err(cause) } => SaveAsNextView::Return(
            Err(CommandErrorView::WriteFailure { cause }),
        ),
    }
}

/// Saves text to a destination that the user chooses. Once invoked it asks
/// for the markdown save picker, which starts at `untitled.md`. A dismissed
/// picker ends the command with no path and no error; a chosen destination is
/// normalized and asked to be replaced by the text. A finished write ends the
/// command with the path written to, a failed one with a write failure that
/// holds the cause.
pub fn save_file_as(step: SaveAsStep) -> (next: SaveAsNext)
    ensures
        next@ == save_file_as_next(step@),
{
    match step {
        SaveAsStep::Invoked { content } => SaveAsNext::Pick {
            dialog: FileDialog::save_markdown(),
            content,
        },
        SaveAsStep::Picked { picked: None, content } => SaveAsNext::Return(Ok(None)),
        SaveAsStep::Picked { picked: Some(picked), content } => SaveAsNext::Write {
            path: normalize_path(picked.as_str()),
            content,
        },
        SaveAsStep::Written { path, outcome: Ok(_) } => SaveAsNext::Return(Ok(Some(path))),
        SaveAsStep::Written { path, outcome: Err(cause) } => SaveAsNext::Return(
            Err(CommandError::WriteFailure { cause }),
        ),
    }
}

/// Whatever the picker hands over, the path that `save_file_as` asks to
/// write, and so the path it returns, does not begin with the scheme.
pub proof fn lemma_save_file_as_writes_plain_path(picked: Seq<char>, content: Seq<char>)
    ensures
        save_file_as_next(SaveAsStepView::Picked { picked: Some(picked), content })
            matches SaveAsNextView::Write { path, content: written } && !has_scheme(path)
            && written == content,
{
    lemma_normalized_has_no_scheme(picked);
}

} // verus!
