//! Asking whether unsaved changes are to be saved.

use vstd::prelude::*;
use vstd::string::*;
use crate::dialog::{unsaved_changes_dialog, DialogChoice, MessageDialog, MessageDialogView};

verus! {

/// What the user decided about unsaved changes.
#[derive(Debug, Clone, Copy, PartialEq, Eq, Structural)]
pub enum ConfirmationAnswer {
    Save,
    Cancel,
}

impl ConfirmationAnswer {
    /// The word that the front-end receives for this answer.
    pub open spec fn text(self) -> Seq<char> {
        match self {
            ConfirmationAnswer::Save => "save"@,
            ConfirmationAnswer::Cancel => "cancel"@,
        }
    }

    /// The word that the front-end receives: `save` or `cancel`.
    pub fn as_string(&self) -> (word: String)
        ensures
            word@ == self.text(),
    {
        match self {
            ConfirmationAnswer::Save => String::from_str("save"),
            ConfirmationAnswer::Cancel => String::from_str("cancel"),
        }
    }
}

/// The answer that a choice in the message box stands for: only the
/// affirmative button saves.
pub open spec fn answer_for(choice: DialogChoice) -> ConfirmationAnswer {
    if choice == DialogChoice::Accepted {
        ConfirmationAnswer::Save
    } else {
        ConfirmationAnswer::Cancel
    }
}

/// Where `confirm_unsaved` stands, with what the shell reports.
#[derive(Debug, PartialEq, Eq)]
pub enum ConfirmStep {
    /// The front-end invoked the command with its prompt.
    Invoked { message: String },
    /// The message box was left.
    Answered(DialogChoice),
}

/// What the shell does next for `confirm_unsaved`.
#[derive(Debug, PartialEq, Eq)]
pub enum ConfirmNext {
    /// Show this message box, wait for the user, and report the choice.
    Ask(MessageDialog),
    /// Hand this answer to the front-end.
    Return(ConfirmationAnswer),
}

/// The mathematical value of a `ConfirmStep`.
pub enum ConfirmStepView {
    Invoked { message: Seq<char> },
    Answered(DialogChoice),
}

/// The mathematical value of a `ConfirmNext`.
pub enum ConfirmNextView {
    Ask(MessageDialogView),
    Return(ConfirmationAnswer),
}

impl View for ConfirmStep {
    type V = ConfirmStepView;

    open spec fn view(&self) -> ConfirmStepView {
        match self {
            ConfirmStep::Invoked { message } => ConfirmStepView::Invoked { message: message@ },
            ConfirmStep::Answered(choice) => ConfirmStepView::Answered(*choice),
        }
    }
}

impl View for ConfirmNext {
    type V = ConfirmNextView;

    open spec fn view(&self) -> ConfirmNextView {
        match self {
            ConfirmNext::Ask(dialog) => ConfirmNextView::Ask(dialog@),
            ConfirmNext::Return(answer) => ConfirmNextView::Return(*answer),
        }
    }
}

/// The next move of `confirm_unsaved`.
pub open spec fn confirm_unsaved_next(step: ConfirmStepView) -> ConfirmNextView {
    match step {
        ConfirmStepView::Invoked { message } => ConfirmNextView::Ask(
            unsaved_changes_dialog(message),
        ),
        ConfirmStepView::Answered(choice) => ConfirmNextView::Return(answer_for(choice)),
    }
}

/// Confirms what to do with unsaved changes. Once invoked it asks for the
/// message box titled with the application's name; once the box is left it
/// returns `Save` for the affirmative button and `Cancel` for the negative
/// button and for a dismissal.
pub fn confirm_unsaved(step: ConfirmStep) -> (next: ConfirmNext)
    ensures
        next@ == confirm_unsaved_next(step@),
{
    match step {
        ConfirmStep::Invoked { message } => ConfirmNext::Ask(MessageDialog::unsaved_changes(message)),
        ConfirmStep::Answered(choice) => match choice {
            DialogChoice::Accepted => ConfirmNext::Return(ConfirmationAnswer::Save),
            DialogChoice::Rejected => ConfirmNext::Return(ConfirmationAnswer::Cancel),
            DialogChoice::Dismissed => ConfirmNext::Return(ConfirmationAnswer::Cancel),
        },
    }
}

} // verus!
