//! The two ways in which a command fails.

use vstd::prelude::*;
use vstd::string::*;

verus! {

/// A failed command, with the cause that the file system gave.
#[derive(Debug, Clone, PartialEq, Eq)]
pub enum CommandError {
    /// The chosen file could not be opened or decoded as text.
    ReadFailure { cause: String },
    /// The destination could not be written.
    WriteFailure { cause: String },
}

/// The mathematical value of a `CommandError`.
pub enum CommandErrorView {
    ReadFailure { cause: Seq<char> },
    WriteFailure { cause: Seq<char> },
}

impl View for CommandError {
    type V = CommandErrorView;

    open spec fn view(&self) -> CommandErrorView {
        match self {
            CommandError::ReadFailure { cause } => CommandErrorView::ReadFailure { cause: cause@ },
            CommandError::WriteFailure { cause } => CommandErrorView::WriteFailure {
                cause: cause@,
            },
        }
    }
}

impl CommandErrorView {
    /// The text shown to the user: a fixed label, then the cause.
    pub open spec fn message(self) -> Seq<char> {
        match self {
            CommandErrorView::ReadFailure { cause } => "Failed to read file: "@ + cause,
            CommandErrorView::WriteFailure { cause } => "Failed to save file: "@ + cause,
        }
    }
}

impl CommandError {
    /// The text shown to the user: a fixed label, then the cause.
    pub fn message(&self) -> (text: String)
        ensures
            text@ == self@.message(),
    {
        match self {
            CommandError::ReadFailure { cause } => String::from_str("Failed to read file: ").concat(
                cause.as_str(),
            ),
            CommandError::WriteFailure { cause } => String::from_str(
                "Failed to save file: ",
            ).concat(cause.as_str()),
        }
    }
}

impl CommandErrorView {
    /// What the file system gave as the reason of the failure.
    pub open spec fn cause(self) -> Seq<char> {
        match self {
            CommandErrorView::ReadFailure { cause } => cause,
            CommandErrorView::WriteFailure { cause } => cause,
        }
    }
}

/// The message of an error ends with its cause, whole and unchanged.
pub proof fn lemma_message_ends_with_cause(error: CommandErrorView)
    ensures
        error.cause().is_suffix_of(error.message()),
{
    let message = error.message();
    let cause = error.cause();
    assert(message.subrange(message.len() - cause.len(), message.len() as int) =~= cause);
}

} // verus!
