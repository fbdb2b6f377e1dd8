//! The native dialogs that the commands ask the shell to show.

use vstd::prelude::*;
use vstd::string::*;

verus! {

/// The application's name, which titles its message boxes.
pub open spec fn app_title() -> Seq<char> {
    "한글MD"@
}

/// A modal message box with an affirmative and a negative button.
#[derive(Debug, Clone, PartialEq, Eq)]
pub struct MessageDialog {
    pub title: String,
    pub message: String,
    pub accept_label: String,
    pub reject_label: String,
}

/// The mathematical value of a `MessageDialog`.
pub struct MessageDialogView {
    pub title: Seq<char>,
    pub message: Seq<char>,
    pub accept_label: Seq<char>,
    pub reject_label: Seq<char>,
}

impl View for MessageDialog {
    type V = MessageDialogView;

    open spec fn view(&self) -> MessageDialogView {
        MessageDialogView {
            title: self.title@,
            message: self.message@,
            accept_label: self.accept_label@,
            reject_label: self.reject_label@,
        }
    }
}

/// The box that asks whether unsaved changes are to be saved.
pub open spec fn unsaved_changes_dialog(message: Seq<char>) -> MessageDialogView {
    MessageDialogView {
        title: app_title(),
        message,
        accept_label: "Save"@,
        reject_label: "Cancel"@,
    }
}

impl MessageDialog {
    /// The box that asks whether unsaved changes are to be saved, with the
    /// caller's prompt as its text.
    pub fn unsaved_changes(message: String) -> (dialog: MessageDialog)
        ensures
            dialog@ == unsaved_changes_dialog(message@),
    {
        MessageDialog {
            title: String::from_str("한글MD"),
            message,
            accept_label: String::from_str("Save"),
            reject_label: String::from_str("Cancel"),
        }
    }
}

/// How the user left a message box.
#[derive(Debug, Clone, Copy, PartialEq, Eq, Structural)]
pub enum DialogChoice {
    /// The affirmative button.
    Accepted,
    /// The negative button.
    Rejected,
    /// The box was closed without a choice.
    Dismissed,
}

/// A native file picker, limited to one kind of file.
#[derive(Debug, Clone, PartialEq, Eq)]
pub struct FileDialog {
    /// The label of the extension filter.
    pub filter_name: String,
    /// The extension that the filter lets through, without a dot.
    pub extension: String,
    /// The file name that a save picker starts with.
    pub default_name: Option<String>,
}

/// The mathematical value of a `FileDialog`.
pub struct FileDialogView {
    pub filter_name: Seq<char>,
    pub extension: Seq<char>,
    pub default_name: Option<Seq<char>>,
}

impl View for FileDialog {
    type V = FileDialogView;

    open spec fn view(&self) -> FileDialogView {
        FileDialogView {
            filter_name: self.filter_name@,
            extension: self.extension@,
            default_name: match self.default_name {
                Some(name) => Some(name@),
                None => None,
            },
        }
    }
}

/// The picker from which a markdown file is opened.
pub open spec fn open_markdown_dialog() -> FileDialogView {
    FileDialogView { filter_name: "Markdown"@, extension: "md"@, default_name: None }
}

/// The picker in which the destination of a markdown file is chosen.
pub open spec fn save_markdown_dialog() -> FileDialogView {
    FileDialogView {
        filter_name: "Markdown"@,
        extension: "md"@,
        default_name: Some("untitled.md"@),
    }
}

impl FileDialog {
    /// The picker from which a markdown file is opened.
    pub fn open_markdown() -> (dialog: FileDialog)
        ensures
            dialog@ == open_markdown_dialog(),
    {
        FileDialog {
            filter_name: String::from_str("Markdown"),
            extension: String::from_str("md"),
            default_name: None,
        }
    }

    /// The picker in which the destination of a markdown file is chosen,
    /// starting at `untitled.md`.
    pub fn save_markdown() -> (dialog: FileDialog)
        ensures
            dialog@ == save_markdown_dialog(),
    {
        FileDialog {
            filter_name: String::from_str("Markdown"),
            extension: String::from_str("md"),
            default_name: Some(String::from_str("untitled.md")),
        }
    }
}

} // verus!
