//! Command logic of a desktop markdown editor: confirming unsaved changes,
//! opening a file, saving a file, and saving under a newly chosen name.
//!
//! Dialogs and the file system belong to the shell around this library. Each
//! command is a step function: the shell reports what happened, the function
//! answers with what to do next, until it hands out the command's result.

pub mod confirm;
pub mod dialog;
pub mod error;
pub mod open;
pub mod path;
pub mod round_trip;
pub mod save;

pub use confirm::{confirm_unsaved, ConfirmNext, ConfirmStep, ConfirmationAnswer};
pub use dialog::{DialogChoice, FileDialog, MessageDialog};
pub use error::CommandError;
pub use open::{open_file, FileData, OpenNext, OpenStep};
pub use path::normalize_path;
pub use save::{save_file, save_file_as, SaveAsNext, SaveAsStep, SaveNext, SaveStep};
