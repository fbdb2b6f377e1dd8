//! Opening a file, saving it unchanged, and opening it again.

use vstd::prelude::*;
use crate::open::{open_file_next, FileDataView, OpenNextView, OpenStepView};
use crate::path::{lemma_normalized_idempotent, normalized};
use crate::save::{save_file_next, SaveNextView, SaveStepView};

verus! {

/// A file that was opened, saved with the text that was read, and opened
/// again comes back as it was, as far as the commands decide it: the file is
/// returned with the very text that the read gave; saving it asks for exactly
/// that text to be written to the path it was read from; and picking the
/// returned path again asks for the same path to be read. What remains is the
/// file system's part, that a read gives what the last write stored.
pub proof fn lemma_open_save_open(picked: Seq<char>, content: Seq<char>)
    ensures
        ({
            let path = normalized(picked);
            let file = FileDataView { path, content };
            &&& open_file_next(OpenStepView::Picked(Some(picked))) == OpenNextView::Read { path }
            &&& open_file_next(OpenStepView::Read { path, outcome: Ok(content) })
                == OpenNextView::Return(Ok(Some(file)))
            &&& save_file_next(SaveStepView::Invoked { path: file.path, content: file.content })
                == SaveNextView::Write { path, content }
            &&& open_file_next(OpenStepView::Picked(Some(file.path))) == OpenNextView::Read { path }
        }),
{
    lemma_normalized_idempotent(picked);
}

} // verus!
