use file_commands::{open_file, CommandError, FileData, FileDialog, OpenNext, OpenStep};

#[test]
fn invoking_asks_for_the_markdown_picker() {
    assert_eq!(
        open_file(OpenStep::Invoked),
        OpenNext::Pick(FileDialog {
            filter_name: "Markdown".to_string(),
            extension: "md".to_string(),
            default_name: None,
        })
    );
    assert_eq!(open_file(OpenStep::Invoked), OpenNext::Pick(FileDialog::open_markdown()));
}

#[test]
fn dismissed_open_picker_gives_no_file_and_no_error() {
    assert_eq!(open_file(OpenStep::Picked(None)), OpenNext::Return(Ok(None)));
}

#[test]
fn picked_path_is_read_without_its_scheme() {
    assert_eq!(
        open_file(OpenStep::Picked(Some("file:///docs/notes.md".to_string()))),
        OpenNext::Read { path: "/docs/notes.md".to_string() }
    );
}

#[test]
fn picked_plain_path_is_read_as_it_is() {
    assert_eq!(
        open_file(OpenStep::Picked(Some("/docs/notes.md".to_string()))),
        OpenNext::Read { path: "/docs/notes.md".to_string() }
    );
}

#[test]
fn finished_read_returns_path_and_text() {
    assert_eq!(
        open_file(OpenStep::Read {
            path: "/docs/notes.md".to_string(),
            outcome: Ok("# Title".to_string()),
        }),
        OpenNext::Return(Ok(Some(FileData {
            path: "/docs/notes.md".to_string(),
            content: "# Title".to_string(),
        })))
    );
}

#[test]
fn empty_file_is_returned_with_empty_text() {
    assert_eq!(
        open_file(OpenStep::Read { path: "/empty.md".to_string(), outcome: Ok(String::new()) }),
        OpenNext::Return(Ok(Some(FileData {
            path: "/empty.md".to_string(),
            content: String::new(),
        })))
    );
}

#[test]
fn failed_read_returns_a_read_failure_with_the_cause() {
    let next = open_file(OpenStep::Read {
        path: "/docs/gone.md".to_string(),
        outcome: Err("No such file or directory (os error 2)".to_string()),
    });
    assert_eq!(
        next,
        OpenNext::Return(Err(CommandError::ReadFailure {
            cause: "No such file or directory (os error 2)".to_string(),
        }))
    );
    match next {
        OpenNext::Return(Err(error)) => assert_eq!(
            error.message(),
            "Failed to read file: No such file or directory (os error 2)"
        ),
        other => panic!("expected an error, got {:?}", other),
    }
}

#[test]
fn read_failure_with_empty_cause_keeps_the_label() {
    let error = CommandError::ReadFailure { cause: String::new() };
    assert_eq!(error.message(), "Failed to read file: ");
}
