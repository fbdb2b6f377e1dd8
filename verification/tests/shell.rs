use std::collections::{HashMap, HashSet};

use file_commands::{
    confirm_unsaved, open_file, save_file, save_file_as, CommandError, ConfirmNext, ConfirmStep,
    DialogChoice, FileData, OpenNext, OpenStep, SaveAsNext, SaveAsStep, SaveNext, SaveStep,
};

/// A stand-in for the dialogs and the file system, kept in memory.
struct Shell {
    directories: HashSet<String>,
    files: HashMap<String, String>,
    pick: Option<String>,
    choice: DialogChoice,
    shown_pickers: usize,
}

impl Shell {
    fn new() -> Shell {
        let mut directories = HashSet::new();
        directories.insert("/docs".to_string());
        Shell {
            directories,
            files: HashMap::new(),
            pick: None,
            choice: DialogChoice::Dismissed,
            shown_pickers: 0,
        }
    }

    fn with_file(mut self, path: &str, content: &str) -> Shell {
        self.files.insert(path.to_string(), content.to_string());
        self
    }

    fn picking(mut self, path: &str) -> Shell {
        self.pick = Some(path.to_string());
        self
    }

    fn read(&self, path: &str) -> Result<String, String> {
        match self.files.get(path) {
            Some(content) => Ok(content.clone()),
            None => Err("No such file or directory (os error 2)".to_string()),
        }
    }

    fn write(&mut self, path: &str, content: &str) -> Result<(), String> {
        let parent = match path.rfind('/') {
            Some(at) => &path[..at],
            None => "",
        };
        if !self.directories.contains(parent) {
            return Err("No such file or directory (os error 2)".to_string());
        }
        self.files.insert(path.to_string(), content.to_string());
        Ok(())
    }

    fn run_confirm(&mut self, message: &str) -> String {
        let mut next = confirm_unsaved(ConfirmStep::Invoked { message: message.to_string() });
        loop {
            next = match next {
                ConfirmNext::Ask(_) => confirm_unsaved(ConfirmStep::Answered(self.choice)),
                ConfirmNext::Return(answer) => return answer.as_string(),
            };
        }
    }

    fn run_open(&mut self) -> Result<Option<FileData>, CommandError> {
        let mut next = open_file(OpenStep::Invoked);
        loop {
            next = match next {
                OpenNext::Pick(_) => {
                    self.shown_pickers += 1;
                    open_file(OpenStep::Picked(self.pick.clone()))
                }
                OpenNext::Read { path } => {
                    let outcome = self.read(&path);
                    open_file(OpenStep::Read { path, outcome })
                }
                OpenNext::Return(result) => return result,
            };
        }
    }

    fn run_save(&mut self, path: &str, content: &str) -> Result<bool, CommandError> {
        let mut next =
            save_file(SaveStep::Invoked { path: path.to_string(), content: content.to_string() });
        loop {
            next = match next {
                SaveNext::Write { path, content } => {
                    save_file(SaveStep::Written(self.write(&path, &content)))
                }
                SaveNext::Return(result) => return result,
            };
        }
    }

    fn run_save_as(&mut self, content: &str) -> Result<Option<String>, CommandError> {
        let mut next = save_file_as(SaveAsStep::Invoked { content: content.to_string() });
        loop {
            next = match next {
                SaveAsNext::Pick { dialog, content } => {
                    self.shown_pickers += 1;
                    assert_eq!(dialog.default_name, Some("untitled.md".to_string()));
                    save_file_as(SaveAsStep::Picked { picked: self.pick.clone(), content })
                }
                SaveAsNext::Write { path, content } => {
                    let outcome = self.write(&path, &content);
                    save_file_as(SaveAsStep::Written { path, outcome })
                }
                SaveAsNext::Return(result) => return result,
            };
        }
    }
}

#[test]
fn open_then_save_then_open_returns_the_same_file() {
    let mut shell =
        Shell::new().with_file("/docs/notes.md", "# Title\n\nBody").picking("file:///docs/notes.md");
    let first = shell.run_open().unwrap().unwrap();
    assert_eq!(first.path, "/docs/notes.md");
    assert_eq!(first.content, "# Title\n\nBody");
    assert_eq!(shell.run_save(&first.path, &first.content), Ok(true));
    shell.pick = Some(first.path.clone());
    let second = shell.run_open().unwrap().unwrap();
    assert_eq!(second, first);
}

#[test]
fn saving_over_existing_text_replaces_it() {
    let mut shell = Shell::new().with_file("/docs/notes.md", "# Title");
    assert_eq!(shell.run_save("/docs/notes.md", "# Title\n\nBody"), Ok(true));
    assert_eq!(shell.read("/docs/notes.md"), Ok("# Title\n\nBody".to_string()));
}

#[test]
fn saving_shorter_text_leaves_nothing_of_the_longer() {
    let mut shell = Shell::new().with_file("/docs/notes.md", "a long line of text\nand another");
    assert_eq!(shell.run_save("/docs/notes.md", "short"), Ok(true));
    assert_eq!(shell.read("/docs/notes.md"), Ok("short".to_string()));
    assert_eq!(shell.run_save("/docs/notes.md", ""), Ok(true));
    assert_eq!(shell.read("/docs/notes.md"), Ok(String::new()));
}

#[test]
fn saving_into_a_missing_directory_fails_with_the_cause() {
    let mut shell = Shell::new();
    let error = shell.run_save("/nowhere/deep/notes.md", "text").unwrap_err();
    assert_eq!(
        error,
        CommandError::WriteFailure { cause: "No such file or directory (os error 2)".to_string() }
    );
    assert_eq!(error.message(), "Failed to save file: No such file or directory (os error 2)");
    assert!(error.message().contains("No such file or directory"));
    assert!(shell.files.is_empty());
}

#[test]
fn opening_a_missing_file_fails_with_the_cause() {
    let mut shell = Shell::new().picking("/docs/gone.md");
    let error = shell.run_open().unwrap_err();
    assert_eq!(error.message(), "Failed to read file: No such file or directory (os error 2)");
}

#[test]
fn dismissing_the_open_picker_ends_without_file_or_error() {
    let mut shell = Shell::new().with_file("/docs/notes.md", "# Title");
    assert_eq!(shell.run_open(), Ok(None));
    assert_eq!(shell.shown_pickers, 1);
}

#[test]
fn dismissing_the_save_picker_ends_without_path_or_error() {
    let mut shell = Shell::new();
    assert_eq!(shell.run_save_as("# Title"), Ok(None));
    assert_eq!(shell.shown_pickers, 1);
    assert!(shell.files.is_empty());
}

#[test]
fn save_as_writes_to_the_chosen_destination_and_returns_it() {
    let mut shell = Shell::new().picking("file:///docs/untitled.md");
    assert_eq!(shell.run_save_as("# New"), Ok(Some("/docs/untitled.md".to_string())));
    assert_eq!(shell.read("/docs/untitled.md"), Ok("# New".to_string()));
    shell.pick = Some("/docs/untitled.md".to_string());
    assert_eq!(
        shell.run_open(),
        Ok(Some(FileData { path: "/docs/untitled.md".to_string(), content: "# New".to_string() }))
    );
}

#[test]
fn save_as_into_a_missing_directory_fails_with_the_cause() {
    let mut shell = Shell::new().picking("/nowhere/untitled.md");
    let error = shell.run_save_as("# New").unwrap_err();
    assert_eq!(error.message(), "Failed to save file: No such file or directory (os error 2)");
}

#[test]
fn confirmation_follows_the_button() {
    let mut shell = Shell::new();
    shell.choice = DialogChoice::Accepted;
    assert_eq!(shell.run_confirm("Save changes?"), "save");
    shell.choice = DialogChoice::Rejected;
    assert_eq!(shell.run_confirm("Save changes?"), "cancel");
    shell.choice = DialogChoice::Dismissed;
    assert_eq!(shell.run_confirm("Save changes?"), "cancel");
}
