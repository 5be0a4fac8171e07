//! The editing session: which file is open, whether unsaved edits exist,
//! and how file opening and saving step those flags.
use vstd::prelude::*;

verus! {

/// What fills the application's one screen.
#[derive(Debug)]
pub enum Screen {
    Editor(crate::editor::Editor),
}

/// Why opening or saving a file failed.
#[derive(Debug, Clone, PartialEq, Eq)]
pub enum FileError {
    /// The user closed the file dialog without choosing a path.
    DialogClosed,
    /// The read or write failed; the message names the cause.
    Io(String),
}

/// One input to the session.
#[derive(Debug)]
pub enum Message {
    /// The editor widget performed an action; `is_edit` says whether it
    /// changed the text.
    ActionPerformed { is_edit: bool },
    NewFile,
    OpenFile,
    /// A load finished; success carries the path that was read.
    FileOpened(Result<String, FileError>),
    SaveFile,
    /// A save finished; success carries the path that was written.
    FileSaved(Result<String, FileError>),
}

/// Outside work an update asks the caller to perform.
#[derive(Debug, Clone, PartialEq, Eq, Structural)]
pub enum Action {
    /// Nothing to do.
    Idle,
    /// Hand the performed action on to the text widget.
    ApplyEdit,
    /// Clear the text widget for the fresh file.
    ResetContent,
    /// Ask for a file and load it; answer with `FileOpened`.
    OpenFileDialog,
    /// Collect the text, complete its trailing line ending, and write it;
    /// answer with `FileSaved`.
    SaveContent,
}

/// The session's state.
#[derive(Debug)]
pub struct Session {
    pub file: Option<String>,
    pub word_wrap: bool,
    pub is_loading: bool,
    pub is_dirty: bool,
}

impl Session {
    /// A starting session: no file yet, wrapping on, and loading until the
    /// initial file request answers.
    pub fn new() -> (s: Session)
        ensures
            s.file is None,
            s.word_wrap,
            s.is_loading,
            !s.is_dirty,
    {
        Session { file: None, word_wrap: true, is_loading: true, is_dirty: false }
    }

    /// Steps the session on one message. Edits mark the session dirty;
    /// opening and saving are refused while a load is in flight; a finished
    /// load or save adopts the path and clears the dirty flag.
    pub fn update(&mut self, message: Message) -> (action: Action)
        ensures
            spec_session_update(*old(self), *final(self), message, action),
    {
        match message {
            Message::ActionPerformed { is_edit } => {
                self.is_dirty = self.is_dirty || is_edit;
                Action::ApplyEdit
            },
            Message::NewFile => {
                if !self.is_loading {
                    self.file = None;
                    Action::ResetContent
                } else {
                    Action::Idle
                }
            },
            Message::OpenFile => {
                if self.is_loading {
                    Action::Idle
                } else {
                    self.is_loading = true;
                    Action::OpenFileDialog
                }
            },
            Message::FileOpened(result) => {
                self.is_loading = false;
                self.is_dirty = false;
                match result {
                    Ok(path) => {
                        self.file = Some(path);
                    },
                    Err(_) => {},
                }
                Action::Idle
            },
            Message::SaveFile => {
                if self.is_loading {
                    Action::Idle
                } else {
                    self.is_loading = true;
                    Action::SaveContent
                }
            },
            Message::FileSaved(result) => {
                self.is_loading = false;
                match result {
                    Ok(path) => {
                        self.file = Some(path);
                        self.is_dirty = false;
                    },
                    Err(_) => {},
                }
                Action::Idle
            },
        }
    }
}

/// How one message steps the session: relates the state after `update` and
/// the action it returns to the state before it.
pub open spec fn spec_session_update(
    old_s: Session,
    new_s: Session,
    message: Message,
    action: Action,
) -> bool {
    match message {
        Message::ActionPerformed { is_edit } => {
            &&& new_s == (Session { is_dirty: old_s.is_dirty || is_edit, ..old_s })
            &&& action == Action::ApplyEdit
        },
        Message::NewFile => {
            if old_s.is_loading {
                new_s == old_s && action == Action::Idle
            } else {
                new_s == (Session { file: Option::<String>::None, ..old_s }) && action
                    == Action::ResetContent
            }
        },
        Message::OpenFile => {
            if old_s.is_loading {
                new_s == old_s && action == Action::Idle
            } else {
                new_s == (Session { is_loading: true, ..old_s }) && action
                    == Action::OpenFileDialog
            }
        },
        Message::FileOpened(result) => {
            &&& match result {
                Ok(path) => new_s == (Session {
                    file: Some(path),
                    is_loading: false,
                    is_dirty: false,
                    ..old_s
                }),
                Err(_) => new_s == (Session { is_loading: false, is_dirty: false, ..old_s }),
            }
            &&& action == Action::Idle
        },
        Message::SaveFile => {
            if old_s.is_loading {
                new_s == old_s && action == Action::Idle
            } else {
                new_s == (Session { is_loading: true, ..old_s }) && action == Action::SaveContent
            }
        },
        Message::FileSaved(result) => {
            &&& match result {
                Ok(path) => new_s == (Session {
                    file: Some(path),
                    is_loading: false,
                    is_dirty: false,
                    ..old_s
                }),
                Err(_) => new_s == (Session { is_loading: false, ..old_s }),
            }
            &&& action == Action::Idle
        },
    }
}

} // verus!
