//! What the editor is told, and what it asks its caller to do.
use crate::error::Error;
use crate::theme::Theme;
use iced::widget::text_editor::Action;
use std::path::PathBuf;
use std::sync::Arc;
use vstd::prelude::*;

verus! {

/// `Clone` of the toolkit's `Action`: the same action again.
pub assume_specification[ <Action as Clone>::clone ](action: &Action) -> (copy: Action)
    ensures
        copy == *action,
;

/// `Clone` of `Result`: the same variant, holding a clone of what it held.
pub assume_specification<T, E>[ <Result<T, E> as Clone>::clone ](result: &Result<T, E>) -> (copy:
    Result<T, E>) where T: Clone, E: Clone
    ensures
        match (*result, copy) {
            (Ok(a), Ok(b)) => cloned::<T>(a, b),
            (Err(a), Err(b)) => cloned::<E>(a, b),
            _ => false,
        },
;

/// One thing that happened: something the user did, or the end of a file
/// operation.
#[derive(Debug, Clone, PartialEq)]
pub enum Message {
    /// The user acted on the text area.
    Edit(Action),
    /// The user asked to open a file.
    Open,
    /// The user asked for a blank document.
    New,
    /// The user asked to save the document.
    Save,
    /// Opening ended: with the path and the text that was read, or in failure.
    FileOpened(Result<(PathBuf, Arc<String>), Error>),
    /// Saving ended: with the path that was written, or in failure.
    FileSaved(Result<PathBuf, Error>),
    /// The user picked a highlighting theme.
    ThemeSelected(Theme),
}

impl Message {
    /// The message behind a key press: `Save` for the character `s` with the
    /// control key held, and none for any other key.
    pub fn from_key(character: &str, control: bool) -> (message: Option<Message>)
        ensures
            message == if character@ == "s"@ && control {
                Some(Message::Save)
            } else {
                None
            },
    {
        proof {
            reveal_strlit("s");
        }
        if control && character.unicode_len() == 1 && character.get_char(0) == 's' {
            assert(character@ =~= "s"@);
            Some(Message::Save)
        } else {
            None
        }
    }
}

/// A file operation for the caller to run. Its outcome comes back as a
/// [`Message`].
#[derive(Debug, PartialEq, Eq)]
pub enum Effect {
    /// Read the file at the path; answer with `FileOpened`.
    LoadFile(PathBuf),
    /// Let the user choose a file and read it; answer with `FileOpened`.
    PickFile,
    /// Write `contents` to `path`, asking for a path first where there is
    /// none; answer with `FileSaved`.
    SaveFile { path: Option<PathBuf>, contents: String },
}

} // verus!
