//! The editor's state and the transition that every message goes through.
use crate::buffer::{
    action_edits, blank_text, buffer_cursor, buffer_text, buffer_with_text, cursor_of,
    empty_buffer, is_edit, laid_out, perform, performed, text_of, Buffer,
};
use crate::error::Error;
use crate::files::{default_file, default_file_text, path_text};
use crate::message::{Effect, Message};
use crate::theme::{ColorScheme, Theme};
use std::path::PathBuf;
use vstd::prelude::*;

verus! {

/// A document being edited.
pub struct Editor {
    path: Option<PathBuf>,
    content: Buffer,
    error: Option<Error>,
    theme: Theme,
    is_modified: bool,
}

/// What an [`Editor`] holds, as contracts speak of it.
pub ghost struct EditorView {
    /// Where the document lives on disk, once it has been loaded or saved.
    pub path: Option<PathBuf>,
    /// The text buffer.
    pub buffer: Buffer,
    /// The last failure. A later one replaces it; nothing else clears it.
    pub error: Option<Error>,
    /// The highlighting theme.
    pub theme: Theme,
    /// Whether the buffer may differ from what was last loaded or saved.
    pub modified: bool,
}

impl EditorView {
    /// The text in the buffer.
    pub open spec fn text(self) -> Seq<char> {
        buffer_text(self.buffer)
    }

    /// Line and column of the cursor, both counted from zero.
    pub open spec fn cursor(self) -> (nat, nat) {
        buffer_cursor(self.buffer)
    }

    /// Whether the buffer is an empty one, with the cursor at the start.
    pub open spec fn holds_blank(self) -> bool {
        &&& self.text() == blank_text()
        &&& self.cursor() == (0nat, 0nat)
    }

    /// Whether the buffer is one that was just made from `text`, with the
    /// cursor at the start.
    pub open spec fn holds_fresh(self, text: Seq<char>) -> bool {
        &&& self.text() == laid_out(text)
        &&& self.cursor() == (0nat, 0nat)
    }

    /// The state at startup: an empty buffer, no path, no error, the
    /// `SolarizedDark` theme, nothing to save.
    pub open spec fn initial(self) -> bool {
        &&& self.path is None
        &&& self.holds_blank()
        &&& self.error is None
        &&& self.theme == Theme::SolarizedDark
        &&& !self.modified
    }
}

/// The transition: `post` is a state that `message` may lead to from `pre`.
///
/// Every message but `Edit` has exactly one outcome, up to what a new buffer
/// holds beside its text and cursor. For `Edit` the toolkit decides what
/// becomes of the buffer, within [`performed`].
pub open spec fn step(pre: EditorView, message: Message, post: EditorView) -> bool {
    match message {
        Message::Edit(action) => {
            &&& performed(pre.buffer, action, post.buffer)
            &&& post == EditorView {
                buffer: post.buffer,
                modified: pre.modified || action_edits(action),
                ..pre
            }
        },
        Message::Open => post == pre,
        Message::New => {
            &&& post.holds_blank()
            &&& post == EditorView { path: None, buffer: post.buffer, modified: true, ..pre }
        },
        Message::Save => post == pre,
        Message::FileOpened(Ok(loaded)) => {
            &&& post.holds_fresh(loaded.1@)
            &&& post == EditorView {
                path: Some(loaded.0),
                buffer: post.buffer,
                modified: false,
                ..pre
            }
        },
        Message::FileOpened(Err(error)) => post == EditorView { error: Some(error), ..pre },
        Message::FileSaved(Ok(path)) => post == EditorView {
            path: Some(path),
            modified: false,
            ..pre
        },
        Message::FileSaved(Err(error)) => post == EditorView { error: Some(error), ..pre },
        Message::ThemeSelected(theme) => post == EditorView { theme, ..pre },
    }
}

/// The file operation that `message` asks for in state `pre`: `Open` asks to
/// pick a file, `Save` to write the buffer's text to the document's path, and
/// no other message asks for anything.
pub open spec fn requested(pre: EditorView, message: Message, effect: Option<Effect>) -> bool {
    match message {
        Message::Open => effect == Some(Effect::PickFile),
        Message::Save => {
            &&& effect matches Some(Effect::SaveFile { path, contents })
            &&& path == pre.path
            &&& contents@ == pre.text()
        },
        _ => effect is None,
    }
}

impl View for Editor {
    type V = EditorView;

    closed spec fn view(&self) -> EditorView {
        EditorView {
            path: self.path,
            buffer: self.content,
            error: self.error,
            theme: self.theme,
            modified: self.is_modified,
        }
    }
}

impl Editor {
    /// An editor with a blank document and nothing to save.
    pub fn new() -> (editor: Editor)
        ensures
            editor@.initial(),
    {
        Editor {
            content: empty_buffer(),
            error: None,
            path: None,
            theme: Theme::SolarizedDark,
            is_modified: false,
        }
    }

    /// The editor at startup, and the request to load the default document
    /// below `root` into it.
    pub fn initialize(root: &str) -> (start: (Editor, Effect))
        ensures
            start.0@.initial(),
            start.1 matches Effect::LoadFile(path) && path_text(path) == Some(
                default_file_text(root@),
            ),
    {
        (Editor::new(), Effect::LoadFile(default_file(root)))
    }

    /// The window's title.
    pub fn title(&self) -> (title: String)
        ensures
            title@ == "A cool editor!"@,
    {
        String::from_str("A cool editor!")
    }

    /// The window's colour scheme: dark under a dark highlighting theme,
    /// light otherwise.
    pub fn theme(&self) -> (scheme: ColorScheme)
        ensures
            scheme == self@.theme.scheme(),
    {
        if self.theme.is_dark() {
            ColorScheme::Dark
        } else {
            ColorScheme::Light
        }
    }

    /// Notes that an action has reached the buffer: one that edits marks the
    /// document as modified, any other leaves the mark as it is.
    pub fn mark_edited(&mut self, edits: bool)
        ensures
            final(self)@ == (EditorView {
                modified: old(self)@.modified || edits,
                ..old(self)@
            }),
    {
        if edits {
            self.is_modified = true;
        }
    }

    /// Takes one message: moves to the next state and returns the file
    /// operation, if any, that the caller has to run.
    pub fn update(&mut self, message: Message) -> (effect: Option<Effect>)
        ensures
            step(old(self)@, message, final(self)@),
            requested(old(self)@, message, effect),
    {
        match message {
            Message::Edit(action) => {
                self.mark_edited(is_edit(&action));
                perform(&mut self.content, action);
                None
            },
            Message::FileOpened(Ok((path, content))) => {
                self.path = Some(path);
                self.content = buffer_with_text(content.as_str());
                self.is_modified = false;
                None
            },
            Message::FileOpened(Err(error)) => {
                self.error = Some(error);
                None
            },
            Message::Open => Some(Effect::PickFile),
            Message::New => {
                self.path = None;
                self.content = empty_buffer();
                self.is_modified = true;
                None
            },
            Message::Save => {
                let contents = text_of(&self.content);
                Some(Effect::SaveFile { path: self.path.clone(), contents })
            },
            Message::FileSaved(Ok(path)) => {
                self.path = Some(path);
                self.is_modified = false;
                None
            },
            Message::FileSaved(Err(error)) => {
                self.error = Some(error);
                None
            },
            Message::ThemeSelected(theme) => {
                self.theme = theme;
                None
            },
        }
    }

    /// Where the document lives on disk, if it has been loaded or saved.
    pub fn path(&self) -> (path: Option<&PathBuf>)
        ensures
            match path {
                Some(path) => self@.path == Some(*path),
                None => self@.path is None,
            },
    {
        self.path.as_ref()
    }

    /// The text buffer, for the view to draw from.
    pub fn buffer(&self) -> (buffer: &Buffer)
        ensures
            *buffer == self@.buffer,
    {
        &self.content
    }

    /// The text in the buffer.
    pub fn text(&self) -> (text: String)
        ensures
            text@ == self@.text(),
    {
        text_of(&self.content)
    }

    /// Line and column of the cursor, both counted from zero.
    pub fn cursor_position(&self) -> (position: (usize, usize))
        ensures
            (position.0 as nat, position.1 as nat) == self@.cursor(),
    {
        cursor_of(&self.content)
    }

    /// The last failure, if there was one.
    pub fn error(&self) -> (error: Option<&Error>)
        ensures
            match error {
                Some(error) => self@.error == Some(*error),
                None => self@.error is None,
            },
    {
        self.error.as_ref()
    }

    /// The highlighting theme.
    pub fn highlighter(&self) -> (theme: Theme)
        ensures
            theme == self@.theme,
    {
        self.theme
    }

    /// Whether there are unsaved changes.
    pub fn is_modified(&self) -> (modified: bool)
        ensures
            modified == self@.modified,
    {
        self.is_modified
    }
}

} // verus!
