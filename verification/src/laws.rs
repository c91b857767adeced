//! What holds of the editor whatever state it is in, proved from the
//! transition and from the outcomes of the file operations.
use crate::buffer::action_edits;
use crate::editor::{step, EditorView};
use crate::error::Error;
use crate::files::{load_outcome, open_outcome, save_outcome};
use crate::message::Message;
use iced::widget::text_editor::Action;
use std::io::ErrorKind;
use std::path::PathBuf;
use std::sync::Arc;
use vstd::prelude::*;

verus! {

/// An action that edits the text leaves the document marked as modified,
/// whatever it was before. An action that does not, such as a movement of the
/// cursor, leaves the mark and the text as they were. Neither touches the
/// path, the error or the theme.
pub proof fn edit_sets_modified(pre: EditorView, action: Action, post: EditorView)
    requires
        step(pre, Message::Edit(action), post),
    ensures
        action_edits(action) ==> post.modified,
        !action_edits(action) ==> post.modified == pre.modified && post.text() == pre.text(),
        post.path == pre.path,
        post.error == pre.error,
        post.theme == pre.theme,
{
}

/// After a file has been read, the document is unmodified, its path is the
/// one that was read, and the buffer is a fresh one made from the text that
/// was read. An earlier error stays on show.
pub proof fn load_success_clears_modified(
    pre: EditorView,
    path: PathBuf,
    text: String,
    post: EditorView,
)
    requires
        step(pre, Message::FileOpened(load_outcome(path, Ok(text))), post),
    ensures
        !post.modified,
        post.path == Some(path),
        post.holds_fresh(text@),
        post.error == pre.error,
        post.theme == pre.theme,
{
}

/// After `New` the document has no path, is marked as modified and holds an
/// empty buffer.
pub proof fn new_is_blank_and_modified(pre: EditorView, post: EditorView)
    requires
        step(pre, Message::New, post),
    ensures
        post.path is None,
        post.modified,
        post.holds_blank(),
        post.error == pre.error,
        post.theme == pre.theme,
{
}

/// After a save that succeeded, the document is unmodified and its path is
/// the one that was written: the path it had when the save began, or, where
/// it had none, the one that the chooser gave. The buffer is not touched.
pub proof fn save_success_sets_path(
    pre: EditorView,
    known: Option<PathBuf>,
    choice: Option<PathBuf>,
    post: EditorView,
)
    requires
        save_outcome(known, choice, Ok(())) is Ok,
        step(pre, Message::FileSaved(save_outcome(known, choice, Ok(()))), post),
    ensures
        !post.modified,
        known is Some ==> post.path == known,
        known is None ==> choice is Some && post.path == choice,
        post.buffer == pre.buffer,
        post.error == pre.error,
        post.theme == pre.theme,
{
}

/// A chooser that is dismissed ends opening with `DialogClosed`, whatever a
/// read would have brought, and the editor then differs from before in its
/// error alone.
pub proof fn cancelled_open_only_sets_error(
    pre: EditorView,
    read: Result<String, ErrorKind>,
    post: EditorView,
)
    requires
        step(pre, Message::FileOpened(open_outcome(None, read)), post),
    ensures
        open_outcome(None, read) == Err::<(PathBuf, Arc<String>), Error>(Error::DialogClosed),
        post == (EditorView { error: Some(Error::DialogClosed), ..pre }),
{
}

/// A chooser that is dismissed ends the saving of a document without a path
/// with `DialogClosed`, whatever a write would have brought, and the editor
/// then differs from before in its error alone: it stays modified.
pub proof fn cancelled_save_only_sets_error(
    pre: EditorView,
    written: Result<(), ErrorKind>,
    post: EditorView,
)
    requires
        step(pre, Message::FileSaved(save_outcome(None, None, written)), post),
    ensures
        save_outcome(None, None, written) == Err::<PathBuf, Error>(Error::DialogClosed),
        post == (EditorView { error: Some(Error::DialogClosed), ..pre }),
{
}

/// A read that fails ends loading with the failure's category, and the editor
/// then shows that error while path, buffer, theme and the modified mark are
/// as before.
pub proof fn load_failure_keeps_document(
    pre: EditorView,
    path: PathBuf,
    kind: ErrorKind,
    post: EditorView,
)
    requires
        step(pre, Message::FileOpened(load_outcome(path, Err(kind))), post),
    ensures
        post.error == Some(Error::IOFailed(kind)),
        post.path == pre.path,
        post.buffer == pre.buffer,
        post.theme == pre.theme,
        post.modified == pre.modified,
{
}

/// A write that fails ends saving with the failure's category, and the editor
/// then shows that error while path, buffer, theme and the modified mark are
/// as before.
pub proof fn save_failure_keeps_document(
    pre: EditorView,
    known: Option<PathBuf>,
    choice: Option<PathBuf>,
    kind: ErrorKind,
    post: EditorView,
)
    requires
        known is Some || choice is Some,
        step(pre, Message::FileSaved(save_outcome(known, choice, Err(kind))), post),
    ensures
        post == (EditorView { error: Some(Error::IOFailed(kind)), ..pre }),
{
}

} // verus!
