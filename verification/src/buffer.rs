//! The toolkit's text buffer, and what the editor relies on when it uses one.
use iced::widget::text_editor::{Action, Content};
use vstd::prelude::*;

verus! {

/// The text buffer of the toolkit's editor widget, with its cursor and
/// selection. The library never looks inside: it hands the buffer actions and
/// asks it for its text and cursor.
#[verifier::external_body]
pub struct Buffer {
    /// The widget state, for the view to draw from.
    pub content: Content,
}

/// An interaction with the editor widget: a motion, a selection, an edit, a
/// click, a drag or a scroll.
#[verifier::external_type_specification]
#[verifier::external_body]
pub struct ExAction(Action);

/// The text that a buffer holds, as `Content::text` hands it out: its lines
/// joined by line feeds, and one more line feed where that does not already
/// end in one.
pub uninterp spec fn buffer_text(buffer: Buffer) -> Seq<char>;

/// Line and column of a buffer's cursor as the toolkit counts them, both from
/// zero.
pub uninterp spec fn buffer_cursor(buffer: Buffer) -> (nat, nat);

/// The text of an empty buffer: a single empty line, which reads as one line
/// feed.
pub open spec fn blank_text() -> Seq<char> {
    seq!['\n']
}

/// The text of a buffer that was just made from `text`.
pub uninterp spec fn laid_out(text: Seq<char>) -> Seq<char>;

/// Whether the toolkit counts an action as an edit of the text.
pub uninterp spec fn action_edits(action: Action) -> bool;

/// What performing an action may do to a buffer: an action that is no edit
/// leaves the text as it was.
pub open spec fn performed(before: Buffer, action: Action, after: Buffer) -> bool {
    !action_edits(action) ==> buffer_text(after) == buffer_text(before)
}

/// Calls `Content::new`, which makes a buffer with a single empty line and
/// the cursor at the start.
#[verifier::external_body]
pub(crate) fn empty_buffer() -> (buffer: Buffer)
    ensures
        buffer_text(buffer) == blank_text(),
        buffer_cursor(buffer) == (0nat, 0nat),
{
    Buffer { content: Content::new() }
}

/// Calls `Content::with_text`, which makes a buffer from the lines of `text`,
/// with the cursor at the start.
#[verifier::external_body]
pub(crate) fn buffer_with_text(text: &str) -> (buffer: Buffer)
    ensures
        buffer_text(buffer) == laid_out(text@),
        buffer_cursor(buffer) == (0nat, 0nat),
{
    Buffer { content: Content::with_text(text) }
}

/// Calls `Content::perform`. Motions, selections, clicks, drags and scrolls
/// move the cursor or the view and never touch the text; what an edit makes of
/// the text is left to the toolkit.
#[verifier::external_body]
pub(crate) fn perform(buffer: &mut Buffer, action: Action)
    ensures
        performed(*old(buffer), action, *final(buffer)),
{
    buffer.content.perform(action)
}

/// Calls `Content::text`: the lines of the buffer joined by line feeds, and
/// one more line feed where that does not already end in one.
#[verifier::external_body]
pub(crate) fn text_of(buffer: &Buffer) -> (text: String)
    ensures
        text@ == buffer_text(*buffer),
{
    buffer.content.text()
}

/// Calls `Content::cursor_position`: line and column of the cursor, both
/// counted from zero.
#[verifier::external_body]
pub(crate) fn cursor_of(buffer: &Buffer) -> (position: (usize, usize))
    ensures
        (position.0 as nat, position.1 as nat) == buffer_cursor(*buffer),
{
    buffer.content.cursor_position()
}

/// Calls `Action::is_edit`, which tells the edits from the other actions.
#[verifier::external_body]
pub(crate) fn is_edit(action: &Action) -> (edits: bool)
    ensures
        edits == action_edits(*action),
{
    action.is_edit()
}

} // verus!
