//! What the window shows beside the text: the status bar, the token that
//! selects the syntax to highlight, and whether saving is on offer.
use crate::editor::{Editor, EditorView};
use crate::error::{describe_kind, kind_description, Error};
use crate::files::{extension_of, path_as_str, path_extension, path_text};
use crate::message::Message;
use vstd::prelude::*;

verus! {

/// The character for a single decimal digit.
pub open spec fn digit(d: nat) -> char {
    if d == 0 {
        '0'
    } else if d == 1 {
        '1'
    } else if d == 2 {
        '2'
    } else if d == 3 {
        '3'
    } else if d == 4 {
        '4'
    } else if d == 5 {
        '5'
    } else if d == 6 {
        '6'
    } else if d == 7 {
        '7'
    } else if d == 8 {
        '8'
    } else {
        '9'
    }
}

/// A number written in decimal, without leading zeros.
pub open spec fn decimal(n: nat) -> Seq<char>
    decreases n,
{
    if n < 10 {
        seq![digit(n)]
    } else {
        decimal(n / 10).push(digit(n % 10))
    }
}

/// The left of the status bar, and whether it is the document's path.
///
/// `io_failure` is the description of the last failure if that was an I/O
/// failure. `path` is the document's path read as text: the outer level says
/// whether there is a path, the inner whether it is valid Unicode. An I/O
/// failure takes the place of the path; a document without a path reads
/// `New File`; a path that is not valid Unicode reads as nothing.
pub open spec fn location_of(io_failure: Option<Seq<char>>, path: Option<Option<Seq<char>>>) -> (
    Seq<char>,
    bool,
) {
    match io_failure {
        Some(description) => (description, false),
        None => match path {
            Some(Some(text)) => (text, true),
            Some(None) => (Seq::empty(), false),
            None => ("New File"@, false),
        },
    }
}

/// The right of the status bar: line and column, counted from one, with a
/// colon between them. `line` and `column` are counted from zero.
pub open spec fn position_of(line: nat, column: nat) -> Seq<char> {
    decimal(line + 1) + ":"@ + decimal(column + 1)
}

/// The token that selects the syntax to highlight: the extension where there
/// is one, and `rs` otherwise.
pub open spec fn syntax_of(extension: Option<Seq<char>>) -> Seq<char> {
    match extension {
        Some(text) => text,
        None => "rs"@,
    }
}

/// The description of the editor's last failure, if that was an I/O failure.
pub open spec fn failure_description(editor: EditorView) -> Option<Seq<char>> {
    match editor.error {
        Some(Error::IOFailed(kind)) => Some(kind_description(kind)),
        _ => None,
    }
}

/// The editor's path read as text.
pub open spec fn path_reading(editor: EditorView) -> Option<Option<Seq<char>>> {
    match editor.path {
        Some(path) => Some(path_text(path)),
        None => None,
    }
}

/// The extension of the editor's path read as text, where the path has one
/// that is valid Unicode.
pub open spec fn extension_reading(editor: EditorView) -> Option<Seq<char>> {
    match editor.path {
        Some(path) => match path_extension(path) {
            Some(extension) => path_text(extension),
            None => None,
        },
        None => None,
    }
}

/// The middle of the status bar: the last failure, or nothing.
pub open spec fn failure_text(editor: EditorView) -> Seq<char> {
    match editor.error {
        Some(error) => error.message(),
        None => Seq::empty(),
    }
}

/// The texts of the status bar.
#[derive(Debug, PartialEq, Eq)]
pub struct StatusBar {
    /// Where the document is, or what went wrong with it.
    pub location: String,
    /// Whether `location` is the document's path, which the bar sets in
    /// smaller type than its other texts.
    pub location_is_path: bool,
    /// The last failure.
    pub failure: String,
    /// Where the cursor is.
    pub position: String,
}

fn digit_str(d: u8) -> (text: &'static str)
    requires
        d < 10,
    ensures
        text@ == seq![digit(d as nat)],
{
    proof {
        reveal_strlit("0");
        reveal_strlit("1");
        reveal_strlit("2");
        reveal_strlit("3");
        reveal_strlit("4");
        reveal_strlit("5");
        reveal_strlit("6");
        reveal_strlit("7");
        reveal_strlit("8");
        reveal_strlit("9");
    }
    let text = match d {
        0 => "0",
        1 => "1",
        2 => "2",
        3 => "3",
        4 => "4",
        5 => "5",
        6 => "6",
        7 => "7",
        8 => "8",
        _ => "9",
    };
    assert(text@ =~= seq![digit(d as nat)]);
    text
}

/// Writes a number in decimal.
pub fn decimal_string(n: u128) -> (text: String)
    ensures
        text@ == decimal(n as nat),
    decreases n,
{
    if n < 10 {
        String::from_str(digit_str(n as u8))
    } else {
        let mut text = decimal_string(n / 10);
        text.append(digit_str((n % 10) as u8));
        text
    }
}

/// The left of the status bar, and whether it is the document's path; see
/// [`location_of`].
pub fn location(io_failure: Option<&str>, path: Option<Option<&str>>) -> (shown: (String, bool))
    ensures
        (shown.0@, shown.1) == location_of(
            match io_failure {
                Some(description) => Some(description@),
                None => None,
            },
            match path {
                Some(Some(text)) => Some(Some(text@)),
                Some(None) => Some(None),
                None => None,
            },
        ),
{
    match io_failure {
        Some(description) => (String::from_str(description), false),
        None => match path {
            Some(Some(text)) => (String::from_str(text), true),
            Some(None) => (String::new(), false),
            None => (String::from_str("New File"), false),
        },
    }
}

/// The right of the status bar for a cursor at `line` and `column`, both
/// counted from zero; see [`position_of`].
pub fn position(line: usize, column: usize) -> (text: String)
    ensures
        text@ == position_of(line as nat, column as nat),
{
    let mut text = decimal_string(line as u128 + 1);
    text.append(":");
    text.append(decimal_string(column as u128 + 1).as_str());
    text
}

/// The token that selects the syntax to highlight; see [`syntax_of`].
pub fn syntax_for(extension: Option<&str>) -> (token: String)
    ensures
        token@ == syntax_of(
            match extension {
                Some(text) => Some(text@),
                None => None,
            },
        ),
{
    match extension {
        Some(text) => String::from_str(text),
        None => String::from_str("rs"),
    }
}

impl Editor {
    /// The texts of the status bar for the current state.
    pub fn status_bar(&self) -> (bar: StatusBar)
        ensures
            (bar.location@, bar.location_is_path) == location_of(
                failure_description(self@),
                path_reading(self@),
            ),
            bar.failure@ == failure_text(self@),
            bar.position@ == position_of(self@.cursor().0, self@.cursor().1),
    {
        let description = match self.error() {
            Some(Error::IOFailed(kind)) => Some(describe_kind(*kind)),
            _ => None,
        };
        let shown = location(
            match &description {
                Some(text) => Some(text.as_str()),
                None => None,
            },
            match self.path() {
                Some(path) => Some(path_as_str(path)),
                None => None,
            },
        );
        let failure = match self.error() {
            Some(error) => error.label(),
            None => String::new(),
        };
        let cursor = self.cursor_position();
        StatusBar {
            location: shown.0,
            location_is_path: shown.1,
            failure,
            position: position(cursor.0, cursor.1),
        }
    }

    /// The token that selects the syntax to highlight: the extension of the
    /// document's path where it has one that is valid Unicode, and `rs`
    /// otherwise.
    pub fn syntax(&self) -> (token: String)
        ensures
            token@ == syntax_of(extension_reading(self@)),
    {
        let extension = match self.path() {
            Some(path) => extension_of(path),
            None => None,
        };
        syntax_for(
            match &extension {
                Some(extension) => path_as_str(extension),
                None => None,
            },
        )
    }

    /// The message behind the save button: `Save` while there are unsaved
    /// changes, and none otherwise, which leaves the button disabled.
    pub fn save_message(&self) -> (message: Option<Message>)
        ensures
            message == if self@.modified {
                Some(Message::Save)
            } else {
                None
            },
    {
        if self.is_modified() {
            Some(Message::Save)
        } else {
            None
        }
    }
}

} // verus!
