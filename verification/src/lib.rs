//! The state of a small text editor, kept apart from the window that shows it.
//!
//! An [`Editor`] holds the document: where it lives on disk, the toolkit's
//! text buffer, the last failure, the highlighting theme and whether there are
//! unsaved changes. [`Editor::update`] takes one [`Message`] at a time and says
//! which [`Effect`], if any, the caller has to run; the outcome of an effect
//! comes back as another message.
pub mod buffer;
pub mod editor;
pub mod error;
pub mod files;
pub mod laws;
pub mod message;
pub mod status;
pub mod theme;

pub use buffer::Buffer;
pub use editor::{Editor, EditorView};
pub use error::Error;
pub use files::{default_file, Target};
pub use message::{Effect, Message};
pub use status::StatusBar;
pub use theme::{ColorScheme, Theme};

