use std::io::ErrorKind;
use std::path::PathBuf;
use std::sync::Arc;

use editor_model::error::io_failure_label;
use editor_model::status::{decimal_string, location, position, syntax_for};
use editor_model::{Editor, Error, Message, StatusBar, Theme};
use iced::widget::text_editor::{Action, Edit};

fn editor_at(path: &str, text: &str) -> Editor {
    let mut editor = Editor::new();
    editor.update(Message::FileOpened(Ok((
        PathBuf::from(path),
        Arc::new(String::from(text)),
    ))));
    editor
}

#[test]
fn numbers_are_written_in_decimal() {
    assert_eq!(decimal_string(0), "0");
    assert_eq!(decimal_string(7), "7");
    assert_eq!(decimal_string(10), "10");
    assert_eq!(decimal_string(1234567890), "1234567890");
    assert_eq!(decimal_string(18446744073709551616), "18446744073709551616");
    assert_eq!(
        decimal_string(u128::MAX),
        "340282366920938463463374607431768211455"
    );
}

#[test]
fn the_location_is_the_failure_or_the_path() {
    assert_eq!(
        location(Some("entity not found"), Some(Some("/tmp/x.txt"))),
        (String::from("entity not found"), false)
    );
    assert_eq!(
        location(Some("entity not found"), None),
        (String::from("entity not found"), false)
    );
    assert_eq!(
        location(None, Some(Some("/tmp/x.txt"))),
        (String::from("/tmp/x.txt"), true)
    );
    assert_eq!(location(None, Some(Some(""))), (String::new(), true));
    assert_eq!(location(None, Some(None)), (String::new(), false));
    assert_eq!(location(None, None), (String::from("New File"), false));
}

#[test]
fn the_position_counts_from_one() {
    assert_eq!(position(0, 0), "1:1");
    assert_eq!(position(9, 99), "10:100");
    assert_eq!(position(41, 6), "42:7");
    assert_eq!(
        position(usize::MAX, usize::MAX),
        format!("{0}:{0}", usize::MAX as u128 + 1)
    );
}

#[test]
fn the_syntax_token_defaults_to_rust() {
    assert_eq!(syntax_for(Some("md")), "md");
    assert_eq!(syntax_for(Some("")), "");
    assert_eq!(syntax_for(None), "rs");
}

#[test]
fn an_io_failure_is_labelled() {
    assert_eq!(io_failure_label("entity not found"), "IO Error: entity not found");
    assert_eq!(io_failure_label(""), "IO Error: ");
}

#[test]
fn the_status_bar_of_a_blank_document() {
    let editor = Editor::new();
    assert_eq!(
        editor.status_bar(),
        StatusBar {
            location: String::from("New File"),
            location_is_path: false,
            failure: String::new(),
            position: String::from("1:1"),
        }
    );
}

#[test]
fn the_status_bar_shows_the_path_and_the_cursor() {
    let mut editor = editor_at("/tmp/notes.md", "hello");
    editor.update(Message::Edit(Action::Edit(Edit::Enter)));
    editor.update(Message::Edit(Action::Edit(Edit::Insert('a'))));
    editor.update(Message::Edit(Action::Edit(Edit::Insert('b'))));
    assert_eq!(
        editor.status_bar(),
        StatusBar {
            location: String::from("/tmp/notes.md"),
            location_is_path: true,
            failure: String::new(),
            position: String::from("2:3"),
        }
    );
}

#[test]
fn the_status_bar_after_a_dismissed_chooser() {
    let mut editor = editor_at("/tmp/notes.md", "hello");
    editor.update(Message::FileSaved(Err(Error::DialogClosed)));
    assert_eq!(
        editor.status_bar(),
        StatusBar {
            location: String::from("/tmp/notes.md"),
            location_is_path: true,
            failure: String::from("DialogClosed"),
            position: String::from("1:1"),
        }
    );
}

#[test]
fn the_status_bar_after_an_io_failure() {
    let mut editor = editor_at("/tmp/notes.md", "hello");
    editor.update(Message::FileOpened(Err(Error::IOFailed(
        ErrorKind::NotFound,
    ))));
    assert_eq!(
        editor.status_bar(),
        StatusBar {
            location: ErrorKind::NotFound.to_string(),
            location_is_path: false,
            failure: format!("IO Error: {}", ErrorKind::NotFound),
            position: String::from("1:1"),
        }
    );
    assert_eq!(editor.status_bar().location, "entity not found");
    assert_eq!(editor.status_bar().failure, "IO Error: entity not found");
}

#[test]
fn error_labels() {
    assert_eq!(Error::DialogClosed.label(), "DialogClosed");
    assert_eq!(
        Error::IOFailed(ErrorKind::PermissionDenied).label(),
        "IO Error: permission denied"
    );
}

#[test]
fn the_syntax_follows_the_extension() {
    assert_eq!(Editor::new().syntax(), "rs");
    assert_eq!(editor_at("/tmp/notes.md", "").syntax(), "md");
    assert_eq!(editor_at("/tmp/x.txt", "").syntax(), "txt");
    assert_eq!(editor_at("/tmp/archive.tar.gz", "").syntax(), "gz");
    assert_eq!(editor_at("/tmp/Makefile", "").syntax(), "rs");
    assert_eq!(editor_at("/tmp/.profile", "").syntax(), "rs");
    assert_eq!(editor_at("/tmp/dir.d/", "").syntax(), "d");
}

#[test]
fn save_is_on_offer_only_with_unsaved_changes() {
    let mut editor = Editor::new();
    assert_eq!(editor.save_message(), None);
    editor.update(Message::Edit(Action::Edit(Edit::Insert('a'))));
    assert_eq!(editor.save_message(), Some(Message::Save));
    editor.update(Message::FileSaved(Ok(PathBuf::from("/tmp/x.txt"))));
    assert_eq!(editor.save_message(), None);
    editor.update(Message::New);
    assert_eq!(editor.save_message(), Some(Message::Save));
}

#[test]
fn control_s_saves() {
    assert_eq!(Message::from_key("s", true), Some(Message::Save));
    assert_eq!(Message::from_key("s", false), None);
    assert_eq!(Message::from_key("S", true), None);
    assert_eq!(Message::from_key("o", true), None);
    assert_eq!(Message::from_key("ss", true), None);
    assert_eq!(Message::from_key("", true), None);
    assert_eq!(Message::from_key("\u{15b}", true), None);
}

#[test]
fn themes_are_dark_as_the_highlighter_has_them() {
    let pairs = [
        (Theme::SolarizedDark, iced::highlighter::Theme::SolarizedDark),
        (Theme::Base16Mocha, iced::highlighter::Theme::Base16Mocha),
        (Theme::Base16Ocean, iced::highlighter::Theme::Base16Ocean),
        (Theme::Base16Eighties, iced::highlighter::Theme::Base16Eighties),
        (Theme::InspiredGitHub, iced::highlighter::Theme::InspiredGitHub),
    ];
    assert_eq!(pairs.len(), iced::highlighter::Theme::ALL.len());
    for (ours, theirs) in pairs {
        assert_eq!(ours.is_dark(), theirs.is_dark());
    }
    assert!(Theme::SolarizedDark.is_dark());
    assert!(!Theme::InspiredGitHub.is_dark());
}
