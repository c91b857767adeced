//! Paths, and the decisions around opening and saving a file. The reads, the
//! writes and the choosers themselves belong to the caller; what each of them
//! brings back is turned into the next step here.
use crate::error::Error;
use std::io::ErrorKind;
use std::path::PathBuf;
use std::sync::Arc;
use vstd::prelude::*;

verus! {

/// `std::path::PathBuf`, carried through without looking inside.
#[verifier::external_type_specification]
#[verifier::external_body]
pub struct ExPathBuf(PathBuf);

/// `Clone` of `std::path::PathBuf`: the same path again.
pub assume_specification[ <PathBuf as Clone>::clone ](path: &PathBuf) -> (copy: PathBuf)
    ensures
        copy == *path,
;

/// A path read as text, where it is valid Unicode.
pub uninterp spec fn path_text(path: PathBuf) -> Option<Seq<char>>;

/// Calls `Path::to_str`, which yields the path as text if it is valid
/// Unicode and nothing otherwise.
#[verifier::external_body]
pub(crate) fn path_as_str(path: &PathBuf) -> (text: Option<&str>)
    ensures
        match text {
            Some(text) => path_text(*path) == Some(text@),
            None => path_text(*path) is None,
        },
{
    path.to_str()
}

/// The extension of a path's file name, as a path of its own.
pub uninterp spec fn path_extension(path: PathBuf) -> Option<PathBuf>;

/// Calls `Path::extension`, which yields what follows the last dot of the
/// file name, if the name has such a part. The extension comes back as a
/// path of its own, so that it can be read as text like any other.
#[verifier::external_body]
pub(crate) fn extension_of(path: &PathBuf) -> (extension: Option<PathBuf>)
    ensures
        extension == path_extension(*path),
{
    path.extension().map(PathBuf::from)
}

/// Calls `PathBuf::from` on a `String`: the path that reads as that text.
#[verifier::external_body]
pub(crate) fn path_from(text: String) -> (path: PathBuf)
    ensures
        path_text(path) == Some(text@),
{
    PathBuf::from(text)
}

/// Where the document opened at startup is, as text: `src/main.rs` below
/// `root`.
pub open spec fn default_file_text(root: Seq<char>) -> Seq<char> {
    root + "/src/main.rs"@
}

/// The name of the document opened at startup: `src/main.rs` below `root`.
pub fn default_file_name(root: &str) -> (name: String)
    ensures
        name@ == default_file_text(root@),
{
    String::from_str(root).concat("/src/main.rs")
}

/// The document opened at startup: `src/main.rs` below `root`.
pub fn default_file(root: &str) -> (path: PathBuf)
    ensures
        path_text(path) == Some(default_file_text(root@)),
{
    path_from(default_file_name(root))
}

/// Where a save goes first.
#[derive(Debug, PartialEq, Eq)]
pub enum Target {
    /// The document has a path: write there.
    Known(PathBuf),
    /// The document has none yet: ask for one.
    Ask,
}

/// What a chooser's answer leads to: the chosen path, or `DialogClosed` where
/// the chooser was dismissed.
pub open spec fn choice_outcome(choice: Option<PathBuf>) -> Result<PathBuf, Error> {
    match choice {
        Some(path) => Ok(path),
        None => Err(Error::DialogClosed),
    }
}

/// What reading `path` leads to: the path with the text that was read, or the
/// failure's category.
pub open spec fn load_outcome(path: PathBuf, read: Result<String, ErrorKind>) -> Result<
    (PathBuf, Arc<String>),
    Error,
> {
    match read {
        Ok(text) => Ok((path, Arc::new(text))),
        Err(kind) => Err(Error::IOFailed(kind)),
    }
}

/// What writing to `path` leads to: the path, or the failure's category.
pub open spec fn write_outcome(path: PathBuf, written: Result<(), ErrorKind>) -> Result<
    PathBuf,
    Error,
> {
    match written {
        Ok(_) => Ok(path),
        Err(kind) => Err(Error::IOFailed(kind)),
    }
}

/// Opening a document from start to end: the chooser's answer, then the read
/// of the chosen file. No read happens after a dismissed chooser.
pub open spec fn open_outcome(choice: Option<PathBuf>, read: Result<String, ErrorKind>) -> Result<
    (PathBuf, Arc<String>),
    Error,
> {
    match choice_outcome(choice) {
        Ok(path) => load_outcome(path, read),
        Err(error) => Err(error),
    }
}

/// Saving a document from start to end: a known path is written to at once;
/// without one the chooser decides, and nothing is written after a dismissed
/// chooser.
pub open spec fn save_outcome(
    known: Option<PathBuf>,
    choice: Option<PathBuf>,
    written: Result<(), ErrorKind>,
) -> Result<PathBuf, Error> {
    match known {
        Some(path) => write_outcome(path, written),
        None => match choice_outcome(choice) {
            Ok(path) => write_outcome(path, written),
            Err(error) => Err(error),
        },
    }
}

/// Decides whether a save can write at once or has to ask for a path first.
pub fn save_target(known: Option<PathBuf>) -> (target: Target)
    ensures
        target == match known {
            Some(path) => Target::Known(path),
            None => Target::Ask,
        },
{
    match known {
        Some(path) => Target::Known(path),
        None => Target::Ask,
    }
}

/// Turns a chooser's answer into the path to go on with, or into
/// `DialogClosed` where the chooser was dismissed.
pub fn chosen(choice: Option<PathBuf>) -> (outcome: Result<PathBuf, Error>)
    ensures
        outcome == choice_outcome(choice),
{
    match choice {
        Some(path) => Ok(path),
        None => Err(Error::DialogClosed),
    }
}

/// Turns the result of reading `path` into what the editor is told.
pub fn loaded(path: PathBuf, read: Result<String, ErrorKind>) -> (outcome: Result<
    (PathBuf, Arc<String>),
    Error,
>)
    ensures
        outcome == load_outcome(path, read),
{
    match read {
        Ok(text) => Ok((path, Arc::new(text))),
        Err(kind) => Err(Error::IOFailed(kind)),
    }
}

/// Turns the result of writing to `path` into what the editor is told.
pub fn saved(path: PathBuf, written: Result<(), ErrorKind>) -> (outcome: Result<PathBuf, Error>)
    ensures
        outcome == write_outcome(path, written),
{
    match written {
        Ok(_) => Ok(path),
        Err(kind) => Err(Error::IOFailed(kind)),
    }
}

} // verus!
