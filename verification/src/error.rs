//! Failures of the file operations, and how they read in the status bar.
use std::io::ErrorKind;
use vstd::prelude::*;

verus! {

/// `std::io::ErrorKind`, carried through without looking inside.
#[verifier::external_type_specification]
#[verifier::external_body]
pub struct ExErrorKind(ErrorKind);

/// `Clone` of `std::io::ErrorKind`, a plain copy.
pub assume_specification[ <ErrorKind as Clone>::clone ](kind: &ErrorKind) -> (copy: ErrorKind)
    ensures
        copy == *kind,
;

/// The text that `std` prints for an error category.
pub uninterp spec fn kind_description(kind: ErrorKind) -> Seq<char>;

/// Why a file operation did not complete.
#[derive(Debug, Clone, PartialEq, Eq)]
pub enum Error {
    /// A file chooser was dismissed without a choice.
    DialogClosed,
    /// Reading or writing failed; the operating system's category is kept.
    IOFailed(ErrorKind),
}

/// Calls `Display` of `std::io::ErrorKind`: the result is the fixed
/// description that `std` has for the category.
#[verifier::external_body]
pub(crate) fn describe_kind(kind: ErrorKind) -> (text: String)
    ensures
        text@ == kind_description(kind),
{
    format!("{}", kind)
}

/// What the status bar reads for an I/O failure with the given description.
pub open spec fn io_failure_message(description: Seq<char>) -> Seq<char> {
    "IO Error: "@ + description
}

/// The message shown for an I/O failure: its description behind `IO Error: `.
pub fn io_failure_label(description: &str) -> (text: String)
    ensures
        text@ == io_failure_message(description@),
{
    String::from_str("IO Error: ").concat(description)
}

impl Error {
    /// What the status bar reads for this error.
    pub open spec fn message(self) -> Seq<char> {
        match self {
            Error::DialogClosed => "DialogClosed"@,
            Error::IOFailed(kind) => io_failure_message(kind_description(kind)),
        }
    }

    /// The message shown for this error: the fixed word for a dismissed
    /// chooser, or the label of the I/O failure.
    pub fn label(&self) -> (text: String)
        ensures
            text@ == self.message(),
    {
        match self {
            Error::DialogClosed => String::from_str("DialogClosed"),
            Error::IOFailed(kind) => {
                let description = describe_kind(*kind);
                io_failure_label(description.as_str())
            },
        }
    }
}

} // verus!
