//! The two kinds of failure that the library reports.

use arrow::error::ArrowError;
use vstd::prelude::*;

verus! {

/// Arrow's error type. Nothing of it is read but its text.
#[verifier::external_type_specification]
#[verifier::external_body]
pub struct ExArrowError(ArrowError);

/// The error type of `std::io`. Nothing of it is read but its text.
#[verifier::external_type_specification]
#[verifier::external_body]
pub struct ExIoError(std::io::Error);

/// The text that Arrow gives an error of its own: the words for the
/// error's kind, then what the error holds.
pub uninterp spec fn arrow_text(error: ArrowError) -> Seq<char>;

/// Calls `to_string` on an Arrow error. Arrow writes the text from the
/// error alone, so it is the error's [`arrow_text`].
#[verifier::external_body]
fn arrow_error_text(error: &ArrowError) -> (text: String)
    ensures
        text@ == arrow_text(*error),
{
    error.to_string()
}

/// Calls `to_string` on an error of `std::io`. Nothing is claimed of the
/// text.
#[verifier::external_body]
fn io_error_text(error: &std::io::Error) -> (text: String) {
    error.to_string()
}

/// Why an operation of this library failed.
///
/// Each variant carries the text of the failure that caused it.
#[derive(Clone, Debug, PartialEq, Eq)]
pub enum Error {
    /// The records could not be fetched from the daemon.
    Transport(String),
    /// The columns disagree with the schema, or the stream could not be
    /// written.
    Io(String),
}

impl Error {
    /// The text of the failure, whichever kind it is.
    pub fn message(&self) -> (text: &String)
        ensures
            match *self {
                Error::Transport(m) => *text == m,
                Error::Io(m) => *text == m,
            },
    {
        match self {
            Error::Transport(m) => m,
            Error::Io(m) => m,
        }
    }

    /// The failure that an Arrow error stands for: of the `Io` kind, with
    /// the Arrow error's text, word for word.
    pub(crate) fn from_arrow(error: &ArrowError) -> (failure: Error)
        ensures
            failure matches Error::Io(text) && text@ == arrow_text(*error),
    {
        Error::io(arrow_error_text(error))
    }

    /// The failure that an error of `std::io` stands for: of the `Io` kind,
    /// with whatever text the platform gives that error.
    pub(crate) fn from_io(error: &std::io::Error) -> (failure: Error)
        ensures
            failure is Io,
    {
        Error::io(io_error_text(error))
    }

    /// The failure of the `Io` kind that carries `text`.
    pub fn io(text: String) -> (failure: Error)
        ensures
            failure == Error::Io(text),
    {
        Error::Io(text)
    }

    /// Whether the failure came from fetching the records.
    pub fn is_transport(&self) -> (yes: bool)
        ensures
            yes == (*self is Transport),
    {
        match self {
            Error::Transport(_) => true,
            Error::Io(_) => false,
        }
    }
}

} // verus!
