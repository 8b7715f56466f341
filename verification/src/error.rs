//! The failures that a command reports to the front end.

use vstd::prelude::*;
use vstd::string::*;

verus! {

/// What went wrong, by origin.
#[derive(Clone, Copy, Debug, PartialEq, Eq, Structural)]
pub enum ErrorKind {
    /// Reading, writing or copying a file, or making a directory, failed.
    Io,
    /// A payload was not well-formed base64.
    Encode,
    /// An external program ran and reported failure.
    Process,
    /// An external program could not be started.
    Launch,
    /// A resource that ships with the application was not found.
    Resource,
}

/// One failed command. The front end is shown `message` and nothing else;
/// no failure is retried.
#[derive(Clone, Debug, PartialEq, Eq)]
pub struct ShellError {
    pub kind: ErrorKind,
    pub message: String,
}

/// What a `ShellError` stands for.
pub struct ErrorModel {
    pub kind: ErrorKind,
    pub message: Seq<char>,
}

impl View for ShellError {
    type V = ErrorModel;

    open spec fn view(&self) -> ErrorModel {
        ErrorModel { kind: self.kind, message: self.message@ }
    }
}

/// What the outcome of a command stands for.
pub open spec fn result_model<T>(outcome: Result<T, ShellError>) -> Result<T, ErrorModel> {
    match outcome {
        Ok(value) => Ok(value),
        Err(e) => Err(e@),
    }
}

impl ShellError {
    /// Whether this is a failure of `kind` described by `message`.
    pub open spec fn is(&self, kind: ErrorKind, message: Seq<char>) -> bool {
        self@ == (ErrorModel { kind, message })
    }

    /// A failure of `kind` whose message is `label` followed by `cause`.
    pub fn labelled(kind: ErrorKind, label: &str, cause: &str) -> (e: ShellError)
        ensures
            e.is(kind, label@ + cause@),
    {
        let mut message = label.to_owned();
        message.append(cause);
        ShellError { kind, message }
    }

    /// A failure of `kind` described by `message` as it stands.
    pub fn plain(kind: ErrorKind, message: String) -> (e: ShellError)
        ensures
            e.is(kind, message@),
    {
        ShellError { kind, message }
    }

    /// The text shown to the front end.
    pub fn into_message(self) -> (text: String)
        ensures
            text@ == self.message@,
    {
        self.message
    }
}

} // verus!
