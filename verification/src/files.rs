//! The file commands of the front end. The host reads, writes, copies and
//! makes directories; what it reports is turned into the command's outcome
//! here. A failure is reported once, with the host's reason in its message.

use crate::error::{result_model, ErrorKind, ErrorModel, ShellError};
use vstd::prelude::*;
use vstd::string::*;

verus! {

/// An I/O failure whose message is `label` followed by the host's reason.
pub open spec fn io_failure(label: Seq<char>, cause: Seq<char>) -> ErrorModel {
    ErrorModel { kind: ErrorKind::Io, message: label + cause }
}

/// What opens the message when the file at `path` could not be read.
pub open spec fn read_label(path: Seq<char>) -> Seq<char> {
    "Failed to read "@ + path + ": "@
}

/// What opens the message when the file at `path` could not be written.
pub open spec fn write_label(path: Seq<char>) -> Seq<char> {
    "Failed to write "@ + path + ": "@
}

/// What the host's report of an operation comes to: its value as it is, or
/// an I/O failure labelled with `label`.
pub open spec fn io_model<T>(label: Seq<char>, report: Result<T, String>) -> Result<T, ErrorModel> {
    match report {
        Ok(value) => Ok(value),
        Err(cause) => Err(io_failure(label, cause@)),
    }
}

fn io_result<T>(label: &str, report: Result<T, String>) -> (outcome: Result<T, ShellError>)
    ensures
        result_model(outcome) == io_model(label@, report),
{
    match report {
        Ok(value) => Ok(value),
        Err(cause) => Err(ShellError::labelled(ErrorKind::Io, label, cause.as_str())),
    }
}

fn path_label(before: &str, path: &str) -> (label: String)
    ensures
        label@ == before@ + path@ + ": "@,
{
    let mut label = before.to_owned();
    label.append(path);
    label.append(": ");
    label
}

/// The outcome of reading the text file at `path`: the text that the host
/// read, or a failure that names the path.
pub fn read_file_contents(path: &str, read: Result<String, String>) -> (outcome: Result<
    String,
    ShellError,
>)
    ensures
        result_model(outcome) == io_model(read_label(path@), read),
{
    let label = path_label("Failed to read ", path);
    io_result(label.as_str(), read)
}

/// The outcome of writing text to the file at `path`.
pub fn write_file_contents(path: &str, written: Result<(), String>) -> (outcome: Result<
    (),
    ShellError,
>)
    ensures
        result_model(outcome) == io_model(write_label(path@), written),
{
    let label = path_label("Failed to write ", path);
    io_result(label.as_str(), written)
}

/// The outcome of making a directory with all its parents.
pub fn ensure_directory(made: Result<(), String>) -> (outcome: Result<(), ShellError>)
    ensures
        result_model(outcome) == io_model("mkdir failed: "@, made),
{
    io_result("mkdir failed: ", made)
}

/// The outcome of copying a file. The host reports the number of bytes
/// that it copied, which the front end has no use for.
pub fn copy_file(copied: Result<u64, String>) -> (outcome: Result<(), ShellError>)
    ensures
        match copied {
            Ok(_) => outcome is Ok,
            Err(cause) => outcome matches Err(e) && e@ == io_failure("copy failed: "@, cause@),
        },
{
    match io_result("copy failed: ", copied) {
        Ok(_) => Ok(()),
        Err(e) => Err(e),
    }
}

/// The outcome of writing the bytes of a decoded payload.
pub fn binary_file_written(written: Result<(), String>) -> (outcome: Result<(), ShellError>)
    ensures
        result_model(outcome) == io_model("write failed: "@, written),
{
    io_result("write failed: ", written)
}

} // verus!
