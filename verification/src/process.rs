//! External programs: how one is asked to run, what the host reports of the
//! run, and what that report comes to for the command that asked.

use crate::error::{result_model, ErrorKind, ErrorModel, ShellError};
use vstd::prelude::*;
use vstd::utf8::{decode_utf8, valid_utf8};

verus! {

/// A program for the host to run, with its arguments in order.
#[derive(Clone, Debug, PartialEq, Eq)]
pub struct ProcessRequest {
    pub program: String,
    pub args: Vec<String>,
}

/// What a `ProcessRequest` stands for.
pub struct RequestModel {
    pub program: Seq<char>,
    pub args: Seq<Seq<char>>,
}

impl View for ProcessRequest {
    type V = RequestModel;

    open spec fn view(&self) -> RequestModel {
        RequestModel { program: self.program@, args: self.args.deep_view() }
    }
}

/// What the host saw of a program that it was asked to run.
#[derive(Clone, Debug, PartialEq, Eq)]
pub enum ProcessReport {
    /// The program could not be started, for the reason given.
    NotStarted(String),
    /// The program ran to its end.
    Exited {
        /// Whether its exit status says success.
        success: bool,
        /// What it wrote to standard error.
        stderr: Vec<u8>,
    },
}

/// What a `ProcessReport` stands for.
pub enum ReportModel {
    NotStarted(Seq<char>),
    Exited { success: bool, stderr: Seq<u8> },
}

impl View for ProcessReport {
    type V = ReportModel;

    open spec fn view(&self) -> ReportModel {
        match self {
            ProcessReport::NotStarted(cause) => ReportModel::NotStarted(cause@),
            ProcessReport::Exited { success, stderr } => ReportModel::Exited {
                success: *success,
                stderr: stderr@,
            },
        }
    }
}

/// The text that `bytes` are read as where they need not be UTF-8: every
/// ill-formed part is replaced by U+FFFD.
pub uninterp spec fn utf8_lossy(bytes: Seq<u8>) -> Seq<char>;

/// Calls `String::from_utf8_lossy`. The text depends on `bytes` alone, and
/// bytes that are well-formed UTF-8 are read as they stand.
#[verifier::external_body]
fn lossy_text(bytes: &[u8]) -> (text: String)
    ensures
        text@ == utf8_lossy(bytes@),
        valid_utf8(bytes@) ==> text@ == decode_utf8(bytes@),
{
    String::from_utf8_lossy(bytes).into_owned()
}

/// What the end of a program comes to, given what it wrote to standard
/// error as text: success, or a failure whose message is that text.
pub open spec fn exit_model(success: bool, stderr_text: Seq<char>) -> Result<(), ErrorModel> {
    if success {
        Ok(())
    } else {
        Err(ErrorModel { kind: ErrorKind::Process, message: stderr_text })
    }
}

/// What a report comes to. A program that did not start is a launch failure
/// whose message is `label` followed by the reason.
pub open spec fn report_model(label: Seq<char>, report: ReportModel) -> Result<(), ErrorModel> {
    match report {
        ReportModel::NotStarted(cause) => Err(
            ErrorModel { kind: ErrorKind::Launch, message: label + cause },
        ),
        ReportModel::Exited { success, stderr } => exit_model(success, utf8_lossy(stderr)),
    }
}

/// Judges the end of a program by its exit status alone. On failure the
/// whole of its standard error, as text, is the message.
pub fn exit_result(success: bool, stderr_text: String) -> (outcome: Result<(), ShellError>)
    ensures
        result_model(outcome) == exit_model(success, stderr_text@),
{
    if success {
        Ok(())
    } else {
        Err(ShellError::plain(ErrorKind::Process, stderr_text))
    }
}

/// Turns the host's report into the outcome of the command that asked for
/// the run. `label` opens the message of a launch failure.
pub fn process_result(label: &str, report: ProcessReport) -> (outcome: Result<(), ShellError>)
    ensures
        result_model(outcome) == report_model(label@, report@),
        report matches ProcessReport::Exited { success, stderr } ==> valid_utf8(stderr@)
            ==> result_model(outcome) == exit_model(success, decode_utf8(stderr@)),
{
    match report {
        ProcessReport::NotStarted(cause) => Err(
            ShellError::labelled(ErrorKind::Launch, label, cause.as_str()),
        ),
        ProcessReport::Exited { success, stderr } => exit_result(
            success,
            lossy_text(stderr.as_slice()),
        ),
    }
}

} // verus!
