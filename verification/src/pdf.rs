//! Exporting a document as PDF. A script that ships with the application
//! does the work; finding it and running it are for the host, which reports
//! each finding back. The decisions in between are made here.

use crate::error::{result_model, ErrorKind, ErrorModel, ShellError};
use crate::process::{process_result, report_model, ProcessReport, ProcessRequest, ReportModel, RequestModel};
use vstd::prelude::*;

verus! {

/// How far an export has come: what the host was last asked for.
#[derive(Clone, Debug, PartialEq, Eq)]
pub enum PdfExport {
    /// The host is to say where the application's resources are.
    Locating { html_path: String, output_path: String },
    /// The host is to look for the script among the resources.
    Probing { html_path: String, output_path: String },
    /// The host is to run the script.
    Running,
    /// The export has ended.
    Finished,
}

/// What a `PdfExport` stands for.
pub enum ExportModel {
    Locating { html_path: Seq<char>, output_path: Seq<char> },
    Probing { html_path: Seq<char>, output_path: Seq<char> },
    Running,
    Finished,
}

impl View for PdfExport {
    type V = ExportModel;

    open spec fn view(&self) -> ExportModel {
        match self {
            PdfExport::Locating { html_path, output_path } => ExportModel::Locating {
                html_path: html_path@,
                output_path: output_path@,
            },
            PdfExport::Probing { html_path, output_path } => ExportModel::Probing {
                html_path: html_path@,
                output_path: output_path@,
            },
            PdfExport::Running => ExportModel::Running,
            PdfExport::Finished => ExportModel::Finished,
        }
    }
}

/// What the host found.
#[derive(Debug, PartialEq, Eq)]
pub enum PdfEvent {
    /// The resource directory, or the reason for which it is unknown.
    Located(Result<String, String>),
    /// The path at which the script was looked for, and whether it is there.
    Probed { script: String, exists: bool },
    /// The report of the script's run.
    Exited(ProcessReport),
}

/// What a `PdfEvent` stands for.
pub enum EventModel {
    Located(Result<Seq<char>, Seq<char>>),
    Probed { script: Seq<char>, exists: bool },
    Exited(ReportModel),
}

impl View for PdfEvent {
    type V = EventModel;

    open spec fn view(&self) -> EventModel {
        match self {
            PdfEvent::Located(Ok(dir)) => EventModel::Located(Ok(dir@)),
            PdfEvent::Located(Err(cause)) => EventModel::Located(Err(cause@)),
            PdfEvent::Probed { script, exists } => EventModel::Probed {
                script: script@,
                exists: *exists,
            },
            PdfEvent::Exited(report) => EventModel::Exited(report@),
        }
    }
}

/// What the host is to do next.
#[derive(Debug, PartialEq, Eq)]
pub enum PdfAction {
    /// Look for `file` in `folder` under `resource_dir`, and report the
    /// path and whether it exists.
    Probe { resource_dir: String, folder: String, file: String },
    /// Run the request and report on it.
    Run(ProcessRequest),
    /// Return the export's outcome to the front end.
    Finish(Result<(), ShellError>),
    /// Nothing: the event answered no outstanding request.
    Ignore,
}

/// What a `PdfAction` stands for.
pub enum ActionModel {
    Probe { resource_dir: Seq<char>, folder: Seq<char>, file: Seq<char> },
    Run(RequestModel),
    Finish(Result<(), ErrorModel>),
    Ignore,
}

impl View for PdfAction {
    type V = ActionModel;

    open spec fn view(&self) -> ActionModel {
        match self {
            PdfAction::Probe { resource_dir, folder, file } => ActionModel::Probe {
                resource_dir: resource_dir@,
                folder: folder@,
                file: file@,
            },
            PdfAction::Run(request) => ActionModel::Run(request@),
            PdfAction::Finish(outcome) => ActionModel::Finish(result_model(*outcome)),
            PdfAction::Ignore => ActionModel::Ignore,
        }
    }
}

/// The folder of the application's resources that holds the script.
pub open spec fn script_folder() -> Seq<char> {
    "resources"@
}

/// The file name of the script.
pub open spec fn script_file() -> Seq<char> {
    "html-to-pdf.swift"@
}

/// The call that has the script at `script` turn `html_path` into a PDF at
/// `output_path`.
pub open spec fn script_request(
    script: Seq<char>,
    html_path: Seq<char>,
    output_path: Seq<char>,
) -> RequestModel {
    RequestModel { program: "/usr/bin/swift"@, args: seq![script, html_path, output_path] }
}

/// A failure to find a resource, described by `label` followed by `detail`.
pub open spec fn resource_failure(label: Seq<char>, detail: Seq<char>) -> ActionModel {
    ActionModel::Finish(Err(ErrorModel { kind: ErrorKind::Resource, message: label + detail }))
}

/// One step of an export: where it stands after `event`, and what the host
/// is to do next.
///
/// The resource directory is located first; without it the export fails.
/// The script is then looked for; if it is missing the export fails
/// and no program is run. Otherwise the script is run, and its report
/// decides the outcome. An event that does not answer the outstanding
/// request changes nothing.
pub open spec fn pdf_step(export: ExportModel, event: EventModel) -> (ExportModel, ActionModel) {
    match export {
        ExportModel::Locating { html_path, output_path } => match event {
            EventModel::Located(Ok(resource_dir)) => (
                ExportModel::Probing { html_path, output_path },
                ActionModel::Probe { resource_dir, folder: script_folder(), file: script_file() },
            ),
            EventModel::Located(Err(cause)) => (
                ExportModel::Finished,
                resource_failure("resource dir: "@, cause),
            ),
            _ => (export, ActionModel::Ignore),
        },
        ExportModel::Probing { html_path, output_path } => match event {
            EventModel::Probed { script, exists } => if exists {
                (
                    ExportModel::Running,
                    ActionModel::Run(script_request(script, html_path, output_path)),
                )
            } else {
                (ExportModel::Finished, resource_failure("Script not found: "@, script))
            },
            _ => (export, ActionModel::Ignore),
        },
        ExportModel::Running => match event {
            EventModel::Exited(report) => (
                ExportModel::Finished,
                ActionModel::Finish(report_model("swift failed: "@, report)),
            ),
            _ => (export, ActionModel::Ignore),
        },
        ExportModel::Finished => (export, ActionModel::Ignore),
    }
}

impl PdfExport {
    /// An export of `html_path` to `output_path` that has not begun. The
    /// host starts it by locating the application's resource directory.
    pub fn new(html_path: String, output_path: String) -> (export: PdfExport)
        ensures
            export@ == (ExportModel::Locating { html_path: html_path@, output_path: output_path@ }),
    {
        PdfExport::Locating { html_path, output_path }
    }
}

fn not_found(label: &str, detail: &str) -> (action: PdfAction)
    ensures
        action@ == resource_failure(label@, detail@),
{
    PdfAction::Finish(Err(ShellError::labelled(ErrorKind::Resource, label, detail)))
}

/// Advances an export by one event. The host performs the action returned
/// and calls again with what it found, until the action is `Finish`.
pub fn html_to_pdf(export: PdfExport, event: PdfEvent) -> (step: (PdfExport, PdfAction))
    ensures
        (step.0@, step.1@) == pdf_step(export@, event@),
{
    match export {
        PdfExport::Locating { html_path, output_path } => match event {
            PdfEvent::Located(Ok(resource_dir)) => (
                PdfExport::Probing { html_path, output_path },
                PdfAction::Probe {
                    resource_dir,
                    folder: "resources".to_owned(),
                    file: "html-to-pdf.swift".to_owned(),
                },
            ),
            PdfEvent::Located(Err(cause)) => (
                PdfExport::Finished,
                not_found("resource dir: ", cause.as_str()),
            ),
            _ => (PdfExport::Locating { html_path, output_path }, PdfAction::Ignore),
        },
        PdfExport::Probing { html_path, output_path } => match event {
            PdfEvent::Probed { script, exists } => {
                if exists {
                    let args = vec![script, html_path, output_path];
                    assert(args.deep_view() =~= seq![script@, html_path@, output_path@]);
                    let request = ProcessRequest { program: "/usr/bin/swift".to_owned(), args };
                    (PdfExport::Running, PdfAction::Run(request))
                } else {
                    (PdfExport::Finished, not_found("Script not found: ", script.as_str()))
                }
            },
            _ => (PdfExport::Probing { html_path, output_path }, PdfAction::Ignore),
        },
        PdfExport::Running => match event {
            PdfEvent::Exited(report) => {
                let outcome = process_result("swift failed: ", report);
                (PdfExport::Finished, PdfAction::Finish(outcome))
            },
            _ => (PdfExport::Running, PdfAction::Ignore),
        },
        PdfExport::Finished => (PdfExport::Finished, PdfAction::Ignore),
    }
}

/// The number of answers that an export still waits for.
pub open spec fn steps_left(export: ExportModel) -> nat {
    match export {
        ExportModel::Locating { .. } => 3,
        ExportModel::Probing { .. } => 2,
        ExportModel::Running => 1,
        ExportModel::Finished => 0,
    }
}

/// Every step either ignores the event and leaves the export as it was, or
/// brings it closer to its end; it finishes exactly when it reaches the end;
/// and a program is run only after the script was found.
pub proof fn lemma_export_progress(export: ExportModel, event: EventModel)
    ensures
        ({
            let (next, action) = pdf_step(export, event);
            &&& action is Ignore ==> next == export
            &&& !(action is Ignore) ==> steps_left(next) < steps_left(export)
            &&& action is Finish <==> next is Finished && !(export is Finished)
            &&& action is Run ==> export is Probing && event matches EventModel::Probed {
                exists: true,
                ..
            }
        }),
{
}

} // verus!
