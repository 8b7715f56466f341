//! Converting the exported HTML of a document into other formats with the
//! help of external programs.

use crate::error::{result_model, ShellError};
use crate::process::{
    exit_model, process_result, report_model, ProcessReport, ProcessRequest, RequestModel,
};
use vstd::prelude::*;
use vstd::utf8::{decode_utf8, valid_utf8};

verus! {

/// The call of the system's document converter that turns `html_path` into
/// `output_path` in the given format.
pub open spec fn textutil_request(
    html_path: Seq<char>,
    output_path: Seq<char>,
    format: Seq<char>,
) -> RequestModel {
    RequestModel {
        program: "textutil"@,
        args: seq!["-convert"@, format, html_path, "-output"@, output_path],
    }
}

/// Says how to run the system's document converter on `html_path`. The
/// host runs the request and hands its report to `textutil_result`.
pub fn convert_with_textutil(html_path: &str, output_path: &str, format: &str) -> (request:
    ProcessRequest)
    ensures
        request@ == textutil_request(html_path@, output_path@, format@),
{
    let args = vec![
        "-convert".to_owned(),
        format.to_owned(),
        html_path.to_owned(),
        "-output".to_owned(),
        output_path.to_owned(),
    ];
    assert(args.deep_view() =~= textutil_request(html_path@, output_path@, format@).args);
    ProcessRequest { program: "textutil".to_owned(), args }
}

/// What opens the message when the document converter could not be started.
pub open spec fn textutil_label() -> Seq<char> {
    "textutil failed: "@
}

/// The outcome of a conversion, from the report of the converter's run.
pub fn textutil_result(report: ProcessReport) -> (outcome: Result<(), ShellError>)
    ensures
        result_model(outcome) == report_model(textutil_label(), report@),
        report matches ProcessReport::Exited { success, stderr } ==> valid_utf8(stderr@)
            ==> result_model(outcome) == exit_model(success, decode_utf8(stderr@)),
{
    process_result("textutil failed: ", report)
}

} // verus!
