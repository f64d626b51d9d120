//! The error of writing a data set out as DICOM JSON.

use crate::describe::{has_summary, task_at_end_is_contained, DcmfxError};
use vstd::prelude::*;
use vstd::string::to_string_from_display_ensures;

verus! {

/// `std::io::Error`, carried as it comes. Nothing is known of what it holds.
#[verifier::external_type_specification]
#[verifier::external_body]
pub struct ExIoError(std::io::Error);

/// Occurs when an error is encountered converting to the DICOM JSON model.
///
/// `D` is the error of invalid data in a data set and `P` the error of a
/// stream of DICOM P10 parts. Each reports for itself.
#[derive(Debug)]
pub enum JsonSerializeError<D, P> {
    /// The data to be serialized to the DICOM JSON model is invalid. Details
    /// of the issue are in the error held here.
    DataError(D),
    /// A P10 error that occurred during JSON serialization, most often because
    /// the stream of parts was not well-formed.
    P10Error(P),
    /// An error occurred when trying to read or write DICOM JSON data on the
    /// provided stream. Details of the issue are in the enclosed
    /// [`std::io::Error`].
    IOError(std::io::Error),
}

/// The report on a failure of the stream: the summary with the task
/// description, a blank line, and the failure in the words of the error that
/// stands for it.
pub open spec fn io_error_report(task_description: Seq<char>, description: Seq<char>) -> Seq<
    Seq<char>,
> {
    seq![
        "DICOM JSON I/O error "@ + task_description,
        Seq::<char>::empty(),
        "  Error: "@ + description,
    ]
}

/// The lines of the report on a failure of the stream, from the task
/// description and from what the I/O error says of itself.
pub fn io_error_lines(task_description: &str, description: &str) -> (lines: Vec<String>)
    ensures
        lines.deep_view() == io_error_report(task_description@, description@),
{
    let mut lines: Vec<String> = Vec::new();
    lines.push(String::from_str("DICOM JSON I/O error ").concat(task_description));
    lines.push(String::new());
    lines.push(String::from_str("  Error: ").concat(description));
    assert(lines.deep_view() =~= io_error_report(task_description@, description@));
    lines
}

impl<D: DcmfxError, P: DcmfxError> JsonSerializeError<D, P> {
    /// `lines` is a report on this error for the task description: for invalid
    /// data and for a P10 error, one that the error held gives of itself; for a
    /// failure of the stream, the three lines of [`io_error_report`], with a
    /// text that the I/O error displays as.
    pub open spec fn reports(&self, task_description: &str, lines: Vec<String>) -> bool {
        match self {
            JsonSerializeError::DataError(e) => call_ensures(
                D::to_lines,
                (e, task_description),
                lines,
            ),
            JsonSerializeError::P10Error(e) => call_ensures(
                P::to_lines,
                (e, task_description),
                lines,
            ),
            JsonSerializeError::IOError(e) => exists|description: String|
                #![auto]
                to_string_from_display_ensures::<std::io::Error>(e, description)
                    && lines.deep_view() == io_error_report(task_description@, description@),
        }
    }
}

impl<D: DcmfxError, P: DcmfxError> DcmfxError for JsonSerializeError<D, P> {
    /// Returns lines of text that describe a DICOM JSON serialize error in a
    /// human-readable format.
    fn to_lines(&self, task_description: &str) -> (lines: Vec<String>)
        ensures
            self.reports(task_description, lines),
    {
        match self {
            JsonSerializeError::DataError(e) => e.to_lines(task_description),
            JsonSerializeError::P10Error(e) => e.to_lines(task_description),
            JsonSerializeError::IOError(e) => {
                let description = e.to_string();
                io_error_lines(task_description, description.as_str())
            },
        }
    }
}

/// The first line of a report on a failure of the stream holds the task
/// description, whatever the I/O error says.
pub proof fn io_error_report_holds_task(task_description: Seq<char>, description: Seq<char>)
    ensures
        has_summary(io_error_report(task_description, description), task_description),
{
    task_at_end_is_contained("DICOM JSON I/O error "@, task_description);
}

/// A report on a serialize error that holds another error is a report of
/// that error, line for line.
pub proof fn report_is_that_of_error_held<D: DcmfxError, P: DcmfxError>(
    error: &JsonSerializeError<D, P>,
    task_description: &str,
    lines: Vec<String>,
)
    requires
        call_ensures(JsonSerializeError::<D, P>::to_lines, (error, task_description), lines),
    ensures
        error matches JsonSerializeError::DataError(e) ==> call_ensures(
            D::to_lines,
            (&e, task_description),
            lines,
        ),
        error matches JsonSerializeError::P10Error(e) ==> call_ensures(
            P::to_lines,
            (&e, task_description),
            lines,
        ),
{
}

/// The first line of a report on a serialize error holds the task
/// description. Where the error holds another error, it does as far as that
/// error's own reports do.
pub proof fn report_holds_task<D: DcmfxError, P: DcmfxError>(
    error: &JsonSerializeError<D, P>,
    task_description: &str,
    lines: Vec<String>,
)
    requires
        call_ensures(JsonSerializeError::<D, P>::to_lines, (error, task_description), lines),
        error matches JsonSerializeError::DataError(e) ==> forall|own: Vec<String>|
            call_ensures(D::to_lines, (&e, task_description), own) ==> has_summary(
                own.deep_view(),
                task_description@,
            ),
        error matches JsonSerializeError::P10Error(e) ==> forall|own: Vec<String>|
            call_ensures(P::to_lines, (&e, task_description), own) ==> has_summary(
                own.deep_view(),
                task_description@,
            ),
    ensures
        has_summary(lines.deep_view(), task_description@),
{
    match error {
        JsonSerializeError::IOError(e) => {
            let description = choose|description: String|
                #![auto]
                to_string_from_display_ensures::<std::io::Error>(e, description)
                    && lines.deep_view() == io_error_report(task_description@, description@);
            io_error_report_holds_task(task_description@, description@);
        },
        _ => {},
    }
}

/// Two reports on one serialize error for one task description are the same,
/// line for line, as far as what the error holds says the same of itself each
/// time it is asked.
pub proof fn report_is_repeatable<D: DcmfxError, P: DcmfxError>(
    error: &JsonSerializeError<D, P>,
    task_description: &str,
    first: Vec<String>,
    second: Vec<String>,
)
    requires
        call_ensures(JsonSerializeError::<D, P>::to_lines, (error, task_description), first),
        call_ensures(JsonSerializeError::<D, P>::to_lines, (error, task_description), second),
        error matches JsonSerializeError::DataError(e) ==> forall|a: Vec<String>, b: Vec<String>|
            call_ensures(D::to_lines, (&e, task_description), a) && call_ensures(
                D::to_lines,
                (&e, task_description),
                b,
            ) ==> a.deep_view() == b.deep_view(),
        error matches JsonSerializeError::P10Error(e) ==> forall|a: Vec<String>, b: Vec<String>|
            call_ensures(P::to_lines, (&e, task_description), a) && call_ensures(
                P::to_lines,
                (&e, task_description),
                b,
            ) ==> a.deep_view() == b.deep_view(),
        error matches JsonSerializeError::IOError(e) ==> forall|a: String, b: String|
            to_string_from_display_ensures::<std::io::Error>(&e, a)
                && to_string_from_display_ensures::<std::io::Error>(&e, b) ==> a@ == b@,
    ensures
        first.deep_view() == second.deep_view(),
{
    match error {
        JsonSerializeError::IOError(e) => {
            let a = choose|description: String|
                #![auto]
                to_string_from_display_ensures::<std::io::Error>(e, description)
                    && first.deep_view() == io_error_report(task_description@, description@);
            let b = choose|description: String|
                #![auto]
                to_string_from_display_ensures::<std::io::Error>(e, description)
                    && second.deep_view() == io_error_report(task_description@, description@);
            assert(a@ == b@);
        },
        _ => {},
    }
}

} // verus!
