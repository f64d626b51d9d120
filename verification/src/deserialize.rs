//! The error of reading DICOM JSON into a data set.

use crate::describe::{has_line_labelled, has_summary, task_at_end_is_contained, DcmfxError};
use crate::path::{DataSetPath, PathEnd};
use vstd::prelude::*;

verus! {

/// Occurs when an error is encountered converting from the DICOM JSON model.
#[derive(Debug)]
pub enum JsonDeserializeError {
    /// The DICOM JSON data to be deserialized is invalid. `details` says in
    /// words what was wrong with it, and `path` where in the data set under
    /// construction it was found; the path is empty where the fault is in the
    /// outer structure of the JSON.
    JsonInvalid { details: String, path: DataSetPath },
}

/// The lines that name the data element a path ends in: its tag, then its
/// name. None where the path ends in no data element.
pub open spec fn element_lines(path: DataSetPath) -> Seq<Seq<char>> {
    match path.final_data_element() {
        Ok(element) => seq!["  Tag: "@ + element.tag@, "  Name: "@ + element.name@],
        Err(_) => Seq::empty(),
    }
}

/// The line that shows a path. None where the path is empty.
pub open spec fn path_lines(path: DataSetPath) -> Seq<Seq<char>> {
    if path.is_empty() {
        Seq::empty()
    } else {
        seq!["  Path: "@ + path.text@]
    }
}

impl JsonDeserializeError {
    /// The report on this error: the summary with the task description, a
    /// blank line, the details, then the data element and the path as far as
    /// there are any.
    pub open spec fn report(&self, task_description: Seq<char>) -> Seq<Seq<char>> {
        match self {
            JsonDeserializeError::JsonInvalid { details, path } => seq![
                "DICOM JSON deserialize error "@ + task_description,
                Seq::<char>::empty(),
                "  Details: "@ + details@,
            ] + element_lines(*path) + path_lines(*path),
        }
    }

    /// The error on a single line.
    pub open spec fn display(&self) -> Seq<char> {
        match self {
            JsonDeserializeError::JsonInvalid { details, path } =>
                "DICOM JSON deserialize error, details: "@ + details@ + ", path: "@ + path.detailed@,
        }
    }

    /// The error on a single line: its details, then the detailed form of
    /// its path.
    pub fn to_string(&self) -> (line: String)
        ensures
            line@ == self.display(),
    {
        match self {
            JsonDeserializeError::JsonInvalid { details, path } => {
                let detailed = path.to_detailed_string();
                String::from_str("DICOM JSON deserialize error, details: ")
                    .concat(details.as_str())
                    .concat(", path: ")
                    .concat(detailed.as_str())
            },
        }
    }
}

impl DcmfxError for JsonDeserializeError {
    /// Returns lines of text that describe a DICOM JSON deserialize error in a
    /// human-readable format.
    fn to_lines(&self, task_description: &str) -> (lines: Vec<String>)
        ensures
            lines.deep_view() == self.report(task_description@),
    {
        match self {
            JsonDeserializeError::JsonInvalid { details, path } => {
                let mut lines: Vec<String> = Vec::new();

                lines.push(String::from_str("DICOM JSON deserialize error ").concat(task_description));
                lines.push(String::new());
                lines.push(String::from_str("  Details: ").concat(details.as_str()));

                if let Ok(element) = path.final_data_element() {
                    lines.push(String::from_str("  Tag: ").concat(element.tag.as_str()));
                    lines.push(String::from_str("  Name: ").concat(element.name.as_str()));
                }

                if !path.is_empty() {
                    lines.push(String::from_str("  Path: ").concat(path.text.as_str()));
                }

                assert(lines.deep_view() =~= self.report(task_description@));
                lines
            },
        }
    }
}

/// A line is not labelled `label` where it is too short for the label or
/// differs from it in some place.
proof fn not_labelled(label: Seq<char>, line: Seq<char>, place: int)
    requires
        0 <= place < label.len(),
        place < line.len() ==> label[place] != line[place],
    ensures
        !label.is_prefix_of(line),
{
    if label.len() <= line.len() {
        assert(line.subrange(0, label.len() as int)[place] == line[place]);
    }
}

/// The first line of a report on a deserialize error holds the task
/// description, whatever the error and the description are.
pub proof fn report_holds_task(error: JsonDeserializeError, task_description: Seq<char>)
    ensures
        has_summary(error.report(task_description), task_description),
{
    task_at_end_is_contained("DICOM JSON deserialize error "@, task_description);
}

/// A report names a data element, by tag and by name, if and only if the
/// error's path ends in one, and it shows the path if and only if the path
/// is not empty.
pub proof fn report_shows_what_path_holds(error: JsonDeserializeError, task_description: Seq<char>)
    ensures
        has_line_labelled(error.report(task_description), "  Tag: "@)
            <==> error->path.final_data_element() is Ok,
        has_line_labelled(error.report(task_description), "  Name: "@)
            <==> error->path.final_data_element() is Ok,
        has_line_labelled(error.report(task_description), "  Path: "@)
            <==> !error->path.is_empty(),
{
    reveal_strlit("DICOM JSON deserialize error ");
    reveal_strlit("  Details: ");
    reveal_strlit("  Tag: ");
    reveal_strlit("  Name: ");
    reveal_strlit("  Path: ");
    let report = error.report(task_description);
    let details = error->details;
    let path = error->path;
    let tag = "  Tag: "@;
    let name = "  Name: "@;
    let shown = "  Path: "@;
    assert(report[0] == "DICOM JSON deserialize error "@ + task_description);
    assert(report[1] == Seq::<char>::empty());
    assert(report[2] == "  Details: "@ + details@);
    not_labelled(tag, report[0], 0);
    not_labelled(name, report[0], 0);
    not_labelled(shown, report[0], 0);
    not_labelled(tag, report[1], 0);
    not_labelled(name, report[1], 0);
    not_labelled(shown, report[1], 0);
    not_labelled(tag, report[2], 2);
    not_labelled(name, report[2], 2);
    not_labelled(shown, report[2], 2);
    match path.end {
        PathEnd::Root => {
            assert(report.len() == 3);
        },
        PathEnd::SequenceItem => {
            assert(report.len() == 4);
            assert(report[3] == shown + path.text@);
            assert(shown.is_prefix_of(report[3])) by {
                assert(report[3].subrange(0, shown.len() as int) =~= shown);
            }
            not_labelled(tag, report[3], 2);
            not_labelled(name, report[3], 2);
        },
        PathEnd::DataElement(element) => {
            assert(report.len() == 6);
            assert(report[3] == tag + element.tag@);
            assert(report[4] == name + element.name@);
            assert(report[5] == shown + path.text@);
            assert(tag.is_prefix_of(report[3])) by {
                assert(report[3].subrange(0, tag.len() as int) =~= tag);
            }
            assert(name.is_prefix_of(report[4])) by {
                assert(report[4].subrange(0, name.len() as int) =~= name);
            }
            assert(shown.is_prefix_of(report[5])) by {
                assert(report[5].subrange(0, shown.len() as int) =~= shown);
            }
        },
    }
}

/// Two reports on one error for one task description are the same, line for
/// line.
pub proof fn report_is_repeatable(
    error: &JsonDeserializeError,
    task_description: &str,
    first: Vec<String>,
    second: Vec<String>,
)
    requires
        call_ensures(JsonDeserializeError::to_lines, (error, task_description), first),
        call_ensures(JsonDeserializeError::to_lines, (error, task_description), second),
    ensures
        first.deep_view() == second.deep_view(),
{
}

} // verus!
