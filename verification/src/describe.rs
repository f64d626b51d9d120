//! What all errors of the toolkit have in common: a report in lines of text.

use vstd::prelude::*;

verus! {

/// An error that can describe itself to a person.
pub trait DcmfxError {
    /// The lines of a report on this error. `task_description` says what was
    /// being attempted when the error came up; the first line of the report
    /// holds it.
    fn to_lines(&self, task_description: &str) -> Vec<String>;
}

/// `part` occurs in `line`, character for character.
pub open spec fn contains(line: Seq<char>, part: Seq<char>) -> bool {
    exists|at: int|
        0 <= at && at + part.len() <= line.len() && #[trigger] line.subrange(
            at,
            at + part.len(),
        ) == part
}

/// The report has a first line, and that line holds the task description.
pub open spec fn has_summary(lines: Seq<Seq<char>>, task_description: Seq<char>) -> bool {
    lines.len() > 0 && contains(lines[0], task_description)
}

/// Some line of the report begins with `label`.
pub open spec fn has_line_labelled(lines: Seq<Seq<char>>, label: Seq<char>) -> bool {
    exists|i: int| 0 <= i < lines.len() && label.is_prefix_of(#[trigger] lines[i])
}

/// A line that ends in the task description holds it.
pub proof fn task_at_end_is_contained(lead: Seq<char>, task_description: Seq<char>)
    ensures
        contains(lead + task_description, task_description),
{
    let line = lead + task_description;
    let at: int = lead.len() as int;
    assert(line.subrange(at, at + task_description.len()) =~= task_description);
}

} // verus!
