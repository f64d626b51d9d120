//! The place in a data set that an error speaks of, as reports show it.

use vstd::prelude::*;

verus! {

/// A data element as a report names it.
#[derive(Debug, PartialEq, Eq)]
pub struct NamedTag {
    /// The element's tag, written out.
    pub tag: String,
    /// The name that the dictionary of data elements gives the tag.
    pub name: String,
}

/// What the innermost segment of a path points at.
#[derive(Debug, PartialEq, Eq)]
pub enum PathEnd {
    /// The path has no segment: it stands for the top level of the data set.
    Root,
    /// The path ends in an item of a sequence.
    SequenceItem,
    /// The path ends in a data element.
    DataElement(NamedTag),
}

/// A path into a data set, from the outermost segment to the innermost, held
/// in the form in which reports read it: where it ends, and its two
/// renderings as text.
#[derive(Debug, PartialEq, Eq)]
pub struct DataSetPath {
    /// What the path ends in.
    pub end: PathEnd,
    /// The path on one line, in its short form.
    pub text: String,
    /// The path on one line, in its detailed form.
    pub detailed: String,
}

impl DataSetPath {
    /// Whether the path has no segment.
    pub open spec fn spec_is_empty(&self) -> bool {
        self.end is Root
    }

    /// The data element that the path ends in, where it ends in one.
    pub open spec fn spec_final_data_element(&self) -> Result<&NamedTag, ()> {
        match self.end {
            PathEnd::DataElement(element) => Ok(&element),
            _ => Err(()),
        }
    }

    /// Whether the path has no segment.
    #[verifier::when_used_as_spec(spec_is_empty)]
    pub fn is_empty(&self) -> (empty: bool)
        ensures
            empty == self.spec_is_empty(),
    {
        match &self.end {
            PathEnd::Root => true,
            _ => false,
        }
    }

    /// The data element that the path ends in. There is none where the path
    /// is empty or ends in an item of a sequence.
    #[verifier::when_used_as_spec(spec_final_data_element)]
    pub fn final_data_element(&self) -> (found: Result<&NamedTag, ()>)
        ensures
            found == self.spec_final_data_element(),
    {
        match &self.end {
            PathEnd::DataElement(element) => Ok(element),
            _ => Err(()),
        }
    }

    /// The path's detailed form.
    pub fn to_detailed_string(&self) -> (detailed: String)
        ensures
            detailed@ == self.detailed@,
    {
        self.detailed.clone()
    }
}

} // verus!
