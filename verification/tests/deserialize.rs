use dcmfx_json::{DataSetPath, DcmfxError, JsonDeserializeError, NamedTag, PathEnd};

fn root() -> DataSetPath {
    DataSetPath { end: PathEnd::Root, text: String::new(), detailed: String::new() }
}

fn study_date() -> DataSetPath {
    DataSetPath {
        end: PathEnd::DataElement(NamedTag {
            tag: "(0008,0020)".to_string(),
            name: "Study Date".to_string(),
        }),
        text: "00080020".to_string(),
        detailed: "(0008,0020) Study Date".to_string(),
    }
}

fn second_item() -> DataSetPath {
    DataSetPath {
        end: PathEnd::SequenceItem,
        text: "00081140/[1]".to_string(),
        detailed: "(0008,1140) Referenced Image Sequence / Item 1".to_string(),
    }
}

fn invalid(details: &str, path: DataSetPath) -> JsonDeserializeError {
    JsonDeserializeError::JsonInvalid { details: details.to_string(), path }
}

#[test]
fn empty_path_gives_three_lines() {
    let error = invalid("expected array, found object", root());
    let lines = error.to_lines("reading file \"a.json\"");
    assert_eq!(
        lines,
        vec![
            "DICOM JSON deserialize error reading file \"a.json\"".to_string(),
            "".to_string(),
            "  Details: expected array, found object".to_string(),
        ]
    );
    assert!(!lines.iter().any(|line| line.starts_with("  Tag: ")));
    assert!(!lines.iter().any(|line| line.starts_with("  Name: ")));
    assert!(!lines.iter().any(|line| line.starts_with("  Path: ")));
}

#[test]
fn data_element_is_named_by_tag_then_name() {
    let error = invalid("expected array, found object", study_date());
    let lines = error.to_lines("reading file \"a.json\"");
    assert_eq!(
        lines[..5],
        [
            "DICOM JSON deserialize error reading file \"a.json\"".to_string(),
            "".to_string(),
            "  Details: expected array, found object".to_string(),
            "  Tag: (0008,0020)".to_string(),
            "  Name: Study Date".to_string(),
        ]
    );
}

#[test]
fn path_to_data_element_is_shown_last() {
    let error = invalid("expected array, found object", study_date());
    let lines = error.to_lines("reading file \"a.json\"");
    assert_eq!(lines.len(), 6);
    assert_eq!(lines[5], "  Path: 00080020");
}

#[test]
fn path_to_sequence_item_names_no_data_element() {
    let error = invalid("item is not an object", second_item());
    assert_eq!(
        error.to_lines("reading"),
        vec![
            "DICOM JSON deserialize error reading".to_string(),
            "".to_string(),
            "  Details: item is not an object".to_string(),
            "  Path: 00081140/[1]".to_string(),
        ]
    );
}

#[test]
fn first_line_holds_task_description() {
    let task = "while converting DICOM JSON to a data set";
    for path in [root(), study_date(), second_item()] {
        let lines = invalid("bad", path).to_lines(task);
        assert!(!lines.is_empty());
        assert!(lines[0].contains(task));
        assert_eq!(lines[1], "");
    }
}

#[test]
fn empty_task_description_is_reported() {
    let lines = invalid("bad", root()).to_lines("");
    assert_eq!(
        lines,
        vec![
            "DICOM JSON deserialize error ".to_string(),
            "".to_string(),
            "  Details: bad".to_string(),
        ]
    );
}

#[test]
fn empty_texts_are_kept_as_they_are() {
    let path = DataSetPath {
        end: PathEnd::DataElement(NamedTag { tag: String::new(), name: String::new() }),
        text: String::new(),
        detailed: String::new(),
    };
    assert_eq!(
        invalid("", path).to_lines("t"),
        vec![
            "DICOM JSON deserialize error t".to_string(),
            "".to_string(),
            "  Details: ".to_string(),
            "  Tag: ".to_string(),
            "  Name: ".to_string(),
            "  Path: ".to_string(),
        ]
    );
}

#[test]
fn same_report_each_time() {
    let error = invalid("expected array, found object", study_date());
    assert_eq!(error.to_lines("reading"), error.to_lines("reading"));
}

#[test]
fn single_line_holds_details_and_detailed_path() {
    let error = invalid("expected array, found object", study_date());
    assert_eq!(
        error.to_string(),
        "DICOM JSON deserialize error, details: expected array, found object, \
         path: (0008,0020) Study Date"
    );
}

#[test]
fn single_line_of_error_at_sequence_item() {
    let error = invalid("item is not an object", second_item());
    assert_eq!(
        error.to_string(),
        "DICOM JSON deserialize error, details: item is not an object, \
         path: (0008,1140) Referenced Image Sequence / Item 1"
    );
}

#[test]
fn single_line_of_error_at_top_level() {
    let error = invalid("expected array, found object", root());
    assert_eq!(
        error.to_string(),
        "DICOM JSON deserialize error, details: expected array, found object, path: "
    );
}

#[test]
fn single_line_and_report_show_same_details() {
    let error = invalid("value is not a string", study_date());
    let line = error.to_string();
    let lines = error.to_lines("reading");
    assert!(line.contains("details: value is not a string,"));
    assert_eq!(lines[2], "  Details: value is not a string");
}
