//! Errors met while a DICOM data set is converted to the DICOM JSON model or
//! read back from it, and the reports that describe them.
//!
//! Every error gives its report through [`DcmfxError::to_lines`]: a summary
//! line that holds the description of the task that failed, a blank line, and
//! indented detail lines.

pub mod deserialize;
pub mod describe;
pub mod path;
pub mod serialize;

pub use crate::describe::DcmfxError;
pub use crate::deserialize::JsonDeserializeError;
pub use crate::path::{DataSetPath, NamedTag, PathEnd};
pub use crate::serialize::{io_error_lines, JsonSerializeError};
