//! The one error type of the transformation, one variant per stage.

use vstd::prelude::*;
use vstd::string::StringExecFns;

verus! {

/// Why a record could not be transformed. The variants follow the stages of
/// the transformation, in order.
#[derive(Clone, Debug, PartialEq, Eq)]
pub enum LogError {
    /// The raw bytes are not UTF-8; carries the decoder's diagnostic.
    EncodingError(String),
    /// The line does not match the access-log pattern.
    PatternMismatch,
    /// The bracketed timestamp is absent or fits neither accepted layout;
    /// carries the diagnostic of the timestamp parser.
    TimestampError(String),
    /// The status code or the byte count is no unsigned 32-bit number;
    /// carries the offending text.
    NumericError(String),
    /// The assembled record could not be written as JSON; carries the
    /// serializer's diagnostic.
    SerializationError(String),
}

/// A `LogError` as a mathematical value.
pub enum LogErrorView {
    EncodingError(Seq<char>),
    PatternMismatch,
    TimestampError(Seq<char>),
    NumericError(Seq<char>),
    SerializationError(Seq<char>),
}

impl View for LogError {
    type V = LogErrorView;

    open spec fn view(&self) -> LogErrorView {
        match self {
            LogError::EncodingError(text) => LogErrorView::EncodingError(text@),
            LogError::PatternMismatch => LogErrorView::PatternMismatch,
            LogError::TimestampError(text) => LogErrorView::TimestampError(text@),
            LogError::NumericError(text) => LogErrorView::NumericError(text@),
            LogError::SerializationError(text) => LogErrorView::SerializationError(text@),
        }
    }
}

impl LogErrorView {
    /// The fixed sentence that names the kind of failure.
    pub open spec fn description(self) -> Seq<char> {
        match self {
            LogErrorView::EncodingError(_) => "FAIL. invalid UTF-8."@,
            LogErrorView::PatternMismatch => "FAIL. unmatched pattern."@,
            LogErrorView::TimestampError(_) => "FAIL. unparsable timestamp."@,
            LogErrorView::NumericError(_) => "FAIL. invalid number."@,
            LogErrorView::SerializationError(_) => "FAIL. unserializable record."@,
        }
    }

    /// The text of the failure for a log: the text that the failure carries
    /// and nothing else, or the description where it carries none.
    pub open spec fn message(self) -> Seq<char> {
        match self {
            LogErrorView::EncodingError(text) => text,
            LogErrorView::PatternMismatch => self.description(),
            LogErrorView::TimestampError(text) => text,
            LogErrorView::NumericError(text) => text,
            LogErrorView::SerializationError(text) => text,
        }
    }
}

impl LogError {
    /// The fixed sentence that names the kind of failure.
    pub fn description(&self) -> (text: &'static str)
        ensures
            text@ == self@.description(),
    {
        match self {
            LogError::EncodingError(_) => "FAIL. invalid UTF-8.",
            LogError::PatternMismatch => "FAIL. unmatched pattern.",
            LogError::TimestampError(_) => "FAIL. unparsable timestamp.",
            LogError::NumericError(_) => "FAIL. invalid number.",
            LogError::SerializationError(_) => "FAIL. unserializable record.",
        }
    }

    /// The text of the failure for a log: the diagnostic or the offending
    /// text that it carries, as it is; for a line that does not match, the
    /// description.
    pub fn message(&self) -> (text: String)
        ensures
            text@ == self@.message(),
    {
        match self {
            LogError::EncodingError(text) => text.clone(),
            LogError::PatternMismatch => String::from_str(self.description()),
            LogError::TimestampError(text) => text.clone(),
            LogError::NumericError(text) => text.clone(),
            LogError::SerializationError(text) => text.clone(),
        }
    }
}

} // verus!
