//! Turns web server access-log lines in the common log format into JSON
//! records, one input record to one output record, and falls back to the
//! input bytes wherever a line cannot be transformed.

pub mod batch;
pub mod error;
pub mod json;
pub mod number;
pub mod pattern;
pub mod record;
pub mod timestamp;

pub use batch::my_handler;
pub use batch::transform_record;
pub use batch::OutputRecord;
pub use batch::RawRecord;
pub use batch::RecordStatus;
pub use error::LogError;
pub use pattern::LineParser;
pub use pattern::ParsedFields;
pub use record::apache_log2json;
pub use record::transform_data;
pub use record::AccessLogRecord;
