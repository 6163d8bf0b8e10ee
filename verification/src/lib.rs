//! Builds a markdown listing of the repositories returned by a topic search:
//! the response body is decoded into plain records, and the report — header,
//! total count, one bullet line per repository, license and acknowledgment
//! sections, and a closing timestamp line — is rendered as one string whose
//! exact content is verified.

pub mod model;
pub mod numfmt;
pub mod parse;
pub mod render;
pub mod timestamp;

pub use model::{Repository, RepositoryView, Response, ResponseView};
pub use parse::{parse_response, ParseError};
pub use numfmt::decimal_string;
pub use render::render_report;
pub use timestamp::{current_timestamp, format_timestamp, LocalTime};
