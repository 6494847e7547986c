//! Structured-logging adapter: renders every record of the leveled-logging
//! facade as a single-line JSON document, fans the line out to registered
//! hooks in order, then hands it to the facade's sink.

mod digits;
mod emit;
mod hook;
mod level;
mod logger;
mod message;
mod record;
mod render;

pub use digits::dec_string;
pub use emit::{error_label, error_label_data, error_label_tag, error_label_tag_data};
pub use emit::{info_label, info_label_data, info_label_tag, info_label_tag_data};
pub use hook::{Hook, RecordingHook};
pub use level::Level;
pub use logger::{InitError, Logger};
pub use message::{msg_label, msg_label_data, msg_label_tag, msg_label_tag_data, substitute_tag};
pub use record::LogRecord;
pub use render::format_record;
