//! Routes log records to a host console with five severity-keyed channels,
//! with a severity filter and a replaceable format function.
mod format;
mod level;
mod logger;
mod record;

pub use format::{
    decimal, detail, detail_text, digit_char, file_text, line_number, push_decimal, simple,
    simple_text,
};
pub use level::{lemma_filter_passes, Level, LevelFilter};
pub use logger::{
    builder, channel_for, channel_of, dispatch, init, init_with_level, lemma_failed_format,
    lemma_format_replaces, lemma_routing, routes, Builder, Channel, ConsoleWrite, Formatter,
    Logger,
};
pub use record::Record;
