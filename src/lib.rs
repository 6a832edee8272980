pub mod config;
pub mod count;
pub mod engine;

pub use config::{Config, TooManyArgumentsError};
pub use count::{count_bytes, count_lines, count_locale_chars, count_words};
pub use engine::{parse_mode, Ccwc, Mode, RunError, UnknownOptionError};
