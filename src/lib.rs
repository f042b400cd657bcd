//! Rule engine of a file organizer driven by a small line-based language:
//! `mv <pattern> to <dir>`, `pre <pattern> with <prefix>`, `suf <pattern> with <suffix>`.
pub mod cleaner;
pub mod config;
pub mod engine;
pub mod pattern;
pub mod rule;
pub mod text;

pub use cleaner::App;
pub use config::Config;
pub use engine::{acknowledgement, read_answer, Answer, Opening, ScanAction, ScanEvent, Step, Verb};
pub use pattern::{file_name_of, select_matches, wildcard_to_regex};
pub use rule::Rule;
