//! Building blocks for small command-line programs.
//!
//! - [`log_level`]: the verbosity flag and the log level that it selects.
//! - [`logger`]: the process-wide logger and its two filter rules.
//! - [`easy_log`]: the logger set up from a bare verbosity count.
//! - [`errors`]: errors that carry their chain of causes.
//! - [`report`]: the exit status of a program, and what it prints of a
//!   failure.
//! - [`entry`]: the life of a program from start-up to exit.
//! - [`fs`]: glob matching, and the results of reading and writing files.
//! - [`text`]: helpers for building text.
//!
//! Every function here is verified against its contract. What touches the
//! logger of the `log` crate or walks the file system is reached through a
//! handful of small functions whose contracts are taken on trust; each says
//! so in its documentation.

pub mod easy_log;
pub mod entry;
pub mod errors;
pub mod fs;
pub mod log_level;
pub mod logger;
pub mod report;
pub mod text;
