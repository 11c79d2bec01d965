//! The life of a program from start to exit: the logger is installed, the
//! body runs, and what it came to is reported.

use vstd::prelude::*;
use crate::errors::Error;
use crate::log_level::resolve_filter;
use crate::logger::{already_initialized, init_logger};
use crate::report::{report, reports, Report, EXIT_SUCCESS};

verus! {

/// How a run of a program ended.
#[derive(Debug, PartialEq, Eq)]
pub enum Run {
    /// The logger could not be installed, so the body was not run. This is a
    /// fault of the program, which has installed a logger before: the caller
    /// should stop at once.
    StartupFault(Error),
    /// The body has run, and this is what to print and to exit with.
    Finished(Report),
}

/// `finished` is the report of something the body can return.
pub open spec fn reports_body<F: FnOnce() -> Result<(), Error>>(body: F, finished: Report) -> bool {
    exists|result: Result<(), Error>|
        call_ensures(body, (), result) && #[trigger] reports(result, finished)
}

/// Whatever the body returns, it is a success.
pub open spec fn body_cannot_fail<F: FnOnce() -> Result<(), Error>>(body: F) -> bool {
    forall|result: Result<(), Error>| call_ensures(body, (), result) ==> result is Ok
}

/// Runs the body of a program between start-up and exit.
///
/// First the process-wide logger is installed: the program's own messages
/// are logged at the level that `verbosity` selects, or for errors only if
/// the program has no verbosity flag, and all other messages from warnings
/// up. Then the body runs, once. A body that succeeds is reported with
/// status 0 and nothing to print; one that fails with status 1, its message
/// and its causes.
pub fn run<F: FnOnce() -> Result<(), Error>>(
    own_pkg_name: &str,
    verbosity: Option<u64>,
    body: F,
) -> (outcome: Run)
    requires
        call_requires(body, ()),
    ensures
        outcome matches Run::StartupFault(fault) ==> fault@ == seq![already_initialized()],
        outcome matches Run::Finished(finished) ==> reports_body(body, finished),
        outcome matches Run::Finished(finished) ==> body_cannot_fail(body) ==> finished.status
            == EXIT_SUCCESS && finished.lines@.len() == 0,
{
    match init_logger(own_pkg_name, resolve_filter(verbosity)) {
        Err(fault) => Run::StartupFault(fault),
        Ok(()) => {
            let result = body();
            Run::Finished(report(&result))
        },
    }
}

} // verus!
