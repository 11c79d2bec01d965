//! Logging set up from a bare verbosity count.

use vstd::prelude::*;
use crate::errors::Error;
use crate::log_level::resolve_filter;
use crate::logger::{init_logger, already_initialized};

verus! {

/// Sets the verbosity of the process-wide logger from a count:
///
/// - `0`: error
/// - `1`: warn
/// - `2`: info
/// - `3`: debug
/// - `>=4`: trace
///
/// The count applies to the messages of the package's own module; all
/// other modules are logged from warnings up. Fails only where a logger had
/// been installed before.
pub fn set_log_verbosity(own_pkg_name: &str, verbosity: u64) -> (result: Result<(), Error>)
    ensures
        result matches Err(error) ==> error@ == seq![already_initialized()],
{
    init_logger(own_pkg_name, resolve_filter(Some(verbosity)))
}

} // verus!
