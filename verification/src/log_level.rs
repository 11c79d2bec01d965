//! Log levels and the verbosity flag that selects one.

use vstd::prelude::*;
use vstd::string::*;
use crate::errors::Error;
use crate::logger::{init_logger, already_initialized};
use crate::text::{decimal, decimal_text};

verus! {

/// Severity of a log message, from the most to the least severe.
#[derive(Clone, Copy, Debug, PartialEq, Eq, Structural)]
pub enum Level {
    Error,
    Warn,
    Info,
    Debug,
    Trace,
}

/// The most verbose level that a logger lets through, or `Off` for none.
#[derive(Clone, Copy, Debug, PartialEq, Eq, Structural)]
pub enum LevelFilter {
    Off,
    Error,
    Warn,
    Info,
    Debug,
    Trace,
}

/// The level that a verbosity count stands for.
pub open spec fn level_of(verbosity: nat) -> Level {
    if verbosity == 0 {
        Level::Error
    } else if verbosity == 1 {
        Level::Warn
    } else if verbosity == 2 {
        Level::Info
    } else if verbosity == 3 {
        Level::Debug
    } else {
        Level::Trace
    }
}

/// The filter that lets through a level and everything more severe.
pub open spec fn filter_of(level: Level) -> LevelFilter {
    match level {
        Level::Error => LevelFilter::Error,
        Level::Warn => LevelFilter::Warn,
        Level::Info => LevelFilter::Info,
        Level::Debug => LevelFilter::Debug,
        Level::Trace => LevelFilter::Trace,
    }
}

/// The filter for a program's own messages: the one its verbosity count
/// selects, or the one for errors only where it has no verbosity flag.
pub open spec fn resolved_filter(verbosity: Option<u64>) -> LevelFilter {
    match verbosity {
        Some(count) => filter_of(level_of(count as nat)),
        None => LevelFilter::Error,
    }
}

impl Level {
    /// Where the level stands among the five, from 1 for the most severe to
    /// 5 for the most verbose.
    pub open spec fn rank(self) -> nat {
        match self {
            Level::Error => 1,
            Level::Warn => 2,
            Level::Info => 3,
            Level::Debug => 4,
            Level::Trace => 5,
        }
    }

    /// The filter that corresponds to this level.
    pub fn to_level_filter(&self) -> (filter: LevelFilter)
        ensures
            filter == filter_of(*self),
    {
        match self {
            Level::Error => LevelFilter::Error,
            Level::Warn => LevelFilter::Warn,
            Level::Info => LevelFilter::Info,
            Level::Debug => LevelFilter::Debug,
            Level::Trace => LevelFilter::Trace,
        }
    }
}

/// The table of levels: no flag means errors only, and each further flag
/// lets one more level through, up to `Trace` from the fourth flag on.
pub proof fn lemma_levels_by_verbosity(verbosity: nat)
    ensures
        verbosity == 0 ==> level_of(verbosity) == Level::Error,
        verbosity == 1 ==> level_of(verbosity) == Level::Warn,
        verbosity == 2 ==> level_of(verbosity) == Level::Info,
        verbosity == 3 ==> level_of(verbosity) == Level::Debug,
        verbosity >= 4 ==> level_of(verbosity) == Level::Trace,
{
}

/// Passing the flag more often never selects a less verbose level.
pub proof fn lemma_level_grows_with_verbosity(fewer: nat, more: nat)
    requires
        fewer <= more,
    ensures
        level_of(fewer).rank() <= level_of(more).rank(),
{
}

/// Maps a verbosity count to its level: 0 is `Error`, 1 `Warn`, 2 `Info`,
/// 3 `Debug`, and anything above that `Trace`.
pub fn level_for(verbosity: u64) -> (level: Level)
    ensures
        level == level_of(verbosity as nat),
{
    match verbosity {
        0 => Level::Error,
        1 => Level::Warn,
        2 => Level::Info,
        3 => Level::Debug,
        _ => Level::Trace,
    }
}

/// Resolves the filter for a program's own messages from its verbosity
/// count, if it has one.
pub fn resolve_filter(verbosity: Option<u64>) -> (filter: LevelFilter)
    ensures
        filter == resolved_filter(verbosity),
{
    match verbosity {
        Some(count) => level_for(count).to_level_filter(),
        None => LevelFilter::Error,
    }
}

/// How often the verbosity flag was passed on the command line.
///
/// By default only errors are reported. Passing the flag once also reports
/// warnings, twice enables info logging, three times debug, and four times
/// trace.
#[derive(Clone, Copy, Debug, PartialEq, Eq, Structural)]
pub struct Verbosity {
    verbosity: u8,
}

impl View for Verbosity {
    type V = nat;

    /// The number of times the flag was passed.
    closed spec fn view(&self) -> nat {
        self.verbosity as nat
    }
}

impl Verbosity {
    /// The verbosity of a flag passed `verbosity` times.
    pub fn new(verbosity: u8) -> (flag: Verbosity)
        ensures
            flag@ == verbosity,
    {
        Verbosity { verbosity }
    }

    /// The number of times the flag was passed.
    pub fn count(&self) -> (count: u8)
        ensures
            count == self@,
    {
        self.verbosity
    }

    /// The filter that this verbosity selects.
    pub fn log_level(&self) -> (filter: LevelFilter)
        ensures
            filter == filter_of(level_of(self@)),
    {
        level_for(self.verbosity as u64).to_level_filter()
    }

    /// Installs the process-wide logger: the package's own messages are
    /// logged at the selected level, those of all other modules from
    /// warnings up.
    ///
    /// Fails only where a logger had been installed before.
    pub fn setup_env_logger(&self, own_pkg_name: &str) -> (result: Result<(), Error>)
        ensures
            result matches Err(error) ==> error@ == seq![already_initialized()],
    {
        init_logger(own_pkg_name, self.log_level())
    }

    /// The count, written in decimal.
    pub fn to_string(&self) -> (text: String)
        ensures
            text@ == decimal(self@),
    {
        decimal_text(self.verbosity)
    }
}

} // verus!
