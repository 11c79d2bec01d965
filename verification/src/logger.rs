//! The process-wide logger and its two filter rules.

use vstd::prelude::*;
use vstd::string::*;
use crate::errors::{err_msg, Error};
use crate::log_level::LevelFilter;

verus! {

/// The error of the `log` crate for a second attempt to install a logger.
#[verifier::external_type_specification]
#[verifier::external_body]
pub struct ExSetLoggerError(log::SetLoggerError);

/// The message of the error that a second installation ends in.
pub open spec fn already_initialized() -> Seq<char> {
    "attempted to set a logger after the logging system was already initialized"@
}

/// The name under which a package's own messages are logged: the package
/// name with every hyphen replaced by an underscore.
pub open spec fn module_name_of(package: Seq<char>) -> Seq<char> {
    package.map_values(|c: char| if c == '-' { '_' } else { c })
}

/// A module name is as long as the package name and holds no hyphen, and a
/// name without hyphens is its own module name.
pub proof fn lemma_module_name_has_no_hyphen(package: Seq<char>)
    ensures
        module_name_of(package).len() == package.len(),
        forall|i: int| 0 <= i < package.len() ==> module_name_of(package)[i] != '-',
        module_name_of(module_name_of(package)) == module_name_of(package),
{
    assert(module_name_of(module_name_of(package)) =~= module_name_of(package));
}

/// The builder of the `env_logger` crate, which collects the rules of a
/// logger and then installs it.
#[verifier::external_type_specification]
#[verifier::external_body]
pub struct ExBuilder(env_logger::Builder);

/// The rules that a builder holds: what is logged of each module that has a
/// rule of its own, and under `None` what is logged of all others.
pub uninterp spec fn rules_of(builder: env_logger::Builder) -> Map<Option<Seq<char>>, LevelFilter>;

/// The rules of a builder that holds none.
pub open spec fn no_rules() -> Map<Option<Seq<char>>, LevelFilter> {
    Map::empty()
}

/// Whether a builder has made its logger already. Such a builder makes no
/// second one.
pub uninterp spec fn spent(builder: env_logger::Builder) -> bool;

/// `env_logger::Builder::new` makes a builder that holds no rule and reads
/// nothing from the environment.
pub assume_specification[ env_logger::Builder::new ]() -> (builder: env_logger::Builder)
    ensures
        rules_of(builder) == no_rules(),
        !spent(builder),
;

/// `env_logger::Builder::try_init` makes the logger and installs it for the
/// process. It panics on a builder that has made a logger before. Nothing
/// is claimed of the outcome: it depends on whether this process has a
/// logger already.
pub assume_specification[ env_logger::Builder::try_init ](
    builder: &mut env_logger::Builder,
) -> (outcome: Result<(), log::SetLoggerError>)
    requires
        !spent(*old(builder)),
    ensures
        spent(*final(builder)),
;

/// The module that a rule is for, as the rules of a builder name it.
pub open spec fn module_of(module: Option<&str>) -> Option<Seq<char>> {
    match module {
        Some(name) => Some(name@),
        None => None,
    }
}

/// Calls `env_logger::Builder::filter`, which sets the rule for the given
/// module, or for all modules without a rule of their own, in place of the
/// rule that the builder held for it, if any.
#[verifier::external_body]
fn set_rule(builder: &mut env_logger::Builder, module: Option<&str>, level: LevelFilter)
    ensures
        rules_of(*final(builder)) == rules_of(*old(builder)).insert(module_of(module), level),
        spent(*final(builder)) == spent(*old(builder)),
{
    builder.filter(
        module,
        match level {
            LevelFilter::Off => log::LevelFilter::Off,
            LevelFilter::Error => log::LevelFilter::Error,
            LevelFilter::Warn => log::LevelFilter::Warn,
            LevelFilter::Info => log::LevelFilter::Info,
            LevelFilter::Debug => log::LevelFilter::Debug,
            LevelFilter::Trace => log::LevelFilter::Trace,
        },
    );
}

/// Formats a `log::SetLoggerError` through its `Display` impl, which writes
/// one fixed sentence whatever the value.
#[verifier::external_body]
fn describe(error: &log::SetLoggerError) -> (text: String)
    ensures
        text@ == already_initialized(),
{
    error.to_string()
}

/// Computes the module name of a package.
pub fn module_name(package: &str) -> (name: String)
    ensures
        name@ == module_name_of(package@),
{
    let mut name = String::new();
    for c in it: package.chars()
        invariant
            it.seq() == package@,
            name@ == module_name_of(package@.take(it.index() as int)),
    {
        name.push(if c == '-' { '_' } else { c });
    }
    name
}

/// The two rules of the process-wide logger: one for the messages of the
/// program's own module, one for the messages of everything else.
#[derive(Debug, PartialEq, Eq)]
pub struct LoggerRules {
    /// The module whose messages are the program's own.
    pub module: String,
    /// What is logged of the program's own messages.
    pub module_level: LevelFilter,
    /// What is logged of all other messages.
    pub default_level: LevelFilter,
}

impl View for LoggerRules {
    type V = Map<Option<Seq<char>>, LevelFilter>;

    /// The rules by module, with `None` for all modules but the program's
    /// own.
    open spec fn view(&self) -> Map<Option<Seq<char>>, LevelFilter> {
        no_rules().insert(Some(self.module@), self.module_level).insert(None, self.default_level)
    }
}

/// Lays down the rules for a package whose own messages are logged at
/// `level`: its module is named after the package, and all other modules
/// are logged from warnings up.
pub fn logger_rules(own_pkg_name: &str, level: LevelFilter) -> (rules: LoggerRules)
    ensures
        rules.module@ == module_name_of(own_pkg_name@),
        rules.module_level == level,
        rules.default_level == LevelFilter::Warn,
{
    LoggerRules {
        module: module_name(own_pkg_name),
        module_level: level,
        default_level: LevelFilter::Warn,
    }
}

/// What an attempt to install the logger comes to: success stays success,
/// and a refusal becomes an error with the refusal's message and no cause.
pub fn init_outcome(outcome: Result<(), log::SetLoggerError>) -> (result: Result<(), Error>)
    ensures
        outcome is Ok ==> result is Ok,
        outcome is Err ==> (result matches Err(error) && error@ == seq![already_initialized()]),
{
    match outcome {
        Ok(()) => Ok(()),
        Err(refusal) => {
            let text = describe(&refusal);
            Err(err_msg(text.as_str()))
        },
    }
}

/// A fresh builder that holds the given rules and no others.
pub fn builder_for(rules: &LoggerRules) -> (builder: env_logger::Builder)
    ensures
        rules_of(builder) == rules@,
        !spent(builder),
{
    let mut builder = env_logger::Builder::new();
    set_rule(&mut builder, Some(rules.module.as_str()), rules.module_level);
    set_rule(&mut builder, None, rules.default_level);
    builder
}

/// Installs the process-wide logger with the given rules.
///
/// Fails only where a logger had been installed before.
pub fn install(rules: &LoggerRules) -> (result: Result<(), Error>)
    ensures
        result matches Err(error) ==> error@ == seq![already_initialized()],
{
    let mut builder = builder_for(rules);
    let outcome = builder.try_init();
    init_outcome(outcome)
}

/// Installs the process-wide logger for a package whose own messages are
/// logged at `level`; see [`logger_rules`].
///
/// Fails only where a logger had been installed before.
pub fn init_logger(own_pkg_name: &str, level: LevelFilter) -> (result: Result<(), Error>)
    ensures
        result matches Err(error) ==> error@ == seq![already_initialized()],
{
    let rules = logger_rules(own_pkg_name, level);
    install(&rules)
}

} // verus!
