use quicli::log_level::LevelFilter;
use quicli::logger::{builder_for, logger_rules, module_name, LoggerRules};

#[test]
fn hyphens_become_underscores() {
    assert_eq!(module_name("commit-msg-gen"), "commit_msg_gen");
}

#[test]
fn name_without_hyphen_is_kept() {
    assert_eq!(module_name("head"), "head");
    assert_eq!(module_name("already_fine"), "already_fine");
    assert_eq!(module_name(""), "");
}

#[test]
fn only_hyphens_are_replaced() {
    assert_eq!(module_name("-a.b c-é-"), "_a.b c_é_");
}

#[test]
fn rules_name_the_module_and_default_to_warnings() {
    assert_eq!(
        logger_rules("commit-msg-gen", LevelFilter::Debug),
        LoggerRules {
            module: "commit_msg_gen".to_string(),
            module_level: LevelFilter::Debug,
            default_level: LevelFilter::Warn,
        }
    );
}

#[test]
fn default_stays_at_warnings_whatever_the_own_level() {
    assert_eq!(logger_rules("head", LevelFilter::Error).default_level, LevelFilter::Warn);
    assert_eq!(logger_rules("head", LevelFilter::Trace).default_level, LevelFilter::Warn);
    assert_eq!(logger_rules("head", LevelFilter::Off).default_level, LevelFilter::Warn);
}

fn lets_through(logger: &env_logger::Logger, target: &str, level: log::Level) -> bool {
    log::Log::enabled(logger, &log::Metadata::builder().level(level).target(target).build())
}

#[test]
fn builder_holds_both_rules() {
    let rules = logger_rules("my-app", LevelFilter::Debug);
    let logger = builder_for(&rules).build();
    assert_eq!(logger.filter(), log::LevelFilter::Debug);
    assert!(lets_through(&logger, "my_app", log::Level::Debug));
    assert!(!lets_through(&logger, "my_app", log::Level::Trace));
    assert!(lets_through(&logger, "elsewhere", log::Level::Warn));
    assert!(!lets_through(&logger, "elsewhere", log::Level::Info));
    assert!(!lets_through(&logger, "my-app", log::Level::Info));
}

#[test]
fn builder_takes_the_rules_as_they_are_given() {
    let rules = LoggerRules {
        module: "noisy".to_string(),
        module_level: LevelFilter::Off,
        default_level: LevelFilter::Trace,
    };
    let logger = builder_for(&rules).build();
    assert_eq!(logger.filter(), log::LevelFilter::Trace);
    assert!(!lets_through(&logger, "noisy", log::Level::Error));
    assert!(lets_through(&logger, "elsewhere", log::Level::Trace));
}

#[test]
fn each_filter_reaches_the_logger_as_itself() {
    let filters = [
        (LevelFilter::Off, log::LevelFilter::Off),
        (LevelFilter::Error, log::LevelFilter::Error),
        (LevelFilter::Warn, log::LevelFilter::Warn),
        (LevelFilter::Info, log::LevelFilter::Info),
        (LevelFilter::Debug, log::LevelFilter::Debug),
        (LevelFilter::Trace, log::LevelFilter::Trace),
    ];
    for (own, outside) in filters {
        let rules = LoggerRules {
            module: "m".to_string(),
            module_level: own,
            default_level: LevelFilter::Off,
        };
        assert_eq!(builder_for(&rules).build().filter(), outside);
    }
}
