use quicli::log_level::resolve_filter;
use quicli::logger::init_logger;

fn enabled(target: &str, level: log::Level) -> bool {
    log::logger().enabled(&log::Metadata::builder().level(level).target(target).build())
}

#[test]
fn program_without_flag_keeps_warnings_of_others() {
    assert_eq!(init_logger("head", resolve_filter(None)), Ok(()));

    assert_eq!(log::max_level(), log::LevelFilter::Warn);
    assert!(enabled("head", log::Level::Error));
    assert!(!enabled("head", log::Level::Warn));
    assert!(enabled("structopt", log::Level::Warn));
    assert!(!enabled("structopt", log::Level::Info));
}
