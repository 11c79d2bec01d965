use quicli::entry::{run, Run};
use quicli::report::Report;

fn enabled(target: &str, level: log::Level) -> bool {
    log::logger().enabled(&log::Metadata::builder().level(level).target(target).build())
}

#[test]
fn body_that_succeeds_exits_with_zero_and_prints_nothing() {
    let mut ran = 0;
    let outcome = run("read-me", Some(3), || {
        ran += 1;
        Ok(())
    });
    assert_eq!(outcome, Run::Finished(Report { status: 0, lines: vec![] }));
    assert_eq!(ran, 1);

    assert_eq!(log::max_level(), log::LevelFilter::Debug);
    assert!(enabled("read_me", log::Level::Debug));
    assert!(!enabled("read_me", log::Level::Trace));
    assert!(!enabled("elsewhere", log::Level::Info));
}
