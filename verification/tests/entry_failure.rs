use quicli::entry::{run, Run};
use quicli::errors::err_msg;
use quicli::report::Report;

fn enabled(target: &str, level: log::Level) -> bool {
    log::logger().enabled(&log::Metadata::builder().level(level).target(target).build())
}

#[test]
fn body_that_fails_exits_with_one_and_prints_its_causes() {
    let outcome = run("thumbs", None, || {
        Err(err_msg("disk full").context("could not write to file X"))
    });
    assert_eq!(
        outcome,
        Run::Finished(Report {
            status: 1,
            lines: vec![
                "could not write to file X".to_string(),
                "caused by: disk full".to_string(),
            ],
        })
    );

    assert_eq!(log::max_level(), log::LevelFilter::Warn);
    assert!(enabled("thumbs", log::Level::Error));
    assert!(!enabled("thumbs", log::Level::Warn));
    assert!(enabled("elsewhere", log::Level::Warn));
}
