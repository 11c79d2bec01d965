use quicli::entry::{run, Run};
use quicli::errors::err_msg;
use quicli::logger::init_logger;
use quicli::log_level::LevelFilter;

#[test]
fn second_logger_is_a_startup_fault_and_the_body_does_not_run() {
    assert_eq!(init_logger("first", LevelFilter::Info), Ok(()));

    let mut ran = false;
    let outcome = run("second", Some(4), || {
        ran = true;
        Ok(())
    });
    assert_eq!(
        outcome,
        Run::StartupFault(err_msg(
            "attempted to set a logger after the logging system was already initialized"
        ))
    );
    assert!(!ran);
    assert_eq!(log::max_level(), log::LevelFilter::Info);
}
