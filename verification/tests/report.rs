use quicli::errors::{err_msg, Error};
use quicli::report::{describe_failure, exit_status, report, Report, EXIT_FAILURE, EXIT_SUCCESS};

#[test]
fn wrapped_failure_prints_two_lines_and_exits_with_one() {
    let body: Result<(), Error> =
        Err(err_msg("disk full").context("could not write to file X"));
    assert_eq!(
        report(&body),
        Report {
            status: 1,
            lines: vec![
                "could not write to file X".to_string(),
                "caused by: disk full".to_string(),
            ],
        }
    );
}

#[test]
fn success_exits_with_zero_and_prints_nothing() {
    let body: Result<(), Error> = Ok(());
    assert_eq!(report(&body), Report { status: 0, lines: vec![] });
}

#[test]
fn success_of_any_type_exits_with_zero() {
    let body: Result<Vec<u8>, Error> = Ok(vec![1, 2, 3]);
    assert_eq!(exit_status(&body), 0);
    assert_eq!(report(&body).lines, Vec::<String>::new());
}

#[test]
fn failure_without_cause_prints_one_line() {
    let body: Result<(), Error> = Err(err_msg("index not found"));
    assert_eq!(
        report(&body),
        Report { status: 1, lines: vec!["index not found".to_string()] }
    );
}

#[test]
fn causes_are_printed_from_immediate_to_root() {
    let error = err_msg("permission denied")
        .context("Could not open file \"notes.txt\"")
        .context("could not load notes");
    assert_eq!(
        describe_failure(&error),
        vec![
            "could not load notes".to_string(),
            "caused by: Could not open file \"notes.txt\"".to_string(),
            "caused by: permission denied".to_string(),
        ]
    );
}

#[test]
fn exit_statuses_are_zero_and_one() {
    assert_eq!(EXIT_SUCCESS, 0);
    assert_eq!(EXIT_FAILURE, 1);
    let failed: Result<(), Error> = Err(err_msg("boom"));
    assert_eq!(exit_status(&failed), 1);
}
