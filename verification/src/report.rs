//! How a program ends: its exit status, and what it prints to standard error
//! about a failure and the causes behind it.

use vstd::prelude::*;
use vstd::string::*;
use crate::errors::Error;
use crate::text::texts;

verus! {

/// The exit status of a program that succeeded.
pub const EXIT_SUCCESS: i32 = 0;

/// The exit status of a program that failed.
pub const EXIT_FAILURE: i32 = 1;

/// The line that is printed for one cause of a failure.
pub open spec fn caused_by(cause: Seq<char>) -> Seq<char> {
    "caused by: "@ + cause
}

/// The lines that are printed for a failure: its own message, then one line
/// for each cause, from the immediate cause to the root cause.
pub open spec fn failure_lines(chain: Seq<Seq<char>>) -> Seq<Seq<char>> {
    Seq::new(
        chain.len(),
        |i: int|
            if i == 0 {
                chain[0]
            } else {
                caused_by(chain[i])
            },
    )
}

/// A failure is printed on as many lines as its chain is long.
pub proof fn lemma_one_line_per_failure(chain: Seq<Seq<char>>)
    ensures
        failure_lines(chain).len() == chain.len(),
{
}

/// Wrapping a failure puts the new description on the first line and moves
/// what was printed first into the causes; the lines of the older causes
/// stay as they were.
pub proof fn lemma_wrapped_failure_lines(context: Seq<char>, chain: Seq<Seq<char>>)
    requires
        chain.len() >= 1,
    ensures
        failure_lines(seq![context] + chain) == seq![context, caused_by(chain[0])] + failure_lines(
            chain,
        ).skip(1),
{
}

/// A root cause wrapped once is printed on two lines: the wrapping
/// description, then the root cause marked as a cause.
pub proof fn lemma_wrapped_root_cause_lines(context: Seq<char>, root: Seq<char>)
    ensures
        failure_lines(seq![context, root]) == seq![context, caused_by(root)],
{
}

/// What a program leaves behind when it ends.
#[derive(Debug, PartialEq, Eq)]
pub struct Report {
    /// The exit status of the process.
    pub status: i32,
    /// The lines to print to standard error, in order.
    pub lines: Vec<String>,
}

/// `report` is what the result of a program's body is reported as: success
/// with status 0 and nothing to print, a failure with status 1, its message
/// and its causes.
pub open spec fn reports<T>(result: Result<T, Error>, report: Report) -> bool {
    match result {
        Ok(_) => report.status == EXIT_SUCCESS && report.lines@.len() == 0,
        Err(error) => report.status == EXIT_FAILURE && texts(report.lines@) == failure_lines(
            error@,
        ),
    }
}

/// The lines to print to standard error for a failure.
pub fn describe_failure(error: &Error) -> (lines: Vec<String>)
    ensures
        texts(lines@) == failure_lines(error@),
{
    proof {
        error.lemma_chain_nonempty();
    }
    let causes = error.causes();
    let mut lines: Vec<String> = Vec::new();
    lines.push(error.to_string());
    assert(texts(causes@).len() == causes@.len());
    let mut i: usize = 0;
    while i < causes.len()
        invariant
            i <= causes.len(),
            texts(causes@) == error@.skip(1),
            error@.len() == causes@.len() + 1,
            lines@.len() == i + 1,
            texts(lines@) == failure_lines(error@).take(i + 1),
        decreases causes.len() - i,
    {
        let mut line = String::from_str("caused by: ");
        line.append(causes[i].as_str());
        assert(error@.skip(1)[i as int] == error@[i + 1]);
        lines.push(line);
        i += 1;
    }
    lines
}

/// The exit status for the result of a program's body.
pub fn exit_status<T>(result: &Result<T, Error>) -> (status: i32)
    ensures
        result is Ok ==> status == EXIT_SUCCESS,
        result is Err ==> status == EXIT_FAILURE,
{
    match result {
        Ok(_) => EXIT_SUCCESS,
        Err(_) => EXIT_FAILURE,
    }
}

/// Reports the result of a program's body. Success has status 0 and prints
/// nothing; a failure has status 1 and prints its message and its causes.
pub fn report<T>(result: &Result<T, Error>) -> (report: Report)
    ensures
        reports(*result, report),
{
    match result {
        Ok(_) => Report { status: EXIT_SUCCESS, lines: Vec::new() },
        Err(error) => Report { status: EXIT_FAILURE, lines: describe_failure(error) },
    }
}

} // verus!
