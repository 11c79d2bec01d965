//! Helpers for common file system tasks, with errors that name the path or
//! pattern they were asked about.
//!
//! Reading and writing themselves are left to the caller, who reports what
//! happened as a [`ReadAttempt`] or a [`WriteAttempt`]; this module decides
//! what the result is.

use vstd::prelude::*;
use vstd::string::*;
use std::path::PathBuf;
use crate::errors::{err_msg, Error};
use crate::text::{join3, lemma_middle_occurs, occurs_in};

verus! {

/// An owned file system path, as `std` holds it.
#[verifier::external_type_specification]
#[verifier::external_body]
pub struct ExPathBuf(PathBuf);

/// The error of the `globwalk` crate for a pattern that it cannot parse.
#[verifier::external_type_specification]
#[verifier::external_body]
pub struct ExGlobError(globwalk::GlobError);

/// The directory below which `glob` looks for matches.
pub const GLOB_BASE: &'static str = ".";

/// How many levels below the base `glob` descends.
pub const GLOB_MAX_DEPTH: usize = 1;

/// The message for a path that is missing or names no regular file.
pub open spec fn not_a_file(path: Seq<char>) -> Seq<char> {
    "Path \""@ + path + "\" is not a file!"@
}

/// The message for a file that could not be opened for reading.
pub open spec fn could_not_open(path: Seq<char>) -> Seq<char> {
    "Could not open file \""@ + path + "\""@
}

/// The message for a file whose contents could not be read as text.
pub open spec fn could_not_read(path: Seq<char>) -> Seq<char> {
    "Could not read file \""@ + path + "\""@
}

/// The message for a file that could not be created or truncated.
pub open spec fn could_not_create(path: Seq<char>) -> Seq<char> {
    "Could not create/open file \""@ + path + "\""@
}

/// The message for a file that could not be written in full.
pub open spec fn could_not_write(path: Seq<char>) -> Seq<char> {
    "Could not write to file \""@ + path + "\""@
}

/// The message for a pattern that matches no file.
pub open spec fn no_match(pattern: Seq<char>) -> Seq<char> {
    "No files match pattern `"@ + pattern + "`"@
}

/// What happened when a file was read.
#[derive(Debug, PartialEq, Eq)]
pub enum ReadAttempt {
    /// The path does not exist, or does not name a regular file.
    NotAFile,
    /// The file could not be opened; the error says why.
    OpenFailed(Error),
    /// The file was opened, but its contents could not be read as text.
    ReadFailed(Error),
    /// The whole file was read, and this is its text.
    Read(String),
}

/// What happened when a file was written.
#[derive(Debug, PartialEq, Eq)]
pub enum WriteAttempt {
    /// The file could not be created or truncated; the error says why.
    CreateFailed(Error),
    /// The file was created, but the text could not be written in full.
    WriteFailed(Error),
    /// The whole text was written.
    Written,
}

/// The result of reading the file at `path`, given what happened: the text
/// as it was read, or an error that names the path and keeps the underlying
/// failure as its cause.
pub fn read_result(path: &str, attempt: ReadAttempt) -> (result: Result<String, Error>)
    ensures
        match attempt {
            ReadAttempt::NotAFile => result matches Err(error) && error@ == seq![
                not_a_file(path@),
            ],
            ReadAttempt::OpenFailed(cause) => result matches Err(error) && error@ == seq![
                could_not_open(path@),
            ] + cause@,
            ReadAttempt::ReadFailed(cause) => result matches Err(error) && error@ == seq![
                could_not_read(path@),
            ] + cause@,
            ReadAttempt::Read(text) => result == Ok::<String, Error>(text),
        },
{
    match attempt {
        ReadAttempt::NotAFile => {
            let message = join3("Path \"", path, "\" is not a file!");
            Err(err_msg(message.as_str()))
        },
        ReadAttempt::OpenFailed(cause) => {
            let message = join3("Could not open file \"", path, "\"");
            Err(cause.context(message.as_str()))
        },
        ReadAttempt::ReadFailed(cause) => {
            let message = join3("Could not read file \"", path, "\"");
            Err(cause.context(message.as_str()))
        },
        ReadAttempt::Read(text) => Ok(text),
    }
}

/// The result of writing the file at `path`, given what happened: success,
/// or an error that names the path and keeps the underlying failure as its
/// cause.
pub fn write_result(path: &str, attempt: WriteAttempt) -> (result: Result<(), Error>)
    ensures
        match attempt {
            WriteAttempt::CreateFailed(cause) => result matches Err(error) && error@ == seq![
                could_not_create(path@),
            ] + cause@,
            WriteAttempt::WriteFailed(cause) => result matches Err(error) && error@ == seq![
                could_not_write(path@),
            ] + cause@,
            WriteAttempt::Written => result is Ok,
        },
{
    match attempt {
        WriteAttempt::CreateFailed(cause) => {
            let message = join3("Could not create/open file \"", path, "\"");
            Err(cause.context(message.as_str()))
        },
        WriteAttempt::WriteFailed(cause) => {
            let message = join3("Could not write to file \"", path, "\"");
            Err(cause.context(message.as_str()))
        },
        WriteAttempt::Written => Ok(()),
    }
}

/// The entries of a walk that were found, in the order of the walk; the
/// entries that could not be visited are left out.
pub open spec fn found<P>(entries: Seq<Option<P>>) -> Seq<P> {
    entries.filter_map(|entry: Option<P>| entry)
}

/// The result of a walk for `patterns`: the paths that were found, in the
/// order of the walk, or an error that names the pattern where there are
/// none.
pub fn matches_or_error<P>(patterns: &str, entries: Vec<Option<P>>) -> (result: Result<
    Vec<P>,
    Error,
>)
    ensures
        found(entries@).len() > 0 ==> (result matches Ok(files) && files@ == found(entries@)),
        found(entries@).len() == 0 ==> (result matches Err(error) && error@ == seq![
            no_match(patterns@),
        ]),
{
    let mut files: Vec<P> = Vec::new();
    let ghost all = entries@;
    for entry in it: entries
        invariant
            it.seq() == all,
            files@ == found(all.take(it.index() as int)),
    {
        proof {
            all.lemma_filter_map_take_succ(|entry: Option<P>| entry, it.index() as int);
        }
        match entry {
            Some(path) => {
                files.push(path);
            },
            None => {},
        }
    }
    assert(all.take(all.len() as int) =~= all);
    if files.len() == 0 {
        let message = join3("No files match pattern `", patterns, "`");
        Err(err_msg(message.as_str()))
    } else {
        Ok(files)
    }
}

/// Calls `globwalk::GlobWalkerBuilder::from_patterns` with the one pattern,
/// then `max_depth` and `build`, and walks the directory tree. Each entry of
/// the walk is handed out as its path, or as `None` where the walk could not
/// visit it. Nothing is claimed of the outcome: it depends on what is on
/// disk.
///
/// The base has to be the current directory: the walk of `globwalk` takes
/// the base off every path it visits and panics where it cannot, which is
/// so for a base that begins with `./`.
#[verifier::external_body]
fn walk(base: &str, pattern: &str, max_depth: usize) -> (outcome: Result<
    Vec<Option<PathBuf>>,
    globwalk::GlobError,
>)
    requires
        base@ == "."@,
{
    let walker = globwalk::GlobWalkerBuilder::from_patterns(base, &[pattern])
        .max_depth(max_depth)
        .build()?;
    Ok(walker.map(|entry| entry.ok().map(|visited| visited.into_path())).collect())
}

/// Formats a `globwalk::GlobError` through its `Display` impl. Nothing is
/// claimed of the text.
#[verifier::external_body]
fn refusal_text(refusal: &globwalk::GlobError) -> (text: String) {
    refusal.to_string()
}

/// Finds the files that match a glob pattern such as `*.md`, looking in the
/// current directory.
///
/// Succeeds with at least one path, in the order in which the directory was
/// walked. Fails where nothing matches, with [`no_match`] as the message, or
/// where the pattern cannot be parsed; either way the error has no cause.
pub fn glob(patterns: &str) -> (result: Result<Vec<PathBuf>, Error>)
    ensures
        match result {
            Ok(files) => files@.len() > 0,
            Err(error) => error@.len() == 1,
        },
{
    match walk(GLOB_BASE, patterns, GLOB_MAX_DEPTH) {
        Ok(entries) => matches_or_error(patterns, entries),
        Err(refusal) => {
            let text = refusal_text(&refusal);
            Err(err_msg(text.as_str()))
        },
    }
}

/// The error for a path that is no file contains the path as it was given.
pub proof fn lemma_not_a_file_names_path(path: Seq<char>)
    ensures
        occurs_in(path, not_a_file(path)),
{
    lemma_middle_occurs("Path \""@, path, "\" is not a file!"@);
}

/// The error for a pattern without matches contains the pattern as it was
/// given.
pub proof fn lemma_no_match_names_pattern(pattern: Seq<char>)
    ensures
        occurs_in(pattern, no_match(pattern)),
{
    lemma_middle_occurs("No files match pattern `"@, pattern, "`"@);
}

} // verus!
