//! Turning driver results into the lines that the shell prints.
//!
//! A success and a failure are told apart by the report's variant, so the
//! shell can print them on separate streams.
use vstd::prelude::*;

pub mod pid;
pub mod relay;

verus! {

/// A failure of the outside driver, with the detail it gave.
#[derive(Clone, Debug, PartialEq, Eq)]
pub struct DriverError {
    pub detail: String,
}

/// One line of output.
#[derive(Clone, Debug, PartialEq, Eq)]
pub enum Report {
    /// An operation's result.
    Info(String),
    /// A failure, to be shown apart from ordinary output.
    Error(String),
}

impl Report {
    /// The text of the line.
    pub fn text(&self) -> (r: &str)
        ensures
            r@ == report_text(*self),
    {
        match self {
            Report::Info(t) => t.as_str(),
            Report::Error(t) => t.as_str(),
        }
    }
}

pub open spec fn report_text(r: Report) -> Seq<char> {
    match r {
        Report::Info(t) => t@,
        Report::Error(t) => t@,
    }
}

/// `r` is the success line `text`.
pub open spec fn is_info(r: Report, text: Seq<char>) -> bool {
    r matches Report::Info(t) && t@ == text
}

/// `r` is the failure line `text`.
pub open spec fn is_error(r: Report, text: Seq<char>) -> bool {
    r matches Report::Error(t) && t@ == text
}

/// How a driver failure reads.
pub open spec fn error_text(detail: Seq<char>) -> Seq<char> {
    "Error: "@ + detail
}

/// The printed form of a driver result: the value's text, or the error's.
pub open spec fn stringified(value: Result<String, DriverError>) -> Seq<char> {
    match value {
        Ok(v) => v@,
        Err(e) => error_text(e.detail@),
    }
}

/// Converts a driver result into the text of the value or of the error, so
/// that a failed read is reported in place of its value.
pub fn stringify(value: Result<String, DriverError>) -> (r: String)
    ensures
        r@ == stringified(value),
{
    match value {
        Ok(v) => v,
        Err(e) => error_line(&e),
    }
}

pub(crate) fn error_line(e: &DriverError) -> (r: String)
    ensures
        r@ == error_text(e.detail@),
{
    let mut s = String::from_str("Error: ");
    s.append(e.detail.as_str());
    s
}

/// The failure line for a driver error.
pub fn failure(e: &DriverError) -> (r: Report)
    ensures
        is_error(r, error_text(e.detail@)),
{
    Report::Error(error_line(e))
}

/// The line for an operation that returns nothing: `done` on success, the
/// error otherwise.
pub fn acknowledge(result: &Result<(), DriverError>, done: String) -> (r: Report)
    ensures
        result is Ok ==> is_info(r, done@),
        *result matches Err(e) ==> is_error(r, error_text(e.detail@)),
{
    match result {
        Ok(()) => Report::Info(done),
        Err(e) => failure(e),
    }
}

} // verus!
