//! What comes back from a request to the service, as far as the client's
//! decisions depend on it.

use vstd::prelude::*;

verus! {

/// The answer to a request: its status code and its body, or the text of the
/// error where no answer came.
#[derive(Debug)]
pub enum Response {
    Answered { status: u16, body: String },
    Failed { error: String },
}

/// The outcome of asking for a list of records.
#[derive(Debug)]
pub enum Fetched<T> {
    /// The service answered with the records.
    Loaded(Vec<T>),
    /// The service answered with something that is no list of records.
    Unparsable,
    /// The service answered with another status than success.
    Refused,
    /// No answer came; the text of the error.
    Failed(String),
}

/// Whether a status code says that a request for a list was met: only 200
/// does, and only then the body is read as a list.
pub fn list_follows(status: u16) -> (follows: bool)
    ensures
        follows == (status == 200),
{
    status == 200
}

/// The outcome of asking for a list of records, given the status code of
/// the answer and the records that its body was read as, if it could be.
pub fn fetched<T>(status: u16, rows: Option<Vec<T>>) -> (outcome: Fetched<T>)
    ensures
        outcome == if status != 200 {
            Fetched::<T>::Refused
        } else {
            match rows {
                Some(rows) => Fetched::Loaded(rows),
                None => Fetched::Unparsable,
            }
        },
{
    if !list_follows(status) {
        Fetched::Refused
    } else {
        match rows {
            Some(rows) => Fetched::Loaded(rows),
            None => Fetched::Unparsable,
        }
    }
}

/// The outcome of asking for the lines of an overview, given the status
/// code of the answer and the lines of its body: the lines count under any
/// status of success, from 200 up to 299.
pub fn fetched_lines(status: u16, lines: Vec<String>) -> (outcome: Fetched<String>)
    ensures
        outcome == if 200 <= status < 300 {
            Fetched::Loaded(lines)
        } else {
            Fetched::<String>::Refused
        },
{
    if 200 <= status && status < 300 {
        Fetched::Loaded(lines)
    } else {
        Fetched::Refused
    }
}

} // verus!
