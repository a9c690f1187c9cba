//! The statuses that the service answers with, and what the store can say.

use vstd::prelude::*;
use vstd::string::*;

verus! {

/// The status of an answer of the service.
#[derive(Clone, Copy, Debug, PartialEq, Eq, Structural)]
pub enum Status {
    /// The request was met: code 200.
    Success,
    Created,
    BadRequest,
    Conflict,
    InternalServerError,
}

/// The code that stands for a status on the wire.
pub open spec fn code_of(status: Status) -> u16 {
    match status {
        Status::Success => 200,
        Status::Created => 201,
        Status::BadRequest => 400,
        Status::Conflict => 409,
        Status::InternalServerError => 500,
    }
}

impl Status {
    /// The code that stands for the status on the wire.
    pub fn code(&self) -> (code: u16)
        ensures
            code == code_of(*self),
    {
        match self {
            Status::Success => 200,
            Status::Created => 201,
            Status::BadRequest => 400,
            Status::Conflict => 409,
            Status::InternalServerError => 500,
        }
    }
}

/// An answer of the service: a status and a text.
#[derive(Debug)]
pub struct Reply {
    pub status: Status,
    pub body: String,
}

/// An answer as plain values.
pub struct ReplyView {
    pub status: Status,
    pub body: Seq<char>,
}

impl View for Reply {
    type V = ReplyView;

    open spec fn view(&self) -> ReplyView {
        ReplyView { status: self.status, body: self.body@ }
    }
}

/// The answer with the given status and text.
pub open spec fn reply_of(status: Status, body: Seq<char>) -> ReplyView {
    ReplyView { status, body }
}

impl Reply {
    /// The answer with the given status and text.
    pub fn new(status: Status, body: &str) -> (reply: Reply)
        ensures
            reply@ == reply_of(status, body@),
    {
        Reply { status, body: String::from_str(body) }
    }
}

/// What the store said when asked for one record.
#[derive(Debug)]
pub enum Lookup<T> {
    Found(T),
    Missing,
    /// The store reported an error.
    QueryFailed,
    /// The task that asks the store did not finish.
    TaskFailed,
}

/// What the store said when asked to insert, change or delete.
#[derive(Clone, Copy, Debug, PartialEq, Eq, Structural)]
pub enum Written {
    /// The number of rows that were inserted, changed or deleted.
    Rows(usize),
    /// The store refused a second record under a key that is unique.
    Duplicate,
    QueryFailed,
    TaskFailed,
}

/// What the store said when asked for a list of records.
#[derive(Debug)]
pub enum Loaded<T> {
    Rows(Vec<T>),
    QueryFailed,
    TaskFailed,
}

/// What a list request is answered with when the store was asked: the rows
/// under the status `Success`, or no rows under `InternalServerError`.
pub fn list_reply<T>(loaded: Loaded<T>) -> (reply: (Status, Vec<T>))
    ensures
        match loaded {
            Loaded::Rows(rows) => reply.0 == Status::Success && reply.1 == rows,
            _ => reply.0 == Status::InternalServerError && reply.1@.len() == 0,
        },
{
    match loaded {
        Loaded::Rows(rows) => (Status::Success, rows),
        _ => (Status::InternalServerError, Vec::new()),
    }
}

} // verus!
