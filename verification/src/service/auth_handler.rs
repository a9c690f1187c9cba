//! What the service decides when a user signs up or logs in.

use vstd::prelude::*;
use vstd::string::*;
use crate::records::{NewUser, User};
use crate::service::status::{reply_of, Lookup, Reply, ReplyView, Status, Written};

verus! {

/// What comes next while a user signs up.
#[derive(Debug)]
pub enum SignupStep {
    /// Ask the store for the user with the request's email.
    FindUser,
    /// Ask the store to insert the request's user.
    Insert,
    /// Answer the request.
    Answer(Reply),
}

/// A step as plain values.
pub enum SignupStepView {
    FindUser,
    Insert,
    Answer(ReplyView),
}

impl View for SignupStep {
    type V = SignupStepView;

    open spec fn view(&self) -> SignupStepView {
        match self {
            SignupStep::FindUser => SignupStepView::FindUser,
            SignupStep::Insert => SignupStepView::Insert,
            SignupStep::Answer(reply) => SignupStepView::Answer(reply@),
        }
    }
}

/// The first step of signing up: a request without email or without
/// password is refused, for any other the email is looked up.
pub fn handle_signup(user: &NewUser) -> (step: SignupStep)
    ensures
        step@ == if user.email@.len() == 0 || user.password@.len() == 0 {
            SignupStepView::Answer(reply_of(Status::BadRequest, "Invalid input"@))
        } else {
            SignupStepView::FindUser
        },
{
    if user.email.as_str().is_empty() || user.password.as_str().is_empty() {
        SignupStep::Answer(Reply::new(Status::BadRequest, "Invalid input"))
    } else {
        SignupStep::FindUser
    }
}

/// The step after the email was looked up. An email that is registered
/// makes the request a login: it succeeds, greeting the registered user by
/// name, if the passwords are the same. An email that is not registered
/// lets the user be inserted.
pub fn signup_user_checked(user: &NewUser, found: Lookup<User>) -> (step: SignupStep)
    ensures
        step@ == match found {
            Lookup::Found(existing) => if existing.password@ == user.password@ {
                SignupStepView::Answer(
                    reply_of(Status::Success, existing.username@ + " Login successful"@),
                )
            } else {
                SignupStepView::Answer(reply_of(Status::BadRequest, "Invalid password"@))
            },
            Lookup::Missing => SignupStepView::Insert,
            Lookup::QueryFailed => SignupStepView::Answer(
                reply_of(Status::InternalServerError, "Database error"@),
            ),
            Lookup::TaskFailed => SignupStepView::Answer(
                reply_of(Status::InternalServerError, "Internal server error"@),
            ),
        },
{
    match found {
        Lookup::Found(existing) => {
            if existing.password == user.password {
                let mut body = existing.username;
                body.append(" Login successful");
                SignupStep::Answer(Reply { status: Status::Success, body })
            } else {
                SignupStep::Answer(Reply::new(Status::BadRequest, "Invalid password"))
            }
        },
        Lookup::Missing => SignupStep::Insert,
        Lookup::QueryFailed => SignupStep::Answer(
            Reply::new(Status::InternalServerError, "Database error"),
        ),
        Lookup::TaskFailed => SignupStep::Answer(
            Reply::new(Status::InternalServerError, "Internal server error"),
        ),
    }
}

/// The answer after the store was asked to insert the user.
pub fn signup_inserted(written: Written) -> (reply: Reply)
    ensures
        reply@ == match written {
            Written::Rows(_) => reply_of(Status::Created, "User successfully registered"@),
            Written::Duplicate => reply_of(Status::Conflict, "Email already registered"@),
            Written::QueryFailed => reply_of(
                Status::InternalServerError,
                "Failed to register user"@,
            ),
            Written::TaskFailed => reply_of(Status::InternalServerError, "Internal server error"@),
        },
{
    match written {
        Written::Rows(_) => Reply::new(Status::Created, "User successfully registered"),
        Written::Duplicate => Reply::new(Status::Conflict, "Email already registered"),
        Written::QueryFailed => Reply::new(Status::InternalServerError, "Failed to register user"),
        Written::TaskFailed => Reply::new(Status::InternalServerError, "Internal server error"),
    }
}

} // verus!
