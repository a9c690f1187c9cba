//! What the service decides when accounts are created, listed and deleted.

use vstd::prelude::*;
use vstd::string::*;
use crate::records::{Account, NewAccount, User};
use crate::service::status::{list_reply, reply_of, Loaded, Lookup, Reply, ReplyView, Status, Written};
use crate::text::joined;

verus! {

/// What comes next while an account is deleted or created.
#[derive(Debug)]
pub enum AccountStep {
    /// Ask the store for the user with the request's email.
    FindUser,
    /// Ask the store for the account of that user with the request's name.
    FindAccount,
    /// Ask the store to delete the account with this id.
    Delete(i32),
    /// Ask the store to insert the request's account.
    Insert,
    /// Answer the request.
    Answer(Reply),
}

/// A step as plain values.
pub enum AccountStepView {
    FindUser,
    FindAccount,
    Delete(i32),
    Insert,
    Answer(ReplyView),
}

impl View for AccountStep {
    type V = AccountStepView;

    open spec fn view(&self) -> AccountStepView {
        match self {
            AccountStep::FindUser => AccountStepView::FindUser,
            AccountStep::FindAccount => AccountStepView::FindAccount,
            AccountStep::Delete(id) => AccountStepView::Delete(*id),
            AccountStep::Insert => AccountStepView::Insert,
            AccountStep::Answer(reply) => AccountStepView::Answer(reply@),
        }
    }
}

/// The answer with the given status and text, as a step.
pub open spec fn answer(status: Status, body: Seq<char>) -> AccountStepView {
    AccountStepView::Answer(reply_of(status, body))
}

/// The first step of deleting an account: a request without email or
/// without account name is refused, for any other the user is looked up.
pub fn handle_delete_account(email: &str, account_name: &str) -> (step: AccountStep)
    ensures
        step@ == if email@.len() == 0 || account_name@.len() == 0 {
            answer(Status::BadRequest, "Invalid input"@)
        } else {
            AccountStepView::FindUser
        },
{
    if email.is_empty() || account_name.is_empty() {
        AccountStep::Answer(Reply::new(Status::BadRequest, "Invalid input"))
    } else {
        AccountStep::FindUser
    }
}

/// The step after the user was looked up, for deleting and for creating: a
/// user that is there lets the account be looked up.
pub fn account_user_checked(found: Lookup<User>) -> (step: AccountStep)
    ensures
        step@ == match found {
            Lookup::Found(_) => AccountStepView::FindAccount,
            Lookup::Missing => answer(Status::BadRequest, "No user found for the provided email"@),
            Lookup::QueryFailed => answer(Status::InternalServerError, "Database error"@),
            Lookup::TaskFailed => answer(Status::InternalServerError, "Internal server error"@),
        },
{
    match found {
        Lookup::Found(_) => AccountStep::FindAccount,
        Lookup::Missing => AccountStep::Answer(
            Reply::new(Status::BadRequest, "No user found for the provided email"),
        ),
        Lookup::QueryFailed => AccountStep::Answer(
            Reply::new(Status::InternalServerError, "Database error"),
        ),
        Lookup::TaskFailed => AccountStep::Answer(
            Reply::new(Status::InternalServerError, "Internal server error"),
        ),
    }
}

/// The step after the account to delete was looked up: an account that is
/// there is deleted by its id.
pub fn delete_account_found(found: Lookup<Account>) -> (step: AccountStep)
    ensures
        step@ == match found {
            Lookup::Found(account) => AccountStepView::Delete(account.account_id),
            Lookup::Missing => answer(
                Status::BadRequest,
                "No such account found for the provided email"@,
            ),
            Lookup::QueryFailed => answer(Status::InternalServerError, "Database error"@),
            Lookup::TaskFailed => answer(Status::InternalServerError, "Internal server error"@),
        },
{
    match found {
        Lookup::Found(account) => AccountStep::Delete(account.account_id),
        Lookup::Missing => AccountStep::Answer(
            Reply::new(Status::BadRequest, "No such account found for the provided email"),
        ),
        Lookup::QueryFailed => AccountStep::Answer(
            Reply::new(Status::InternalServerError, "Database error"),
        ),
        Lookup::TaskFailed => AccountStep::Answer(
            Reply::new(Status::InternalServerError, "Internal server error"),
        ),
    }
}

/// The answer after the store was asked to delete the account: success if
/// a row went.
pub fn account_deleted(written: Written) -> (reply: Reply)
    ensures
        reply@ == match written {
            Written::Rows(rows) => if rows > 0 {
                reply_of(Status::Success, "Account successfully deleted"@)
            } else {
                reply_of(Status::InternalServerError, "Failed to delete the account"@)
            },
            Written::TaskFailed => reply_of(Status::InternalServerError, "Internal server error"@),
            _ => reply_of(Status::InternalServerError, "Database error during deletion"@),
        },
{
    match written {
        Written::Rows(rows) => {
            if rows > 0 {
                Reply::new(Status::Success, "Account successfully deleted")
            } else {
                Reply::new(Status::InternalServerError, "Failed to delete the account")
            }
        },
        Written::TaskFailed => Reply::new(Status::InternalServerError, "Internal server error"),
        _ => Reply::new(Status::InternalServerError, "Database error during deletion"),
    }
}

/// What a request for the accounts of a user is answered with before the
/// store is asked: a request without email is refused.
pub fn handle_account_summary(email: &str) -> (refused: Option<Status>)
    ensures
        refused == if email@.len() == 0 {
            Some(Status::BadRequest)
        } else {
            None
        },
{
    if email.is_empty() {
        Some(Status::BadRequest)
    } else {
        None
    }
}

/// What a request for the accounts of a user is answered with after the
/// store was asked.
pub fn account_summary_loaded(loaded: Loaded<Account>) -> (reply: (Status, Vec<Account>))
    ensures
        match loaded {
            Loaded::Rows(rows) => reply.0 == Status::Success && reply.1 == rows,
            _ => reply.0 == Status::InternalServerError && reply.1@.len() == 0,
        },
{
    list_reply(loaded)
}

/// The first step of creating an account: a request with an empty field is
/// refused, for any other the user is looked up.
pub fn handle_account_create(new_acc: &NewAccount) -> (step: AccountStep)
    ensures
        step@ == if new_acc.email@.len() == 0 || new_acc.account_type@.len() == 0
            || new_acc.account_name@.len() == 0 {
            answer(Status::BadRequest, "Invalid input"@)
        } else {
            AccountStepView::FindUser
        },
{
    if new_acc.email.as_str().is_empty() || new_acc.account_type.as_str().is_empty()
        || new_acc.account_name.as_str().is_empty() {
        AccountStep::Answer(Reply::new(Status::BadRequest, "Invalid input"))
    } else {
        AccountStep::FindUser
    }
}

/// The step after the name of the account to create was looked up: only a
/// name that is not taken lets the account be inserted.
pub fn create_account_found(found: Lookup<Account>) -> (step: AccountStep)
    ensures
        step@ == match found {
            Lookup::Found(_) => answer(Status::BadRequest, "Failed to create new account"@),
            Lookup::Missing => AccountStepView::Insert,
            Lookup::QueryFailed => answer(Status::InternalServerError, "Database error"@),
            Lookup::TaskFailed => answer(Status::InternalServerError, "Internal server error"@),
        },
{
    match found {
        Lookup::Found(_) => AccountStep::Answer(
            Reply::new(Status::BadRequest, "Failed to create new account"),
        ),
        Lookup::Missing => AccountStep::Insert,
        Lookup::QueryFailed => AccountStep::Answer(
            Reply::new(Status::InternalServerError, "Database error"),
        ),
        Lookup::TaskFailed => AccountStep::Answer(
            Reply::new(Status::InternalServerError, "Internal server error"),
        ),
    }
}

/// The answer after the store was asked to insert the account.
pub fn account_inserted(new_acc: &NewAccount, written: Written) -> (reply: Reply)
    ensures
        reply@ == match written {
            Written::Rows(_) => reply_of(
                Status::Created,
                "Successfully created "@ + new_acc.account_name@,
            ),
            Written::TaskFailed => reply_of(Status::InternalServerError, "Internal server error"@),
            _ => reply_of(Status::InternalServerError, "Database error"@),
        },
{
    match written {
        Written::Rows(_) => Reply {
            status: Status::Created,
            body: joined("Successfully created ", new_acc.account_name.as_str()),
        },
        Written::TaskFailed => Reply::new(Status::InternalServerError, "Internal server error"),
        _ => Reply::new(Status::InternalServerError, "Database error"),
    }
}

} // verus!
