//! What the service decides when transactions are added, deleted and
//! listed.

use vstd::prelude::*;
use vstd::string::*;
use crate::decimal::{i32_notation, parse_i32};
use crate::records::{
    Account, Category, ClientTransaction, NewTransaction, NewTransactionView, Transaction, User,
};
use crate::report::records::notes_view;
use crate::service::status::{list_reply, reply_of, Loaded, Lookup, Reply, ReplyView, Status, Written};
use crate::text::{i32_text, integer_text};

verus! {

/// Whether there is a user with the email that was looked up: the status,
/// and the email of the user or the text of the refusal.
pub fn check_email_valid(found: Lookup<User>) -> (checked: (Status, String))
    ensures
        checked.0 == lookup_status(found),
        checked.1@ == match found {
            Lookup::Found(user) => user.email@,
            Lookup::Missing => "No user found for the provided email"@,
            Lookup::QueryFailed => "Database error"@,
            Lookup::TaskFailed => "Internal server error"@,
        },
{
    match found {
        Lookup::Found(user) => (Status::Success, user.email),
        Lookup::Missing => (
            Status::BadRequest,
            String::from_str("No user found for the provided email"),
        ),
        Lookup::QueryFailed => (Status::InternalServerError, String::from_str("Database error")),
        Lookup::TaskFailed => (
            Status::InternalServerError,
            String::from_str("Internal server error"),
        ),
    }
}

/// The status of a lookup: success where the record is there, a bad request
/// where it is missing, an internal error where the store failed.
pub open spec fn lookup_status<T>(found: Lookup<T>) -> Status {
    match found {
        Lookup::Found(_) => Status::Success,
        Lookup::Missing => Status::BadRequest,
        _ => Status::InternalServerError,
    }
}

/// Whether the user has a category with the name that was looked up: the
/// status, and the id of the category or zero.
pub fn check_category_name(found: Lookup<Category>) -> (checked: (Status, i32))
    ensures
        checked.0 == lookup_status(found),
        checked.1 == match found {
            Lookup::Found(category) => category.category_id,
            _ => 0,
        },
{
    match found {
        Lookup::Found(category) => (Status::Success, category.category_id),
        Lookup::Missing => (Status::BadRequest, 0),
        _ => (Status::InternalServerError, 0),
    }
}

/// Whether the user has an account with the name that was looked up: the
/// status, and the id of the account or zero.
pub fn check_account_name(found: Lookup<Account>) -> (checked: (Status, i32))
    ensures
        checked.0 == lookup_status(found),
        checked.1 == match found {
            Lookup::Found(account) => account.account_id,
            _ => 0,
        },
{
    match found {
        Lookup::Found(account) => (Status::Success, account.account_id),
        Lookup::Missing => (Status::BadRequest, 0),
        _ => (Status::InternalServerError, 0),
    }
}

/// What comes next while a transaction is added or deleted.
#[derive(Debug)]
pub enum TransactionStep {
    /// Ask the store for the user with the request's email.
    FindUser,
    /// Ask the store for the category of that user with the request's
    /// category name.
    FindCategory,
    /// Ask the store for the account of that user with the request's
    /// account name; the category has this id.
    FindAccount(i32),
    /// Ask the store to insert this transaction.
    Insert(NewTransaction),
    /// Ask the store for the transaction with this id.
    FindTransaction(i32),
    /// Ask the store to delete the transaction with this id.
    Delete(i32),
    /// The id of the request is no number: the request cannot be served.
    Malformed,
    /// Answer the request.
    Answer(Reply),
}

/// A step as plain values.
pub enum TransactionStepView {
    FindUser,
    FindCategory,
    FindAccount(i32),
    Insert(NewTransactionView),
    FindTransaction(i32),
    Delete(i32),
    Malformed,
    Answer(ReplyView),
}

impl View for TransactionStep {
    type V = TransactionStepView;

    open spec fn view(&self) -> TransactionStepView {
        match self {
            TransactionStep::FindUser => TransactionStepView::FindUser,
            TransactionStep::FindCategory => TransactionStepView::FindCategory,
            TransactionStep::FindAccount(id) => TransactionStepView::FindAccount(*id),
            TransactionStep::Insert(transaction) => TransactionStepView::Insert(transaction@),
            TransactionStep::FindTransaction(id) => TransactionStepView::FindTransaction(*id),
            TransactionStep::Delete(id) => TransactionStepView::Delete(*id),
            TransactionStep::Malformed => TransactionStepView::Malformed,
            TransactionStep::Answer(reply) => TransactionStepView::Answer(reply@),
        }
    }
}

/// The answer with the given status and text, as a step.
pub open spec fn answer(status: Status, body: Seq<char>) -> TransactionStepView {
    TransactionStepView::Answer(reply_of(status, body))
}

/// The first step of adding a transaction: a request without email is
/// refused, for any other the user is looked up.
pub fn handle_add_transaction(new_trans: &ClientTransaction) -> (step: TransactionStep)
    ensures
        step@ == if new_trans.email@.len() == 0 {
            answer(Status::BadRequest, "Invalid input"@)
        } else {
            TransactionStepView::FindUser
        },
{
    if new_trans.email.as_str().is_empty() {
        TransactionStep::Answer(Reply::new(Status::BadRequest, "Invalid input"))
    } else {
        TransactionStep::FindUser
    }
}

/// The step after the user was looked up: for a user that is there the
/// category is looked up, unless the request names none.
pub fn add_user_checked(new_trans: &ClientTransaction, found: Lookup<User>) -> (step:
    TransactionStep)
    ensures
        step@ == if !(found is Found) {
            answer(Status::BadRequest, "No user found for the provided email"@)
        } else if new_trans.category_name@.len() == 0 {
            answer(Status::BadRequest, "No category found for the provided email"@)
        } else {
            TransactionStepView::FindCategory
        },
{
    let (status, _) = check_email_valid(found);
    if status != Status::Success {
        TransactionStep::Answer(
            Reply::new(Status::BadRequest, "No user found for the provided email"),
        )
    } else if new_trans.category_name.as_str().is_empty() {
        TransactionStep::Answer(
            Reply::new(Status::BadRequest, "No category found for the provided email"),
        )
    } else {
        TransactionStep::FindCategory
    }
}

/// The step after the category was looked up: for a category that is there
/// the account is looked up.
pub fn add_category_checked(found: Lookup<Category>) -> (step: TransactionStep)
    ensures
        step@ == match found {
            Lookup::Found(category) => TransactionStepView::FindAccount(category.category_id),
            _ => answer(Status::BadRequest, "No category found for the provided email"@),
        },
{
    let (status, category_id) = check_category_name(found);
    if status != Status::Success {
        TransactionStep::Answer(
            Reply::new(Status::BadRequest, "No category found for the provided email"),
        )
    } else {
        TransactionStep::FindAccount(category_id)
    }
}

/// The step after the account was looked up: for an account that is there
/// the transaction is stored under the ids of category and account, dated
/// `now`.
pub fn add_account_checked(
    new_trans: ClientTransaction,
    category_id: i32,
    found: Lookup<Account>,
    now: String,
) -> (step: TransactionStep)
    ensures
        step@ == match found {
            Lookup::Found(account) => TransactionStepView::Insert(
                NewTransactionView {
                    email: new_trans.email@,
                    category_id,
                    amount: new_trans.amount.cents as int,
                    notes: notes_view(new_trans.notes),
                    account_id: account.account_id,
                    transaction_date: now@,
                },
            ),
            _ => answer(Status::BadRequest, "No account found for the provided email"@),
        },
{
    let (status, account_id) = check_account_name(found);
    if status != Status::Success {
        TransactionStep::Answer(
            Reply::new(Status::BadRequest, "No account found for the provided email"),
        )
    } else {
        TransactionStep::Insert(
            NewTransaction {
                email: new_trans.email,
                category_id,
                amount: new_trans.amount,
                notes: new_trans.notes,
                account_id,
                transaction_date: now,
            },
        )
    }
}

/// The answer after the store was asked to insert the transaction and to
/// hand out the ids it gave: the first id, in decimal notation.
pub fn transaction_inserted(ids: Loaded<i32>) -> (reply: Reply)
    ensures
        reply@ == match ids {
            Loaded::Rows(ids) => if ids@.len() > 0 {
                reply_of(Status::Created, integer_text(ids@[0] as int))
            } else {
                reply_of(Status::InternalServerError, "Database error"@)
            },
            _ => reply_of(Status::InternalServerError, "Database error"@),
        },
{
    match ids {
        Loaded::Rows(ids) => {
            if ids.len() > 0 {
                Reply { status: Status::Created, body: i32_text(ids[0]) }
            } else {
                Reply::new(Status::InternalServerError, "Database error")
            }
        },
        _ => Reply::new(Status::InternalServerError, "Database error"),
    }
}

/// The first step of deleting a transaction: a request without id is
/// refused, for an id that is a number the transaction is looked up.
pub fn handle_delete_transaction(tx_id: &str) -> (step: TransactionStep)
    ensures
        step@ == if tx_id@.len() == 0 {
            answer(Status::BadRequest, "Invalid input"@)
        } else {
            match i32_notation(tx_id@) {
                Some(id) => TransactionStepView::FindTransaction(id),
                None => TransactionStepView::Malformed,
            }
        },
{
    if tx_id.is_empty() {
        TransactionStep::Answer(Reply::new(Status::BadRequest, "Invalid input"))
    } else {
        match parse_i32(tx_id) {
            Some(id) => TransactionStep::FindTransaction(id),
            None => TransactionStep::Malformed,
        }
    }
}

/// The step after the transaction to delete was looked up: a transaction
/// that is there is deleted.
pub fn delete_transaction_found(id: i32, found: Lookup<Transaction>) -> (step: TransactionStep)
    ensures
        step@ == match found {
            Lookup::Found(_) => TransactionStepView::Delete(id),
            Lookup::Missing => answer(
                Status::BadRequest,
                "No transaction found for the provided ID"@,
            ),
            Lookup::QueryFailed => answer(Status::InternalServerError, "Database error"@),
            Lookup::TaskFailed => answer(Status::InternalServerError, "Internal server error"@),
        },
{
    match found {
        Lookup::Found(_) => TransactionStep::Delete(id),
        Lookup::Missing => TransactionStep::Answer(
            Reply::new(Status::BadRequest, "No transaction found for the provided ID"),
        ),
        Lookup::QueryFailed => TransactionStep::Answer(
            Reply::new(Status::InternalServerError, "Database error"),
        ),
        Lookup::TaskFailed => TransactionStep::Answer(
            Reply::new(Status::InternalServerError, "Internal server error"),
        ),
    }
}

/// The answer after the store was asked to delete the transaction: success
/// if a row went.
pub fn transaction_deleted(written: Written) -> (reply: Reply)
    ensures
        reply@ == match written {
            Written::Rows(rows) => if rows > 0 {
                reply_of(Status::Success, "Transaction successfully deleted"@)
            } else {
                reply_of(Status::InternalServerError, "Failed to delete the transaction"@)
            },
            Written::TaskFailed => reply_of(Status::InternalServerError, "Internal server error"@),
            _ => reply_of(Status::InternalServerError, "Database error during deletion"@),
        },
{
    match written {
        Written::Rows(rows) => {
            if rows > 0 {
                Reply::new(Status::Success, "Transaction successfully deleted")
            } else {
                Reply::new(Status::InternalServerError, "Failed to delete the transaction")
            }
        },
        Written::TaskFailed => Reply::new(Status::InternalServerError, "Internal server error"),
        _ => Reply::new(Status::InternalServerError, "Database error during deletion"),
    }
}

/// What comes next while the transactions of a category or of an account
/// are listed.
#[derive(Clone, Copy, Debug, PartialEq, Eq, Structural)]
pub enum ListStep {
    /// Ask the store for the category or the account of the user with the
    /// request's name.
    FindOwner,
    /// Ask the store for the transactions of the category or the account
    /// with this id.
    Load(i32),
    /// Answer the request with this status and no transactions.
    Refuse(Status),
}

/// The first step of listing the transactions of a category, after the user
/// was looked up: for a user that is there the category is looked up,
/// unless the request names none.
pub fn handle_category_summary(category_name: &str, user: Lookup<User>) -> (step: ListStep)
    ensures
        step == if user is Found && category_name@.len() > 0 {
            ListStep::FindOwner
        } else {
            ListStep::Refuse(Status::BadRequest)
        },
{
    let (status, _) = check_email_valid(user);
    if status != Status::Success || category_name.is_empty() {
        ListStep::Refuse(Status::BadRequest)
    } else {
        ListStep::FindOwner
    }
}

/// The step after the category was looked up: the transactions of a
/// category that is there are loaded.
pub fn category_summary_found(found: Lookup<Category>) -> (step: ListStep)
    ensures
        step == match found {
            Lookup::Found(category) => ListStep::Load(category.category_id),
            _ => ListStep::Refuse(Status::BadRequest),
        },
{
    let (status, category_id) = check_category_name(found);
    if status != Status::Success {
        ListStep::Refuse(Status::BadRequest)
    } else {
        ListStep::Load(category_id)
    }
}

/// The first step of listing the transactions of an account, after the
/// user was looked up: for a user that is there the account is looked up.
pub fn handle_account_summary(user: Lookup<User>) -> (step: ListStep)
    ensures
        step == if user is Found {
            ListStep::FindOwner
        } else {
            ListStep::Refuse(Status::BadRequest)
        },
{
    let (status, _) = check_email_valid(user);
    if status != Status::Success {
        ListStep::Refuse(Status::BadRequest)
    } else {
        ListStep::FindOwner
    }
}

/// The step after the account was looked up: the transactions of an account
/// that is there are loaded.
pub fn account_summary_found(found: Lookup<Account>) -> (step: ListStep)
    ensures
        step == match found {
            Lookup::Found(account) => ListStep::Load(account.account_id),
            _ => ListStep::Refuse(Status::BadRequest),
        },
{
    let (status, account_id) = check_account_name(found);
    if status != Status::Success {
        ListStep::Refuse(Status::BadRequest)
    } else {
        ListStep::Load(account_id)
    }
}

/// What a request for transactions is answered with after the store was
/// asked for them.
pub fn transactions_loaded(loaded: Loaded<Transaction>) -> (reply: (Status, Vec<Transaction>))
    ensures
        match loaded {
            Loaded::Rows(rows) => reply.0 == Status::Success && reply.1 == rows,
            _ => reply.0 == Status::InternalServerError && reply.1@.len() == 0,
        },
{
    list_reply(loaded)
}

} // verus!
