//! What the service decides when categories are created, listed, changed
//! and deleted.

use vstd::prelude::*;
use vstd::string::*;
use crate::decimal::money_notation;
use crate::money::Money;
use crate::records::{Category, NewCategory, User};
use crate::service::status::{list_reply, reply_of, Loaded, Lookup, Reply, ReplyView, Status, Written};
use crate::text::{joined, same_text};

verus! {

/// The fields of a category that a request can change.
#[derive(Clone, Copy, Debug, PartialEq, Eq, Structural)]
pub enum ValidCategoryFields {
    Name,
    Type,
    Budget,
    Freq,
}

/// The field that a name denotes, if any.
pub open spec fn field_named(name: Seq<char>) -> Option<ValidCategoryFields> {
    if name == "nickname"@ {
        Some(ValidCategoryFields::Name)
    } else if name == "category_type"@ {
        Some(ValidCategoryFields::Type)
    } else if name == "budget"@ {
        Some(ValidCategoryFields::Budget)
    } else if name == "budget_freq"@ {
        Some(ValidCategoryFields::Freq)
    } else {
        None
    }
}

impl ValidCategoryFields {
    /// Reads a field from its name.
    pub fn from_str(input: &str) -> (field: Result<ValidCategoryFields, ()>)
        ensures
            match field {
                Ok(field) => field_named(input@) == Some(field),
                Err(_) => field_named(input@) is None,
            },
    {
        if same_text(input, "nickname") {
            Ok(ValidCategoryFields::Name)
        } else if same_text(input, "category_type") {
            Ok(ValidCategoryFields::Type)
        } else if same_text(input, "budget") {
            Ok(ValidCategoryFields::Budget)
        } else if same_text(input, "budget_freq") {
            Ok(ValidCategoryFields::Freq)
        } else {
            Err(())
        }
    }
}

/// What comes next while a category is created, changed or deleted.
#[derive(Debug)]
pub enum CategoryStep {
    /// Ask the store for the user with the request's email.
    FindUser,
    /// Ask the store for the category of that user with the request's
    /// nickname.
    FindCategory,
    /// Ask the store to delete the category with this id.
    Delete(i32),
    /// Ask the store to insert the request's category.
    Insert,
    /// Ask the store to set this field of the category to the request's
    /// new value.
    Update(ValidCategoryFields),
    /// Answer the request.
    Answer(Reply),
}

/// A step as plain values.
pub enum CategoryStepView {
    FindUser,
    FindCategory,
    Delete(i32),
    Insert,
    Update(ValidCategoryFields),
    Answer(ReplyView),
}

impl View for CategoryStep {
    type V = CategoryStepView;

    open spec fn view(&self) -> CategoryStepView {
        match self {
            CategoryStep::FindUser => CategoryStepView::FindUser,
            CategoryStep::FindCategory => CategoryStepView::FindCategory,
            CategoryStep::Delete(id) => CategoryStepView::Delete(*id),
            CategoryStep::Insert => CategoryStepView::Insert,
            CategoryStep::Update(field) => CategoryStepView::Update(*field),
            CategoryStep::Answer(reply) => CategoryStepView::Answer(reply@),
        }
    }
}

/// The answer with the given status and text, as a step.
pub open spec fn answer(status: Status, body: Seq<char>) -> CategoryStepView {
    CategoryStepView::Answer(reply_of(status, body))
}

/// The answer to a lookup that did not come to an end, as a step; `None`
/// where it did.
pub open spec fn lookup_failure<T>(found: Lookup<T>) -> Option<CategoryStepView> {
    match found {
        Lookup::QueryFailed => Some(answer(Status::InternalServerError, "Database error"@)),
        Lookup::TaskFailed => Some(answer(Status::InternalServerError, "Internal server error"@)),
        _ => None,
    }
}

/// The answer to a lookup that did not come to an end.
fn failed_lookup(task_failed: bool) -> (step: CategoryStep)
    ensures
        step@ == if task_failed {
            answer(Status::InternalServerError, "Internal server error"@)
        } else {
            answer(Status::InternalServerError, "Database error"@)
        },
{
    if task_failed {
        CategoryStep::Answer(Reply::new(Status::InternalServerError, "Internal server error"))
    } else {
        CategoryStep::Answer(Reply::new(Status::InternalServerError, "Database error"))
    }
}

/// The first step of creating a category: a request with an empty field is
/// refused, for any other the user is looked up.
pub fn handle_category_create(new_cat: &NewCategory) -> (step: CategoryStep)
    ensures
        step@ == if new_cat.email@.len() == 0 || new_cat.category_type@.len() == 0
            || new_cat.nickname@.len() == 0 || new_cat.budget_freq@.len() == 0 {
            answer(Status::BadRequest, "Invalid input"@)
        } else {
            CategoryStepView::FindUser
        },
{
    if new_cat.email.as_str().is_empty() || new_cat.category_type.as_str().is_empty()
        || new_cat.nickname.as_str().is_empty() || new_cat.budget_freq.as_str().is_empty() {
        CategoryStep::Answer(Reply::new(Status::BadRequest, "Invalid input"))
    } else {
        CategoryStep::FindUser
    }
}

/// The step after the user was looked up, whatever is done to the
/// category: a user that is there lets the category be looked up.
pub fn category_user_checked(found: Lookup<User>) -> (step: CategoryStep)
    ensures
        step@ == match found {
            Lookup::Found(_) => CategoryStepView::FindCategory,
            Lookup::Missing => answer(Status::BadRequest, "No user found for the provided email"@),
            _ => lookup_failure(found)->0,
        },
{
    match found {
        Lookup::Found(_) => CategoryStep::FindCategory,
        Lookup::Missing => CategoryStep::Answer(
            Reply::new(Status::BadRequest, "No user found for the provided email"),
        ),
        Lookup::QueryFailed => failed_lookup(false),
        Lookup::TaskFailed => failed_lookup(true),
    }
}

/// The step after the nickname of the category to create was looked up:
/// only a nickname that is not taken lets the category be inserted.
pub fn create_category_found(found: Lookup<Category>) -> (step: CategoryStep)
    ensures
        step@ == match found {
            Lookup::Found(_) => answer(
                Status::BadRequest,
                "Failed to create new category: duplicate nicknames"@,
            ),
            Lookup::Missing => CategoryStepView::Insert,
            _ => lookup_failure(found)->0,
        },
{
    match found {
        Lookup::Found(_) => CategoryStep::Answer(
            Reply::new(Status::BadRequest, "Failed to create new category: duplicate nicknames"),
        ),
        Lookup::Missing => CategoryStep::Insert,
        Lookup::QueryFailed => failed_lookup(false),
        Lookup::TaskFailed => failed_lookup(true),
    }
}

/// The answer after the store was asked to insert the category.
pub fn category_inserted(new_cat: &NewCategory, written: Written) -> (reply: Reply)
    ensures
        reply@ == match written {
            Written::Rows(_) => reply_of(Status::Created, "Successfully created "@ + new_cat.nickname@),
            Written::TaskFailed => reply_of(Status::InternalServerError, "Internal server error"@),
            _ => reply_of(Status::InternalServerError, "Database error"@),
        },
{
    match written {
        Written::Rows(_) => Reply {
            status: Status::Created,
            body: joined("Successfully created ", new_cat.nickname.as_str()),
        },
        Written::TaskFailed => Reply::new(Status::InternalServerError, "Internal server error"),
        _ => Reply::new(Status::InternalServerError, "Database error"),
    }
}

/// The first step of deleting a category: a request without email or
/// without nickname is refused, for any other the user is looked up.
pub fn handle_delete_category(email: &str, category_nickname: &str) -> (step: CategoryStep)
    ensures
        step@ == if email@.len() == 0 || category_nickname@.len() == 0 {
            answer(Status::BadRequest, "Invalid input"@)
        } else {
            CategoryStepView::FindUser
        },
{
    if email.is_empty() || category_nickname.is_empty() {
        CategoryStep::Answer(Reply::new(Status::BadRequest, "Invalid input"))
    } else {
        CategoryStep::FindUser
    }
}

/// The step after the category to delete was looked up: a category that is
/// there is deleted by its id.
pub fn delete_category_found(found: Lookup<Category>) -> (step: CategoryStep)
    ensures
        step@ == match found {
            Lookup::Found(category) => CategoryStepView::Delete(category.category_id),
            Lookup::Missing => answer(
                Status::BadRequest,
                "No such category found for the provided email"@,
            ),
            _ => lookup_failure(found)->0,
        },
{
    match found {
        Lookup::Found(category) => CategoryStep::Delete(category.category_id),
        Lookup::Missing => CategoryStep::Answer(
            Reply::new(Status::BadRequest, "No such category found for the provided email"),
        ),
        Lookup::QueryFailed => failed_lookup(false),
        Lookup::TaskFailed => failed_lookup(true),
    }
}

/// The answer after the store was asked to delete the category: success if
/// a row went.
pub fn category_deleted(written: Written) -> (reply: Reply)
    ensures
        reply@ == match written {
            Written::Rows(rows) => if rows > 0 {
                reply_of(Status::Success, "Category successfully deleted"@)
            } else {
                reply_of(Status::InternalServerError, "Failed to delete the category"@)
            },
            Written::TaskFailed => reply_of(Status::InternalServerError, "Internal server error"@),
            _ => reply_of(Status::InternalServerError, "Database error during deletion"@),
        },
{
    match written {
        Written::Rows(rows) => {
            if rows > 0 {
                Reply::new(Status::Success, "Category successfully deleted")
            } else {
                Reply::new(Status::InternalServerError, "Failed to delete the category")
            }
        },
        Written::TaskFailed => Reply::new(Status::InternalServerError, "Internal server error"),
        _ => Reply::new(Status::InternalServerError, "Database error during deletion"),
    }
}

/// What a request for the categories of a user is answered with before the
/// store is asked: a request without email is refused.
pub fn handle_category_summary(email: &str) -> (refused: Option<Status>)
    ensures
        refused == if email@.len() == 0 {
            Some(Status::BadRequest)
        } else {
            None
        },
{
    if email.is_empty() {
        Some(Status::BadRequest)
    } else {
        None
    }
}

/// What a request for the categories of a user is answered with after the
/// store was asked.
pub fn category_summary_loaded(loaded: Loaded<Category>) -> (reply: (Status, Vec<Category>))
    ensures
        match loaded {
            Loaded::Rows(rows) => reply.0 == Status::Success && reply.1 == rows,
            _ => reply.0 == Status::InternalServerError && reply.1@.len() == 0,
        },
{
    list_reply(loaded)
}

/// The first step of changing a category: a request that names no field of
/// a category is refused, for any other the user is looked up.
pub fn handle_category_update(field: &str) -> (step: CategoryStep)
    ensures
        step@ == if field_named(field@) is Some {
            CategoryStepView::FindUser
        } else {
            answer(Status::BadRequest, "Invalid field specified."@)
        },
{
    match ValidCategoryFields::from_str(field) {
        Ok(_) => CategoryStep::FindUser,
        Err(_) => CategoryStep::Answer(Reply::new(Status::BadRequest, "Invalid field specified.")),
    }
}

/// The step after the category to change was looked up: in a category that
/// is there the field is set.
pub fn update_category_found(field: ValidCategoryFields, found: Lookup<Category>) -> (step:
    CategoryStep)
    ensures
        step@ == match found {
            Lookup::Found(_) => CategoryStepView::Update(field),
            Lookup::Missing => answer(
                Status::BadRequest,
                "Failed to update category: unable to match existing entry"@,
            ),
            _ => lookup_failure(found)->0,
        },
{
    match found {
        Lookup::Found(_) => CategoryStep::Update(field),
        Lookup::Missing => CategoryStep::Answer(
            Reply::new(
                Status::BadRequest,
                "Failed to update category: unable to match existing entry",
            ),
        ),
        Lookup::QueryFailed => failed_lookup(false),
        Lookup::TaskFailed => failed_lookup(true),
    }
}

/// The budget that a new value denotes, if it denotes one.
pub fn budget_value(new_value: &str) -> (budget: Option<Money>)
    ensures
        budget == money_notation(new_value@),
{
    Money::parse(new_value)
}

/// The text that reports a change.
pub open spec fn update_text(nickname: Seq<char>, field: Seq<char>, new_value: Seq<char>) -> Seq<
    char,
> {
    "Successfully updated category "@ + nickname + " field "@ + field + " to "@ + new_value
}

/// The answer after the store was asked to set the field.
pub fn category_updated(
    category_nickname: &str,
    field: &str,
    new_value: &str,
    written: Written,
) -> (reply: Reply)
    ensures
        reply@ == match written {
            Written::Rows(_) => reply_of(
                Status::Created,
                update_text(category_nickname@, field@, new_value@),
            ),
            Written::TaskFailed => reply_of(Status::InternalServerError, "Internal server error"@),
            _ => reply_of(Status::InternalServerError, "Database error"@),
        },
{
    match written {
        Written::Rows(_) => {
            let mut body = joined("Successfully updated category ", category_nickname);
            body.append(" field ");
            body.append(field);
            body.append(" to ");
            body.append(new_value);
            Reply { status: Status::Created, body }
        },
        Written::TaskFailed => Reply::new(Status::InternalServerError, "Internal server error"),
        _ => Reply::new(Status::InternalServerError, "Database error"),
    }
}

} // verus!
