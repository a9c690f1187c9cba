//! The page on which a user adds a transaction.

use vstd::prelude::*;
use vstd::string::*;
use crate::client::components::{
    empty_field, field_after, field_before, field_typed, next_field, previous_field, FormRequest,
    InputField, InputFieldView, Key,
};
use crate::client::http::Response;
use crate::client::login::{unknown_answer, unknown_answer_text};
use crate::decimal::money_notation;
use crate::money::Money;
use crate::records::ClientTransaction;
use crate::text::joined;

verus! {

/// The page for a new transaction.
#[derive(Debug)]
pub struct TransactionCreate {
    pub category_name: InputField,
    pub amount: InputField,
    pub account_name: InputField,
    pub notes: InputField,
    /// The field that takes the keys, counted from 0 in the order category,
    /// amount, account, notes.
    pub active_field: usize,
    pub response_message: String,
    /// The email of the user who is logged in.
    pub email: String,
}

/// The page as plain values.
pub struct TransactionCreateView {
    pub category_name: InputFieldView,
    pub amount: InputFieldView,
    pub account_name: InputFieldView,
    pub notes: InputFieldView,
    pub active_field: usize,
    pub response_message: Seq<char>,
    pub email: Seq<char>,
}

impl View for TransactionCreate {
    type V = TransactionCreateView;

    open spec fn view(&self) -> TransactionCreateView {
        TransactionCreateView {
            category_name: self.category_name@,
            amount: self.amount@,
            account_name: self.account_name@,
            notes: self.notes@,
            active_field: self.active_field,
            response_message: self.response_message@,
            email: self.email@,
        }
    }
}

/// The page after a key was typed into the active field.
pub open spec fn page_typed(page: TransactionCreateView, key: Key) -> TransactionCreateView {
    if page.active_field == 0 {
        TransactionCreateView { category_name: field_typed(page.category_name, key), ..page }
    } else if page.active_field == 1 {
        TransactionCreateView { amount: field_typed(page.amount, key), ..page }
    } else if page.active_field == 2 {
        TransactionCreateView { account_name: field_typed(page.account_name, key), ..page }
    } else if page.active_field == 3 {
        TransactionCreateView { notes: field_typed(page.notes, key), ..page }
    } else {
        page
    }
}

/// The page after a key press, and what it asks for.
pub open spec fn page_after(page: TransactionCreateView, key: Key) -> (
    TransactionCreateView,
    FormRequest,
) {
    match key {
        Key::Esc => (page, FormRequest::Leave),
        Key::Tab => (
            TransactionCreateView { active_field: field_after(page.active_field, 4), ..page },
            FormRequest::Nothing,
        ),
        Key::BackTab => (
            TransactionCreateView { active_field: field_before(page.active_field, 4), ..page },
            FormRequest::Nothing,
        ),
        Key::Enter => (page, FormRequest::Submit),
        _ => (page_typed(page, key), FormRequest::Nothing),
    }
}

/// The amount that was typed: what the text denotes, and nothing at all
/// where it denotes no amount.
pub open spec fn typed_amount(text: Seq<char>) -> Money {
    match money_notation(text) {
        Some(amount) => amount,
        None => Money { cents: 0 },
    }
}

/// The message after the service answered.
pub open spec fn create_message(response: Response, status_line: Seq<char>) -> Seq<char> {
    match response {
        Response::Answered { status, body } => if status == 201 {
            "Transaction successfully created!"@
        } else {
            unknown_answer(status_line, body@)
        },
        Response::Failed { error } => "Request failed: "@ + error@,
    }
}

impl TransactionCreate {
    /// The page of the user with the given email, its four fields empty.
    pub fn new(email: String) -> (page: TransactionCreate)
        ensures
            page@ == (TransactionCreateView {
                category_name: empty_field("Category Name"@, false),
                amount: empty_field("Amount"@, false),
                account_name: empty_field("Account Name"@, false),
                notes: empty_field("Notes"@, false),
                active_field: 0,
                response_message: Seq::empty(),
                email: email@,
            }),
    {
        TransactionCreate {
            category_name: InputField::new("Category Name", false),
            amount: InputField::new("Amount", false),
            account_name: InputField::new("Account Name", false),
            notes: InputField::new("Notes", false),
            active_field: 0,
            response_message: String::new(),
            email,
        }
    }

    /// Applies a key press to the page and says what to do.
    pub fn handle_input(&mut self, key: Key) -> (request: FormRequest)
        ensures
            (final(self)@, request) == page_after(old(self)@, key),
    {
        match key {
            Key::Esc => FormRequest::Leave,
            Key::Tab => {
                self.active_field = next_field(self.active_field, 4);
                FormRequest::Nothing
            },
            Key::BackTab => {
                self.active_field = previous_field(self.active_field, 4);
                FormRequest::Nothing
            },
            Key::Enter => FormRequest::Submit,
            _ => {
                if self.active_field == 0 {
                    self.category_name.handle_input(key);
                } else if self.active_field == 1 {
                    self.amount.handle_input(key);
                } else if self.active_field == 2 {
                    self.account_name.handle_input(key);
                } else if self.active_field == 3 {
                    self.notes.handle_input(key);
                }
                FormRequest::Nothing
            },
        }
    }

    /// What the page sends to the service: the contents of its fields, with
    /// the amount read from its text.
    pub fn submit(&self) -> (data: ClientTransaction)
        ensures
            data.email@ == self@.email,
            data.category_name@ == self@.category_name.content,
            data.amount == typed_amount(self@.amount.content),
            data.notes matches Some(notes) && notes@ == self@.notes.content,
            data.account_name@ == self@.account_name.content,
    {
        let amount = match Money::parse(self.amount.content.as_str()) {
            Some(amount) => amount,
            None => Money { cents: 0 },
        };
        ClientTransaction {
            email: self.email.clone(),
            category_name: self.category_name.content.clone(),
            amount,
            notes: Some(self.notes.content.clone()),
            account_name: self.account_name.content.clone(),
        }
    }

    /// Takes in what the service answered, and says whether the transaction
    /// is stored: after status 201. `status_line` is the status of the
    /// answer as the wire words it.
    pub fn answered(&mut self, response: Response, status_line: &str) -> (stored: bool)
        ensures
            stored == (response matches Response::Answered { status, .. } && status == 201),
            final(self)@ == (TransactionCreateView {
                response_message: create_message(response, status_line@),
                ..old(self)@
            }),
    {
        match response {
            Response::Answered { status, body } => {
                if status == 201 {
                    self.response_message = String::from_str("Transaction successfully created!");
                    true
                } else {
                    self.response_message = unknown_answer_text(status_line, body.as_str());
                    false
                }
            },
            Response::Failed { error } => {
                self.response_message = joined("Request failed: ", error.as_str());
                false
            },
        }
    }
}

} // verus!
