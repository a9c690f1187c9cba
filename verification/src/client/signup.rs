//! The page on which a user signs up.

use vstd::prelude::*;
use vstd::string::*;
use crate::client::components::{
    empty_field, field_after, field_before, field_typed, next_field, previous_field, FormRequest,
    InputField, InputFieldView, Key,
};
use crate::client::http::Response;
use crate::client::login::{unknown_answer, unknown_answer_text};
use crate::records::NewUser;
use crate::text::{contains_text, joined, occurs_in};

verus! {

/// The signup page.
#[derive(Debug)]
pub struct SignupPage {
    pub username: InputField,
    pub email: InputField,
    pub password: InputField,
    pub confirm_password: InputField,
    /// The field that takes the keys, counted from 0 in the order user
    /// name, email, password, confirmation.
    pub active_field: usize,
    pub response_message: String,
}

/// The signup page as plain values.
pub struct SignupPageView {
    pub username: InputFieldView,
    pub email: InputFieldView,
    pub password: InputFieldView,
    pub confirm_password: InputFieldView,
    pub active_field: usize,
    pub response_message: Seq<char>,
}

impl View for SignupPage {
    type V = SignupPageView;

    open spec fn view(&self) -> SignupPageView {
        SignupPageView {
            username: self.username@,
            email: self.email@,
            password: self.password@,
            confirm_password: self.confirm_password@,
            active_field: self.active_field,
            response_message: self.response_message@,
        }
    }
}

/// The page after a key was typed into the active field.
pub open spec fn page_typed(page: SignupPageView, key: Key) -> SignupPageView {
    if page.active_field == 0 {
        SignupPageView { username: field_typed(page.username, key), ..page }
    } else if page.active_field == 1 {
        SignupPageView { email: field_typed(page.email, key), ..page }
    } else if page.active_field == 2 {
        SignupPageView { password: field_typed(page.password, key), ..page }
    } else if page.active_field == 3 {
        SignupPageView { confirm_password: field_typed(page.confirm_password, key), ..page }
    } else {
        page
    }
}

/// The page after a key press, and what it asks for. Escape does nothing
/// here: the page is left from outside. Enter sends the form if password
/// and confirmation are the same, and else leaves a message.
pub open spec fn page_after(page: SignupPageView, key: Key) -> (SignupPageView, FormRequest) {
    match key {
        Key::Esc => (page, FormRequest::Nothing),
        Key::Tab => (
            SignupPageView { active_field: field_after(page.active_field, 4), ..page },
            FormRequest::Nothing,
        ),
        Key::BackTab => (
            SignupPageView { active_field: field_before(page.active_field, 4), ..page },
            FormRequest::Nothing,
        ),
        Key::Enter => if page.password.content == page.confirm_password.content {
            (page, FormRequest::Submit)
        } else {
            (
                SignupPageView { response_message: "Passwords do not match"@, ..page },
                FormRequest::Nothing,
            )
        },
        _ => (page_typed(page, key), FormRequest::Nothing),
    }
}

/// The message after the service answered a signup.
pub open spec fn signup_message(response: Response, status_line: Seq<char>) -> Seq<char> {
    match response {
        Response::Answered { status, body } => if status == 201 {
            "Signup successful! Redirecting to login..."@
        } else if status == 200 && occurs_in(body@, "Login successful"@) {
            "Email already registered. Please try another one."@
        } else if status == 400 {
            "Failed to sign up. Please check your inputs."@
        } else {
            unknown_answer(status_line, body@)
        },
        Response::Failed { error } => "Request failed: "@ + error@,
    }
}

impl SignupPage {
    /// The page with its four fields empty.
    pub fn new() -> (page: SignupPage)
        ensures
            page@ == (SignupPageView {
                username: empty_field("Username"@, false),
                email: empty_field("Email"@, false),
                password: empty_field("Password"@, true),
                confirm_password: empty_field("Confirm Password"@, true),
                active_field: 0,
                response_message: Seq::empty(),
            }),
    {
        SignupPage {
            username: InputField::new("Username", false),
            email: InputField::new("Email", false),
            password: InputField::new("Password", true),
            confirm_password: InputField::new("Confirm Password", true),
            active_field: 0,
            response_message: String::new(),
        }
    }

    /// Applies a key press to the page and says what to do.
    pub fn handle_input(&mut self, key: Key) -> (request: FormRequest)
        ensures
            (final(self)@, request) == page_after(old(self)@, key),
    {
        match key {
            Key::Esc => FormRequest::Nothing,
            Key::Tab => {
                self.active_field = next_field(self.active_field, 4);
                FormRequest::Nothing
            },
            Key::BackTab => {
                self.active_field = previous_field(self.active_field, 4);
                FormRequest::Nothing
            },
            Key::Enter => {
                if self.password.content == self.confirm_password.content {
                    FormRequest::Submit
                } else {
                    self.response_message = String::from_str("Passwords do not match");
                    FormRequest::Nothing
                }
            },
            _ => {
                if self.active_field == 0 {
                    self.username.handle_input(key);
                } else if self.active_field == 1 {
                    self.email.handle_input(key);
                } else if self.active_field == 2 {
                    self.password.handle_input(key);
                } else if self.active_field == 3 {
                    self.confirm_password.handle_input(key);
                }
                FormRequest::Nothing
            },
        }
    }

    /// What the page sends to the service: the contents of its fields.
    pub fn submit(&self) -> (data: NewUser)
        ensures
            data.username@ == self@.username.content,
            data.email@ == self@.email.content,
            data.password@ == self@.password.content,
    {
        NewUser {
            username: self.username.content.clone(),
            email: self.email.content.clone(),
            password: self.password.content.clone(),
        }
    }

    /// Takes in what the service answered to the signup, and says whether
    /// the user is signed up: after status 201. `status_line` is the status
    /// of the answer as the wire words it.
    pub fn answered(&mut self, response: Response, status_line: &str) -> (signed_up: bool)
        ensures
            signed_up == (response matches Response::Answered { status, .. } && status == 201),
            final(self)@ == (SignupPageView {
                response_message: signup_message(response, status_line@),
                ..old(self)@
            }),
    {
        match response {
            Response::Answered { status, body } => {
                if status == 201 {
                    self.response_message = String::from_str(
                        "Signup successful! Redirecting to login...",
                    );
                    true
                } else if status == 200 && contains_text(body.as_str(), "Login successful") {
                    self.response_message = String::from_str(
                        "Email already registered. Please try another one.",
                    );
                    false
                } else if status == 400 {
                    self.response_message = String::from_str(
                        "Failed to sign up. Please check your inputs.",
                    );
                    false
                } else {
                    self.response_message = unknown_answer_text(status_line, body.as_str());
                    false
                }
            },
            Response::Failed { error } => {
                self.response_message = joined("Request failed: ", error.as_str());
                false
            },
        }
    }
}

} // verus!
