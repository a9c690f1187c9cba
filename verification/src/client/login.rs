//! The page on which a user logs in.

use vstd::prelude::*;
use vstd::string::*;
use crate::client::components::{
    empty_field, field_after, field_before, field_typed, next_field, previous_field, FormRequest,
    InputField, InputFieldView, Key,
};
use crate::client::homepage::{Homepage, HomepageView};
use crate::client::http::Response;
use crate::records::NewUser;
use crate::text::{contains_text, first_word, first_word_of, joined, occurs_in, text_views};

verus! {

/// The login page.
#[derive(Debug)]
pub struct LoginPage {
    pub email: InputField,
    pub password: InputField,
    /// The field that takes the keys: 0 for the email, 1 for the password.
    pub active_field: usize,
    pub response_message: String,
    pub report_overview: Vec<String>,
}

/// The login page as plain values.
pub struct LoginPageView {
    pub email: InputFieldView,
    pub password: InputFieldView,
    pub active_field: usize,
    pub response_message: Seq<char>,
    pub report_overview: Seq<Seq<char>>,
}

impl View for LoginPage {
    type V = LoginPageView;

    open spec fn view(&self) -> LoginPageView {
        LoginPageView {
            email: self.email@,
            password: self.password@,
            active_field: self.active_field,
            response_message: self.response_message@,
            report_overview: text_views(self.report_overview@),
        }
    }
}

/// The page after a key press, and what it asks for. Escape leaves the
/// page, tab and back-tab move between the two fields, enter sends the
/// form, and any other key goes to the active field.
pub open spec fn page_after(page: LoginPageView, key: Key) -> (LoginPageView, FormRequest) {
    match key {
        Key::Esc => (page, FormRequest::Leave),
        Key::Tab => (
            LoginPageView { active_field: field_after(page.active_field, 2), ..page },
            FormRequest::Nothing,
        ),
        Key::BackTab => (
            LoginPageView { active_field: field_before(page.active_field, 2), ..page },
            FormRequest::Nothing,
        ),
        Key::Enter => (page, FormRequest::Submit),
        _ => if page.active_field == 0 {
            (LoginPageView { email: field_typed(page.email, key), ..page }, FormRequest::Nothing)
        } else if page.active_field == 1 {
            (
                LoginPageView { password: field_typed(page.password, key), ..page },
                FormRequest::Nothing,
            )
        } else {
            (page, FormRequest::Nothing)
        },
    }
}

/// The name of the user that the service greets in its answer to a login,
/// if the answer is a greeting: status 200 and a body that holds
/// `Login successful`, of which the first word is the name.
pub open spec fn greeted(response: Response) -> Option<Seq<char>> {
    match response {
        Response::Answered { status, body } => if status == 200 && occurs_in(
            body@,
            "Login successful"@,
        ) {
            first_word_of(body@)
        } else {
            None
        },
        Response::Failed { .. } => None,
    }
}

/// Whether the answer to a login is a greeting.
pub open spec fn is_greeting(response: Response) -> bool {
    response matches Response::Answered { status, body } && status == 200 && occurs_in(
        body@,
        "Login successful"@,
    )
}

/// The text that reports an answer which the page does not know: the
/// status as the wire words it, and the body.
pub open spec fn unknown_answer(status_line: Seq<char>, body: Seq<char>) -> Seq<char> {
    "ERROR_CODE: "@ + status_line + "\nMessage: "@ + body
}

/// The message after the service answered a login; a greeting without a
/// name leaves the message as it was.
pub open spec fn login_message(before: Seq<char>, response: Response, status_line: Seq<char>) -> Seq<
    char,
> {
    match response {
        Response::Answered { status, body } => if is_greeting(response) {
            if first_word_of(body@) is Some {
                "Login successful! Redirecting to homepage..."@
            } else {
                before
            }
        } else if status == 400 {
            "Invalid password. Please try again."@
        } else if status == 201 {
            "Email not registered. Please sign up first."@
        } else {
            unknown_answer(status_line, body@)
        },
        Response::Failed { error } => "Request failed: "@ + error@,
    }
}

/// The text that reports an answer which the page does not know.
pub fn unknown_answer_text(status_line: &str, body: &str) -> (text: String)
    ensures
        text@ == unknown_answer(status_line@, body@),
{
    let mut text = joined("ERROR_CODE: ", status_line);
    text.append("\nMessage: ");
    text.append(body);
    text
}

impl LoginPage {
    /// The page with its two fields empty.
    pub fn new() -> (page: LoginPage)
        ensures
            page@ == (LoginPageView {
                email: empty_field("Email"@, false),
                password: empty_field("Password"@, true),
                active_field: 0,
                response_message: Seq::empty(),
                report_overview: Seq::empty(),
            }),
    {
        let page = LoginPage {
            email: InputField::new("Email", false),
            password: InputField::new("Password", true),
            active_field: 0,
            response_message: String::new(),
            report_overview: Vec::new(),
        };
        assert(page@.report_overview =~= Seq::empty());
        page
    }

    /// Applies a key press to the page and says what to do.
    pub fn handle_input(&mut self, key: Key) -> (request: FormRequest)
        ensures
            (final(self)@, request) == page_after(old(self)@, key),
    {
        match key {
            Key::Esc => FormRequest::Leave,
            Key::Tab => {
                self.active_field = next_field(self.active_field, 2);
                FormRequest::Nothing
            },
            Key::BackTab => {
                self.active_field = previous_field(self.active_field, 2);
                FormRequest::Nothing
            },
            Key::Enter => FormRequest::Submit,
            _ => {
                if self.active_field == 0 {
                    self.email.handle_input(key);
                } else if self.active_field == 1 {
                    self.password.handle_input(key);
                }
                FormRequest::Nothing
            },
        }
    }

    /// What the page sends to the service: email and password of its
    /// fields, under the user name `_login`.
    pub fn submit(&self) -> (data: NewUser)
        ensures
            data.username@ == "_login"@,
            data.email@ == self@.email.content,
            data.password@ == self@.password.content,
    {
        NewUser {
            username: String::from_str("_login"),
            email: self.email.content.clone(),
            password: self.password.content.clone(),
        }
    }

    /// Takes in what the service answered to the login, and hands out the
    /// name of the user if the answer greets one. `status_line` is the
    /// status of the answer as the wire words it.
    pub fn answered(&mut self, response: Response, status_line: &str) -> (username: Option<String>)
        ensures
            match username {
                Some(name) => greeted(response) == Some(name@),
                None => greeted(response) is None,
            },
            final(self)@ == (LoginPageView {
                response_message: login_message(
                    old(self)@.response_message,
                    response,
                    status_line@,
                ),
                ..old(self)@
            }),
    {
        match response {
            Response::Answered { status, body } => {
                if status == 200 && contains_text(body.as_str(), "Login successful") {
                    let username = first_word(body.as_str());
                    if username.is_some() {
                        self.response_message = String::from_str(
                            "Login successful! Redirecting to homepage...",
                        );
                    }
                    username
                } else if status == 400 {
                    self.response_message = String::from_str("Invalid password. Please try again.");
                    None
                } else if status == 201 {
                    self.response_message = String::from_str(
                        "Email not registered. Please sign up first.",
                    );
                    None
                } else {
                    self.response_message = unknown_answer_text(status_line, body.as_str());
                    None
                }
            },
            Response::Failed { error } => {
                self.response_message = joined("Request failed: ", error.as_str());
                None
            },
        }
    }

    /// The home page of the user who logged in, showing the given
    /// overviews; the page keeps the overview of the report.
    pub fn enter(
        &mut self,
        username: String,
        report_overview: Vec<String>,
        category_overview: Vec<String>,
        account_overview: Vec<String>,
    ) -> (homepage: Homepage)
        ensures
            homepage@ == (HomepageView {
                username: username@,
                email: old(self)@.email.content,
                report_overview: text_views(report_overview@),
                category_overview: text_views(category_overview@),
                account_overview: text_views(account_overview@),
            }),
            final(self)@ == (LoginPageView {
                report_overview: text_views(report_overview@),
                ..old(self)@
            }),
    {
        self.report_overview = report_overview.clone();
        proof {
            assert(text_views(self.report_overview@) =~= text_views(report_overview@)) by {
                assert(self.report_overview@.len() == report_overview@.len());
                assert forall|i: int| 0 <= i < report_overview@.len() implies self.report_overview@[i]@
                    == report_overview@[i]@ by {
                    assert(vstd::pervasive::cloned(report_overview@[i], self.report_overview@[i]));
                }
            }
        }
        Homepage::new(
            username,
            self.email.content.clone(),
            report_overview,
            category_overview,
            account_overview,
        )
    }
}

} // verus!
