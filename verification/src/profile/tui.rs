//! Logging in and registering against a list of users that is kept in a
//! file: what each key does, and when a login or a registration succeeds.

use vstd::prelude::*;
use vstd::string::*;
use crate::client::components::{type_into, typed, Key};
use crate::profile::patterns::{match_of, pattern_matches};

verus! {

/// A user in the list.
#[derive(Debug)]
pub struct User {
    pub username: String,
    pub password: String,
    pub email: String,
}

/// Whether the form logs in or registers.
#[derive(Clone, Copy, Debug, PartialEq, Eq, Structural)]
pub enum AppMode {
    Login,
    Register,
}

/// The fields of the form.
#[derive(Clone, Copy, Debug, PartialEq, Eq, Structural)]
pub enum InputField {
    Username,
    Password,
    Email,
}

/// The form.
#[derive(Debug)]
pub struct App {
    pub mode: AppMode,
    pub username: String,
    pub password: String,
    pub email: String,
    /// The field that takes the keys.
    pub current_input: InputField,
    pub error_message: Option<String>,
}

/// What the form asks for after a key press.
#[derive(Clone, Copy, Debug, PartialEq, Eq, Structural)]
pub enum Attempt {
    /// Nothing.
    Nothing,
    /// To log in with what the form holds.
    Login,
    /// To register what the form holds.
    Register,
}

/// The form as plain values.
pub struct AppView {
    pub mode: AppMode,
    pub username: Seq<char>,
    pub password: Seq<char>,
    pub email: Seq<char>,
    pub current_input: InputField,
    pub error_message: Option<Seq<char>>,
}

impl View for App {
    type V = AppView;

    open spec fn view(&self) -> AppView {
        AppView {
            mode: self.mode,
            username: self.username@,
            password: self.password@,
            email: self.email@,
            current_input: self.current_input,
            error_message: match self.error_message {
                Some(message) => Some(message@),
                None => None,
            },
        }
    }
}

/// The pattern of an email address: a name of letters, digits and a few
/// signs, an at sign, a domain of letters, digits, points and hyphens, and
/// behind a last point at least two letters.
pub open spec fn email_pattern() -> Seq<char> {
    "^[a-zA-Z0-9._%+-]+@[a-zA-Z0-9.-]+\\.[a-zA-Z]{2,}$"@
}

/// Whether a text has the shape of an email address.
pub open spec fn email_shaped(text: Seq<char>) -> bool {
    match_of(email_pattern(), text) == Some(true)
}

/// Whether the form logs in with the email field active: a state that no
/// key leads to.
pub open spec fn astray(form: AppView) -> bool {
    form.mode == AppMode::Login && form.current_input == InputField::Email
}

/// The field that tab leads to: in a login from name to password and back,
/// in a registration from name to password to email and back to the name.
pub open spec fn tabbed(mode: AppMode, field: InputField) -> InputField {
    match (mode, field) {
        (AppMode::Login, InputField::Username) => InputField::Password,
        (AppMode::Register, InputField::Username) => InputField::Password,
        (AppMode::Register, InputField::Password) => InputField::Email,
        _ => InputField::Username,
    }
}

/// The form after a key was typed into the active field.
pub open spec fn form_typed(form: AppView, key: Key) -> AppView {
    match form.current_input {
        InputField::Username => AppView { username: typed(form.username, key), ..form },
        InputField::Password => AppView { password: typed(form.password, key), ..form },
        InputField::Email => AppView { email: typed(form.email, key), ..form },
    }
}

/// The form after a key press, and what it asks for. With the control key
/// held down, `r` turns a login into a registration and `l` a registration
/// into a login; both start at the name and clear the message. Tab moves
/// to the next field. Enter asks for the login or the registration. Letters
/// and backspace go to the active field.
pub open spec fn form_after(form: AppView, key: Key, control: bool) -> (AppView, Attempt) {
    if key == Key::Char('r') && control && form.mode == AppMode::Login {
        (
            AppView {
                mode: AppMode::Register,
                current_input: InputField::Username,
                error_message: None,
                ..form
            },
            Attempt::Nothing,
        )
    } else if key == Key::Char('l') && control && form.mode == AppMode::Register {
        (
            AppView {
                mode: AppMode::Login,
                current_input: InputField::Username,
                error_message: None,
                ..form
            },
            Attempt::Nothing,
        )
    } else {
        match key {
            Key::Tab => (
                AppView { current_input: tabbed(form.mode, form.current_input), ..form },
                Attempt::Nothing,
            ),
            Key::Char(_) | Key::Backspace => (form_typed(form, key), Attempt::Nothing),
            Key::Enter => (
                form,
                if form.mode == AppMode::Login {
                    Attempt::Login
                } else {
                    Attempt::Register
                },
            ),
            _ => (form, Attempt::Nothing),
        }
    }
}

/// The place of the first user with the given name from `from` on.
pub open spec fn first_user(users: Seq<User>, username: Seq<char>, from: int) -> Option<int>
    decreases users.len() - from,
{
    if from < 0 || from >= users.len() {
        None
    } else if users[from].username@ == username {
        Some(from)
    } else {
        first_user(users, username, from + 1)
    }
}

/// What a login says before the list of users is looked at: a form without
/// name or without password is turned away.
pub open spec fn login_refusal(form: AppView) -> Option<Seq<char>> {
    if form.username.len() == 0 || form.password.len() == 0 {
        Some("Username and password cannot be empty"@)
    } else {
        None
    }
}

/// Whether a login succeeds: the first user with the name of the form has
/// the password of the form.
pub open spec fn login_succeeds(form: AppView, users: Seq<User>) -> bool {
    match first_user(users, form.username, 0) {
        Some(at) => users[at].password@ == form.password,
        None => false,
    }
}

/// What a login says after the list of users was looked at.
pub open spec fn login_message(form: AppView, users: Seq<User>) -> Seq<char> {
    match first_user(users, form.username, 0) {
        Some(at) => if users[at].password@ == form.password {
            "Login Successful!"@
        } else {
            "Invalid password"@
        },
        None => "Username not found. Please register."@,
    }
}

/// What a registration says before the list of users is looked at, given
/// whether its email has the shape of one: a form with an empty field or
/// with an email of another shape is turned away.
pub open spec fn registration_refusal(form: AppView, email_valid: bool) -> Option<Seq<char>> {
    if form.username.len() == 0 || form.password.len() == 0 || form.email.len() == 0 {
        Some("All fields must be filled"@)
    } else if !email_valid {
        Some("Invalid email format"@)
    } else {
        None
    }
}

/// The place of the first user with the given name.
fn find_user(users: &Vec<User>, username: &String) -> (place: Option<usize>)
    ensures
        match place {
            Some(at) => first_user(users@, username@, 0) == Some(at as int) && at < users.len(),
            None => first_user(users@, username@, 0) is None,
        },
{
    let mut at: usize = 0;
    while at < users.len()
        invariant
            at <= users.len(),
            first_user(users@, username@, 0) == first_user(users@, username@, at as int),
        decreases users.len() - at,
    {
        if users[at].username == *username {
            return Some(at);
        }
        at += 1;
    }
    None
}

impl App {
    /// The form at its start: a login with empty fields.
    pub fn new() -> (form: App)
        ensures
            form@ == (AppView {
                mode: AppMode::Login,
                username: Seq::empty(),
                password: Seq::empty(),
                email: Seq::empty(),
                current_input: InputField::Username,
                error_message: None,
            }),
    {
        App {
            mode: AppMode::Login,
            username: String::new(),
            password: String::new(),
            email: String::new(),
            current_input: InputField::Username,
            error_message: None,
        }
    }

    /// Whether a text has the shape of an email address.
    pub fn is_valid_email(email: &str) -> (valid: bool)
        ensures
            valid == email_shaped(email@),
    {
        match pattern_matches("^[a-zA-Z0-9._%+-]+@[a-zA-Z0-9.-]+\\.[a-zA-Z]{2,}$", email) {
            Some(found) => found,
            None => false,
        }
    }

    /// Whether some user in the list has the given name.
    pub fn username_exists(users: &Vec<User>, username: &String) -> (exists: bool)
        ensures
            exists == (first_user(users@, username@, 0) is Some),
    {
        find_user(users, username).is_some()
    }

    /// Whether the form logs in with the email field active.
    pub fn is_astray(&self) -> (lost: bool)
        ensures
            lost == astray(self@),
    {
        match (self.mode, self.current_input) {
            (AppMode::Login, InputField::Email) => true,
            _ => false,
        }
    }

    /// Applies a key press to the form and says what it asks for. `control`
    /// says whether the control key, and no other modifier, was held down.
    pub fn handle_input(&mut self, key: Key, control: bool) -> (attempt: Attempt)
        requires
            !astray(old(self)@),
        ensures
            (final(self)@, attempt) == form_after(old(self)@, key, control),
            !astray(final(self)@),
    {
        match (key, control, self.mode) {
            (Key::Char('r'), true, AppMode::Login) => {
                self.mode = AppMode::Register;
                self.current_input = InputField::Username;
                self.error_message = None;
                return Attempt::Nothing;
            },
            (Key::Char('l'), true, AppMode::Register) => {
                self.mode = AppMode::Login;
                self.current_input = InputField::Username;
                self.error_message = None;
                return Attempt::Nothing;
            },
            _ => {},
        }
        match key {
            Key::Tab => {
                self.current_input = match (self.mode, self.current_input) {
                    (AppMode::Login, InputField::Username) => InputField::Password,
                    (AppMode::Register, InputField::Username) => InputField::Password,
                    (AppMode::Register, InputField::Password) => InputField::Email,
                    _ => InputField::Username,
                };
                Attempt::Nothing
            },
            Key::Char(_) | Key::Backspace => {
                match self.current_input {
                    InputField::Username => type_into(&mut self.username, key),
                    InputField::Password => type_into(&mut self.password, key),
                    InputField::Email => type_into(&mut self.email, key),
                }
                Attempt::Nothing
            },
            Key::Enter => match self.mode {
                AppMode::Login => Attempt::Login,
                AppMode::Register => Attempt::Register,
            },
            _ => Attempt::Nothing,
        }
    }

    /// Turns a login away that lacks name or password, and says whether the
    /// list of users is to be looked at.
    pub fn begin_login(&mut self) -> (go_on: bool)
        ensures
            go_on == (login_refusal(old(self)@) is None),
            final(self)@ == (AppView {
                error_message: match login_refusal(old(self)@) {
                    Some(message) => Some(message),
                    None => old(self)@.error_message,
                },
                ..old(self)@
            }),
    {
        if self.username.as_str().is_empty() || self.password.as_str().is_empty() {
            self.error_message = Some(String::from_str("Username and password cannot be empty"));
            false
        } else {
            true
        }
    }

    /// Logs in against the list of users, and says whether the login
    /// succeeded.
    pub fn login(&mut self, users: &Vec<User>) -> (done: bool)
        ensures
            done == login_succeeds(old(self)@, users@),
            final(self)@ == (AppView {
                error_message: Some(login_message(old(self)@, users@)),
                ..old(self)@
            }),
    {
        match find_user(users, &self.username) {
            Some(at) => {
                if users[at].password == self.password {
                    self.error_message = Some(String::from_str("Login Successful!"));
                    true
                } else {
                    self.error_message = Some(String::from_str("Invalid password"));
                    false
                }
            },
            None => {
                self.error_message = Some(
                    String::from_str("Username not found. Please register."),
                );
                false
            },
        }
    }

    /// Turns a registration away that lacks a field or whose email has not
    /// the shape of one, and says whether the list of users is to be looked
    /// at.
    pub fn begin_register(&mut self) -> (go_on: bool)
        ensures
            go_on == (registration_refusal(old(self)@, email_shaped(old(self)@.email)) is None),
            final(self)@ == (AppView {
                error_message: match registration_refusal(
                    old(self)@,
                    email_shaped(old(self)@.email),
                ) {
                    Some(message) => Some(message),
                    None => old(self)@.error_message,
                },
                ..old(self)@
            }),
    {
        let email_valid = App::is_valid_email(self.email.as_str());
        self.registration_checked(email_valid)
    }

    /// Turns a registration away that lacks a field or whose email was
    /// found to have another shape than that of an email, and says whether
    /// the list of users is to be looked at.
    pub fn registration_checked(&mut self, email_valid: bool) -> (go_on: bool)
        ensures
            go_on == (registration_refusal(old(self)@, email_valid) is None),
            final(self)@ == (AppView {
                error_message: match registration_refusal(old(self)@, email_valid) {
                    Some(message) => Some(message),
                    None => old(self)@.error_message,
                },
                ..old(self)@
            }),
    {
        if self.username.as_str().is_empty() || self.password.as_str().is_empty()
            || self.email.as_str().is_empty() {
            self.error_message = Some(String::from_str("All fields must be filled"));
            false
        } else if !email_valid {
            self.error_message = Some(String::from_str("Invalid email format"));
            false
        } else {
            true
        }
    }

    /// Registers the user of the form in the list, unless the name is
    /// taken, and says whether the list has grown. After a registration the
    /// form logs in.
    pub fn register(&mut self, users: &mut Vec<User>) -> (done: bool)
        ensures
            done == (first_user(old(users)@, old(self)@.username, 0) is None),
            !done ==> final(users)@ == old(users)@ && final(self)@ == (AppView {
                error_message: Some("Username already exists"@),
                ..old(self)@
            }),
            done ==> {
                &&& final(users)@.len() == old(users)@.len() + 1
                &&& final(users)@.drop_last() == old(users)@
                &&& final(users)@.last().username@ == old(self)@.username
                &&& final(users)@.last().password@ == old(self)@.password
                &&& final(users)@.last().email@ == old(self)@.email
                &&& final(self)@ == (AppView {
                    error_message: Some("Registration Successful! Please log in."@),
                    mode: AppMode::Login,
                    ..old(self)@
                })
            },
    {
        if App::username_exists(users, &self.username) {
            self.error_message = Some(String::from_str("Username already exists"));
            return false;
        }
        let ghost before = users@;
        users.push(
            User {
                username: self.username.clone(),
                password: self.password.clone(),
                email: self.email.clone(),
            },
        );
        assert(users@.drop_last() =~= before);
        self.error_message = Some(String::from_str("Registration Successful! Please log in."));
        self.mode = AppMode::Login;
        true
    }
}

} // verus!
