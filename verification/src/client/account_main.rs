//! The page that lists the accounts of a user, creates and deletes them.

use vstd::prelude::*;
use vstd::string::*;
use crate::client::components::{type_into, typed, Key};
use crate::client::http::{Fetched, Response};
use crate::client::list::{step_down, step_up, stepped_down, stepped_up};
use crate::money::natural_text;
use crate::records::{Account, NewAccount};
use crate::text::{contains_text, count_text, joined, occurs_in};

verus! {

/// The accounts page.
#[derive(Debug)]
pub struct AccountMain {
    pub accounts: Vec<Account>,
    /// The place of the selected account in the list.
    pub selected: Option<usize>,
    pub email: String,
    pub message: String,
    /// Whether the form for a new account is open.
    pub creating_account: bool,
    pub new_account: NewAccount,
    /// The field of the form that takes the keys: 0 for the name, 1 for
    /// the type.
    pub active_field: usize,
}

/// What the page asks of the service after a key press.
#[derive(Debug)]
pub enum AccountRequest {
    /// Nothing; the page stays.
    Nothing,
    /// Nothing; the page is left.
    Leave,
    /// Create the account of the form.
    Create,
    /// Delete the account with this name.
    Delete(String),
}

/// The accounts page as plain values.
pub struct AccountMainView {
    pub accounts: Seq<Account>,
    pub selected: Option<usize>,
    pub email: Seq<char>,
    pub message: Seq<char>,
    pub creating_account: bool,
    pub form_email: Seq<char>,
    pub form_name: Seq<char>,
    pub form_type: Seq<char>,
    pub active_field: usize,
}

/// A request as plain values.
pub enum AccountRequestView {
    Nothing,
    Leave,
    Create,
    Delete(Seq<char>),
}

impl View for AccountMain {
    type V = AccountMainView;

    open spec fn view(&self) -> AccountMainView {
        AccountMainView {
            accounts: self.accounts@,
            selected: self.selected,
            email: self.email@,
            message: self.message@,
            creating_account: self.creating_account,
            form_email: self.new_account.email@,
            form_name: self.new_account.account_name@,
            form_type: self.new_account.account_type@,
            active_field: self.active_field,
        }
    }
}

impl View for AccountRequest {
    type V = AccountRequestView;

    open spec fn view(&self) -> AccountRequestView {
        match self {
            AccountRequest::Nothing => AccountRequestView::Nothing,
            AccountRequest::Leave => AccountRequestView::Leave,
            AccountRequest::Create => AccountRequestView::Create,
            AccountRequest::Delete(name) => AccountRequestView::Delete(name@),
        }
    }
}

/// The form after a key press.
pub open spec fn form_after(page: AccountMainView, key: Key) -> (AccountMainView, AccountRequestView) {
    match key {
        Key::Tab => (
            AccountMainView { active_field: ((page.active_field + 1) % 2) as usize, ..page },
            AccountRequestView::Nothing,
        ),
        Key::Enter => if page.form_name.len() == 0 || page.form_type.len() == 0 {
            (
                AccountMainView { message: "Please fill in all fields"@, ..page },
                AccountRequestView::Nothing,
            )
        } else {
            (page, AccountRequestView::Create)
        },
        Key::Char(_) | Key::Backspace => if page.active_field == 0 {
            (
                AccountMainView { form_name: typed(page.form_name, key), ..page },
                AccountRequestView::Nothing,
            )
        } else if page.active_field == 1 {
            (
                AccountMainView { form_type: typed(page.form_type, key), ..page },
                AccountRequestView::Nothing,
            )
        } else {
            (page, AccountRequestView::Nothing)
        },
        _ => (page, AccountRequestView::Nothing),
    }
}

/// The list after a key press.
pub open spec fn list_after(page: AccountMainView, key: Key) -> (AccountMainView, AccountRequestView) {
    match key {
        Key::Char('n') => (
            AccountMainView {
                creating_account: true,
                form_name: Seq::empty(),
                form_type: Seq::empty(),
                active_field: 0,
                ..page
            },
            AccountRequestView::Nothing,
        ),
        Key::Char('d') => match page.selected {
            Some(at) => if at < page.accounts.len() {
                (page, AccountRequestView::Delete(page.accounts[at as int].account_name@))
            } else {
                (page, AccountRequestView::Nothing)
            },
            None => (page, AccountRequestView::Nothing),
        },
        Key::Up => (
            AccountMainView { selected: stepped_up(page.selected, page.accounts.len()), ..page },
            AccountRequestView::Nothing,
        ),
        Key::Down => (
            AccountMainView { selected: stepped_down(page.selected, page.accounts.len()), ..page },
            AccountRequestView::Nothing,
        ),
        _ => (page, AccountRequestView::Nothing),
    }
}

/// The page after a key press, and what it asks of the service. Escape
/// closes the form if it is open, and leaves the page if not.
pub open spec fn page_after(page: AccountMainView, key: Key) -> (AccountMainView, AccountRequestView) {
    if key == Key::Esc {
        if page.creating_account {
            (AccountMainView { creating_account: false, ..page }, AccountRequestView::Nothing)
        } else {
            (page, AccountRequestView::Leave)
        }
    } else if page.creating_account {
        form_after(page, key)
    } else {
        list_after(page, key)
    }
}

/// The message after the service was asked for the accounts.
pub open spec fn fetch_message(outcome: Fetched<Account>) -> Seq<char> {
    match outcome {
        Fetched::Loaded(accounts) => "Loaded "@ + natural_text(accounts@.len()) + " accounts"@,
        Fetched::Unparsable => "Failed to parse account data"@,
        Fetched::Refused => "Failed to fetch accounts"@,
        Fetched::Failed(error) => "Error fetching accounts: "@ + error@,
    }
}

/// The message after the service was asked to create an account.
pub open spec fn create_message(response: Response) -> Seq<char> {
    match response {
        Response::Answered { status, body } => if status == 201 {
            "Account created successfully"@
        } else if status == 400 {
            body@
        } else {
            "Failed to create account: "@ + body@
        },
        Response::Failed { error } => "Error creating account: "@ + error@,
    }
}

/// The message after the service was asked to delete an account.
pub open spec fn delete_message(response: Response) -> Seq<char> {
    match response {
        Response::Answered { status, body } => if status == 200 {
            "Account deleted successfully"@
        } else {
            "Failed to delete account: "@ + body@
        },
        Response::Failed { error } => "Error deleting account: "@ + error@,
    }
}

impl AccountMain {
    /// The page of the user with the given email, before its accounts are
    /// there.
    pub fn new(email: String) -> (page: AccountMain)
        ensures
            page@ == (AccountMainView {
                accounts: Seq::empty(),
                selected: None,
                email: email@,
                message: "Loading accounts..."@,
                creating_account: false,
                form_email: email@,
                form_name: Seq::empty(),
                form_type: Seq::empty(),
                active_field: 0,
            }),
    {
        let page = AccountMain {
            accounts: Vec::new(),
            selected: None,
            email: email.clone(),
            message: String::from_str("Loading accounts..."),
            creating_account: false,
            new_account: NewAccount {
                email,
                account_type: String::new(),
                account_name: String::new(),
            },
            active_field: 0,
        };
        assert(page@.accounts =~= Seq::empty());
        page
    }

    /// Applies a key press to the page and says what to ask of the service.
    pub fn handle_input(&mut self, key: Key) -> (request: AccountRequest)
        ensures
            (final(self)@, request@) == page_after(old(self)@, key),
    {
        if let Key::Esc = key {
            if self.creating_account {
                self.creating_account = false;
                return AccountRequest::Nothing;
            }
            return AccountRequest::Leave;
        }
        if self.creating_account {
            self.handle_create_input(key)
        } else {
            self.handle_list_input(key)
        }
    }

    /// Applies a key press to the form.
    fn handle_create_input(&mut self, key: Key) -> (request: AccountRequest)
        ensures
            (final(self)@, request@) == form_after(old(self)@, key),
    {
        match key {
            Key::Tab => {
                self.active_field = if self.active_field == usize::MAX {
                    0
                } else {
                    (self.active_field + 1) % 2
                };
                AccountRequest::Nothing
            },
            Key::Enter => {
                if self.new_account.account_name.as_str().is_empty()
                    || self.new_account.account_type.as_str().is_empty() {
                    self.message = String::from_str("Please fill in all fields");
                    AccountRequest::Nothing
                } else {
                    AccountRequest::Create
                }
            },
            Key::Char(_) | Key::Backspace => {
                if self.active_field == 0 {
                    type_into(&mut self.new_account.account_name, key);
                } else if self.active_field == 1 {
                    type_into(&mut self.new_account.account_type, key);
                }
                AccountRequest::Nothing
            },
            _ => AccountRequest::Nothing,
        }
    }

    /// Applies a key press to the list.
    fn handle_list_input(&mut self, key: Key) -> (request: AccountRequest)
        ensures
            (final(self)@, request@) == list_after(old(self)@, key),
    {
        match key {
            Key::Char('n') => {
                self.creating_account = true;
                self.new_account.account_name = String::new();
                self.new_account.account_type = String::new();
                self.active_field = 0;
                AccountRequest::Nothing
            },
            Key::Char('d') => {
                match self.selected {
                    Some(at) => {
                        if at < self.accounts.len() {
                            AccountRequest::Delete(self.accounts[at].account_name.clone())
                        } else {
                            AccountRequest::Nothing
                        }
                    },
                    None => AccountRequest::Nothing,
                }
            },
            Key::Up => {
                self.selected = step_up(self.selected, self.accounts.len());
                AccountRequest::Nothing
            },
            Key::Down => {
                self.selected = step_down(self.selected, self.accounts.len());
                AccountRequest::Nothing
            },
            _ => AccountRequest::Nothing,
        }
    }

    /// Takes in what the service answered when asked for the accounts: a
    /// list replaces the accounts of the page, and its first entry is
    /// selected if nothing was; any other outcome only leaves a message.
    pub fn fetched(&mut self, outcome: Fetched<Account>)
        ensures
            final(self)@ == (AccountMainView {
                accounts: match outcome {
                    Fetched::Loaded(accounts) => accounts@,
                    _ => old(self)@.accounts,
                },
                selected: match outcome {
                    Fetched::Loaded(accounts) => if accounts@.len() > 0 && old(self)@.selected is None {
                        Some(0usize)
                    } else {
                        old(self)@.selected
                    },
                    _ => old(self)@.selected,
                },
                message: fetch_message(outcome),
                ..old(self)@
            }),
    {
        match outcome {
            Fetched::Loaded(accounts) => {
                let mut message = joined("Loaded ", count_text(accounts.len()).as_str());
                message.append(" accounts");
                if accounts.len() > 0 && self.selected.is_none() {
                    self.selected = Some(0);
                }
                self.accounts = accounts;
                self.message = message;
            },
            Fetched::Unparsable => {
                self.message = String::from_str("Failed to parse account data");
            },
            Fetched::Refused => {
                self.message = String::from_str("Failed to fetch accounts");
            },
            Fetched::Failed(error) => {
                self.message = joined("Error fetching accounts: ", error.as_str());
            },
        }
    }

    /// Takes in what the service answered when asked to create the account
    /// of the form, and says whether to ask for the accounts anew: after
    /// status 201, which also closes the form.
    pub fn created(&mut self, response: Response) -> (again: bool)
        ensures
            again == (response matches Response::Answered { status, .. } && status == 201),
            final(self)@ == (AccountMainView {
                message: create_message(response),
                creating_account: old(self)@.creating_account && !again,
                ..old(self)@
            }),
    {
        match response {
            Response::Answered { status, body } => {
                if status == 201 {
                    self.message = String::from_str("Account created successfully");
                    self.creating_account = false;
                    true
                } else if status == 400 {
                    self.message = body;
                    false
                } else {
                    self.message = joined("Failed to create account: ", body.as_str());
                    false
                }
            },
            Response::Failed { error } => {
                self.message = joined("Error creating account: ", error.as_str());
                false
            },
        }
    }

    /// Takes in what the service answered when asked to delete an account,
    /// and says whether to ask for the accounts anew: after status 200.
    pub fn deleted(&mut self, response: Response) -> (again: bool)
        ensures
            again == (response matches Response::Answered { status, .. } && status == 200),
            final(self)@ == (AccountMainView { message: delete_message(response), ..old(self)@ }),
    {
        match response {
            Response::Answered { status, body } => {
                if status == 200 {
                    self.message = String::from_str("Account deleted successfully");
                    true
                } else {
                    self.message = joined("Failed to delete account: ", body.as_str());
                    false
                }
            },
            Response::Failed { error } => {
                self.message = joined("Error deleting account: ", error.as_str());
                false
            },
        }
    }

    /// Where to ask for the accounts of the user.
    pub fn fetch_url(&self) -> (url: String)
        ensures
            url@ == "http://localhost:8000/account_summary?email="@ + self.email@,
    {
        joined("http://localhost:8000/account_summary?email=", self.email.as_str())
    }

    /// Where to ask for the deletion of the account with the given name.
    pub fn delete_url(&self, account_name: &str) -> (url: String)
        ensures
            url@ == "http://localhost:8000/delete_account?email="@ + self.email@
                + "&account_name="@ + account_name@,
    {
        let mut url = joined("http://localhost:8000/delete_account?email=", self.email.as_str());
        url.append("&account_name=");
        url.append(account_name);
        url
    }

    /// Whether the message reports a failure, and is shown as one.
    pub fn message_is_alarming(&self) -> (alarming: bool)
        ensures
            alarming == (occurs_in(self.message@, "Error"@) || occurs_in(self.message@, "Failed"@)),
    {
        contains_text(self.message.as_str(), "Error") || contains_text(
            self.message.as_str(),
            "Failed",
        )
    }
}

} // verus!
