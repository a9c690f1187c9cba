//! Which page the client shows, and where each key leads.

use vstd::prelude::*;
use crate::client::account_main::AccountMain;
use crate::client::category_main::CategoryMain;
use crate::client::components::Key;
use crate::client::cover::CoverPage;
use crate::client::homepage::Homepage;
use crate::client::login::LoginPage;
use crate::client::report_main::ReportMain;
use crate::client::signup::SignupPage;
use crate::client::transaction_create::TransactionCreate;

verus! {

/// The pages of the client.
#[derive(Clone, Copy, Debug, PartialEq, Eq, Structural)]
pub enum State {
    Cover,
    Signup,
    Login,
    Homepage,
    AccountMain,
    CategoryMain,
    ReportMain,
    TransactionCreate,
}

/// The client: the page it shows, and the pages it holds. The pages behind
/// the home page are made when they are opened.
#[derive(Debug)]
pub struct App {
    pub state: State,
    pub cover_page: CoverPage,
    pub signup_page: SignupPage,
    pub login_page: LoginPage,
    pub homepage: Option<Homepage>,
    pub account_main: Option<AccountMain>,
    pub category_main: Option<CategoryMain>,
    pub report_main: Option<ReportMain>,
    pub transaction_create: Option<TransactionCreate>,
}

/// What a key press leads to.
#[derive(Clone, Copy, Debug, PartialEq, Eq, Structural)]
pub enum Route {
    /// The client ends.
    Quit,
    /// Nothing happens.
    Stay,
    /// The client shows another page.
    Show(State),
    /// The client makes a page for the user who is logged in and shows it.
    Open(State),
    /// The key goes to the page that is shown.
    Forward,
}

/// Where a key leads on a page. On the cover page `1` leads to signing up,
/// `2` to logging in, and escape ends the client. Escape leads from signup
/// and login back to the cover page, and from the page for a new
/// transaction back to the home page. On the home page escape ends the
/// client and, if a user is logged in, `1`, `2`, `3` and `n` open the pages
/// of accounts, categories, report and new transaction. Elsewhere the key
/// goes to the page.
pub open spec fn route_of(state: State, key: Key, logged_in: bool) -> Route {
    match state {
        State::Cover => match key {
            Key::Esc => Route::Quit,
            Key::Char('1') => Route::Show(State::Signup),
            Key::Char('2') => Route::Show(State::Login),
            _ => Route::Stay,
        },
        State::Signup | State::Login => if key == Key::Esc {
            Route::Show(State::Cover)
        } else {
            Route::Forward
        },
        State::Homepage => if key == Key::Esc {
            Route::Quit
        } else if !logged_in {
            Route::Stay
        } else {
            match key {
                Key::Char('1') => Route::Open(State::AccountMain),
                Key::Char('2') => Route::Open(State::CategoryMain),
                Key::Char('3') => Route::Open(State::ReportMain),
                Key::Char('n') => Route::Open(State::TransactionCreate),
                _ => Route::Stay,
            }
        },
        State::TransactionCreate => if key == Key::Esc {
            Route::Show(State::Homepage)
        } else {
            Route::Forward
        },
        _ => Route::Forward,
    }
}

/// The page that is shown after the page that took a key said whether it
/// is done with: signing up leads on to logging in, logging in to the home
/// page if a user is logged in now, and the pages behind the home page lead
/// back to it.
pub open spec fn state_after(state: State, done: bool, logged_in: bool) -> State {
    if !done {
        state
    } else {
        match state {
            State::Signup => State::Login,
            State::Login => if logged_in {
                State::Homepage
            } else {
                State::Login
            },
            State::AccountMain | State::CategoryMain | State::ReportMain | State::TransactionCreate =>
                State::Homepage,
            _ => state,
        }
    }
}

/// Where a key leads on a page.
pub fn run_app(state: State, key: Key, logged_in: bool) -> (route: Route)
    ensures
        route == route_of(state, key, logged_in),
{
    let escape = match key {
        Key::Esc => true,
        _ => false,
    };
    match state {
        State::Cover => match key {
            Key::Esc => Route::Quit,
            Key::Char('1') => Route::Show(State::Signup),
            Key::Char('2') => Route::Show(State::Login),
            _ => Route::Stay,
        },
        State::Signup | State::Login => {
            if escape {
                Route::Show(State::Cover)
            } else {
                Route::Forward
            }
        },
        State::Homepage => {
            if escape {
                Route::Quit
            } else if !logged_in {
                Route::Stay
            } else {
                match key {
                    Key::Char('1') => Route::Open(State::AccountMain),
                    Key::Char('2') => Route::Open(State::CategoryMain),
                    Key::Char('3') => Route::Open(State::ReportMain),
                    Key::Char('n') => Route::Open(State::TransactionCreate),
                    _ => Route::Stay,
                }
            }
        },
        State::TransactionCreate => {
            if escape {
                Route::Show(State::Homepage)
            } else {
                Route::Forward
            }
        },
        _ => Route::Forward,
    }
}

impl App {
    /// The client at its start: on the cover page, with nobody logged in.
    pub fn new() -> (app: App)
        ensures
            app.state == State::Cover,
            app.homepage is None,
            app.account_main is None,
            app.category_main is None,
            app.report_main is None,
            app.transaction_create is None,
    {
        App {
            state: State::Cover,
            cover_page: CoverPage::new(),
            signup_page: SignupPage::new(),
            login_page: LoginPage::new(),
            homepage: None,
            account_main: None,
            category_main: None,
            report_main: None,
            transaction_create: None,
        }
    }

    /// Where a key leads from the page that is shown.
    pub fn route(&self, key: Key) -> (route: Route)
        ensures
            route == route_of(self.state, key, self.homepage is Some),
    {
        run_app(self.state, key, self.homepage.is_some())
    }

    /// Shows the page that follows after the page that took a key said
    /// whether it is done with.
    pub fn settle(&mut self, done: bool)
        ensures
            final(self).state == state_after(old(self).state, done, old(self).homepage is Some),
            final(self).homepage == old(self).homepage,
            final(self).account_main == old(self).account_main,
            final(self).category_main == old(self).category_main,
            final(self).report_main == old(self).report_main,
            final(self).transaction_create == old(self).transaction_create,
            final(self).login_page == old(self).login_page,
            final(self).signup_page == old(self).signup_page,
    {
        if done {
            self.state = match self.state {
                State::Signup => State::Login,
                State::Login => {
                    if self.homepage.is_some() {
                        State::Homepage
                    } else {
                        State::Login
                    }
                },
                State::AccountMain | State::CategoryMain | State::ReportMain
                | State::TransactionCreate => State::Homepage,
                other => other,
            };
        }
    }

    /// Makes the page `page` for the user who is logged in, and shows it.
    /// Without a user, and for a page that is not behind the home page,
    /// nothing changes.
    pub fn open(&mut self, page: State)
        ensures
            final(self).homepage == old(self).homepage,
            final(self).login_page == old(self).login_page,
            final(self).signup_page == old(self).signup_page,
            match (old(self).homepage, page) {
                (Some(home), State::AccountMain) => {
                    &&& final(self).state == page
                    &&& final(self).account_main matches Some(made) && made.email@ == home.email@
                    &&& final(self).category_main == old(self).category_main
                    &&& final(self).report_main == old(self).report_main
                    &&& final(self).transaction_create == old(self).transaction_create
                },
                (Some(home), State::CategoryMain) => {
                    &&& final(self).state == page
                    &&& final(self).category_main matches Some(made) && made.email@ == home.email@
                    &&& final(self).account_main == old(self).account_main
                    &&& final(self).report_main == old(self).report_main
                    &&& final(self).transaction_create == old(self).transaction_create
                },
                (Some(home), State::ReportMain) => {
                    &&& final(self).state == page
                    &&& final(self).report_main matches Some(made) && made.email@ == home.email@
                    &&& final(self).account_main == old(self).account_main
                    &&& final(self).category_main == old(self).category_main
                    &&& final(self).transaction_create == old(self).transaction_create
                },
                (Some(home), State::TransactionCreate) => {
                    &&& final(self).state == page
                    &&& final(self).transaction_create matches Some(made) && made.email@
                        == home.email@
                    &&& final(self).account_main == old(self).account_main
                    &&& final(self).category_main == old(self).category_main
                    &&& final(self).report_main == old(self).report_main
                },
                _ => *final(self) == *old(self),
            },
    {
        let email = match &self.homepage {
            Some(home) => home.email.clone(),
            None => {
                return ;
            },
        };
        match page {
            State::AccountMain => {
                self.account_main = Some(AccountMain::new(email));
                self.state = page;
            },
            State::CategoryMain => {
                self.category_main = Some(CategoryMain::new(email));
                self.state = page;
            },
            State::ReportMain => {
                self.report_main = Some(ReportMain::new(email));
                self.state = page;
            },
            State::TransactionCreate => {
                self.transaction_create = Some(TransactionCreate::new(email));
                self.state = page;
            },
            _ => {},
        }
    }
}

} // verus!
