use fintrak::client::account_main::{AccountMain, AccountRequest};
use fintrak::client::app::{run_app, App, Route, State};
use fintrak::client::category_main::{CategoryMain, CategoryRequest};
use fintrak::client::components::{next_field, previous_field, type_into, FormRequest, InputField, Key};
use fintrak::client::cover::CoverPage;
use fintrak::client::homepage::Homepage;
use fintrak::client::http::{fetched, fetched_lines, list_follows, Fetched, Response};
use fintrak::client::list::{step_down, step_up};
use fintrak::client::login::{unknown_answer_text, LoginPage};
use fintrak::client::report::{
    account_overview_url, category_overview_url, create_lines, get_account_overview,
    get_category_overview, get_report_overview, line_kind, report_overview_url, LineKind,
};
use fintrak::client::report_main::{title_block, ReportMain, ReportRequest};
use fintrak::client::signup::SignupPage;
use fintrak::client::sorting::{sort_by_nickname, stands_in_order};
use fintrak::client::transaction_create::TransactionCreate;
use fintrak::frequency::BudgetFrequency;
use fintrak::money::Money;
use fintrak::records::{Account, Category};
use fintrak::report::records::CategorySummary;

fn account(name: &str, kind: &str) -> Account {
    Account {
        account_id: 1,
        email: "a@x.org".to_string(),
        account_type: kind.to_string(),
        account_name: name.to_string(),
    }
}

fn category(nickname: &str) -> Category {
    Category {
        category_id: 1,
        email: "a@x.org".to_string(),
        nickname: nickname.to_string(),
        category_type: "need".to_string(),
        budget: Money::from_cents(12050),
        budget_freq: "weekly".to_string(),
    }
}

fn answered(status: u16, body: &str) -> Response {
    Response::Answered { status, body: body.to_string() }
}

fn failed(error: &str) -> Response {
    Response::Failed { error: error.to_string() }
}

fn summary(nickname: &str, ids: Vec<i32>, lines: Vec<&str>) -> CategorySummary {
    CategorySummary {
        nickname: nickname.to_string(),
        budget: Money::from_cents(10000),
        budget_freq: BudgetFrequency::Weekly,
        overbudget: false,
        total: Money::from_cents(0),
        transaction_idz: ids,
        cat_trans: lines.into_iter().map(|line| line.to_string()).collect(),
    }
}

#[test]
fn keys_change_a_text() {
    let mut text = "ab".to_string();
    type_into(&mut text, Key::Char('c'));
    assert_eq!(text, "abc");
    type_into(&mut text, Key::Backspace);
    type_into(&mut text, Key::Backspace);
    assert_eq!(text, "a");
    type_into(&mut text, Key::Enter);
    type_into(&mut text, Key::Tab);
    type_into(&mut text, Key::Other);
    assert_eq!(text, "a");
    type_into(&mut text, Key::Backspace);
    type_into(&mut text, Key::Backspace);
    assert_eq!(text, "");
}

#[test]
fn a_field_shows_its_content_or_asterisks() {
    let mut field = InputField::new("Email", false);
    assert_eq!(field.label, "Email");
    assert_eq!(field.content, "");
    assert!(!field.is_password);
    field.handle_input(Key::Char('a'));
    field.handle_input(Key::Char('b'));
    assert_eq!(field.display_content(false), "ab");
    assert_eq!(field.display_content(true), "ab|");
    let mut secret = InputField::new("Password", true);
    assert_eq!(secret.display_content(true), "|");
    secret.handle_input(Key::Char('p'));
    secret.handle_input(Key::Char('ñ'));
    assert_eq!(secret.content, "pñ");
    assert_eq!(secret.display_content(false), "***");
    assert_eq!(secret.display_content(true), "***|");
    secret.handle_input(Key::Backspace);
    assert_eq!(secret.display_content(false), "*");
}

#[test]
fn fields_follow_one_another_in_a_circle() {
    assert_eq!(next_field(0, 2), 1);
    assert_eq!(next_field(1, 2), 0);
    assert_eq!(next_field(3, 4), 0);
    assert_eq!(next_field(7, 4), 0);
    assert_eq!(next_field(usize::MAX, 4), 0);
    assert_eq!(next_field(usize::MAX, 3), (usize::MAX % 3 + 1) % 3);
    assert_eq!(next_field(5, 1), 0);
    assert_eq!(previous_field(0, 2), 1);
    assert_eq!(previous_field(0, 4), 3);
    assert_eq!(previous_field(3, 4), 2);
}

#[test]
fn the_selection_goes_around_the_ends_of_a_list() {
    assert_eq!(step_up(Some(0), 3), Some(2));
    assert_eq!(step_up(Some(2), 3), Some(1));
    assert_eq!(step_up(None, 3), Some(2));
    assert_eq!(step_down(Some(2), 3), Some(0));
    assert_eq!(step_down(Some(0), 3), Some(1));
    assert_eq!(step_down(None, 3), Some(1));
    assert_eq!(step_down(Some(9), 3), Some(0));
    assert_eq!(step_down(Some(0), 1), Some(0));
    assert_eq!(step_up(Some(0), 1), Some(0));
    assert_eq!(step_up(Some(4), 0), Some(4));
    assert_eq!(step_down(None, 0), None);
}

#[test]
fn keys_lead_from_page_to_page() {
    assert_eq!(run_app(State::Cover, Key::Esc, false), Route::Quit);
    assert_eq!(run_app(State::Cover, Key::Char('1'), false), Route::Show(State::Signup));
    assert_eq!(run_app(State::Cover, Key::Char('2'), false), Route::Show(State::Login));
    assert_eq!(run_app(State::Cover, Key::Char('3'), false), Route::Stay);
    assert_eq!(run_app(State::Signup, Key::Esc, false), Route::Show(State::Cover));
    assert_eq!(run_app(State::Signup, Key::Char('1'), false), Route::Forward);
    assert_eq!(run_app(State::Login, Key::Esc, false), Route::Show(State::Cover));
    assert_eq!(run_app(State::Login, Key::Enter, false), Route::Forward);
    assert_eq!(run_app(State::Homepage, Key::Esc, true), Route::Quit);
    assert_eq!(run_app(State::Homepage, Key::Char('1'), true), Route::Open(State::AccountMain));
    assert_eq!(run_app(State::Homepage, Key::Char('2'), true), Route::Open(State::CategoryMain));
    assert_eq!(run_app(State::Homepage, Key::Char('3'), true), Route::Open(State::ReportMain));
    assert_eq!(run_app(State::Homepage, Key::Char('n'), true), Route::Open(State::TransactionCreate));
    assert_eq!(run_app(State::Homepage, Key::Char('x'), true), Route::Stay);
    assert_eq!(run_app(State::Homepage, Key::Char('1'), false), Route::Stay);
    assert_eq!(run_app(State::Homepage, Key::Esc, false), Route::Quit);
    assert_eq!(run_app(State::AccountMain, Key::Esc, true), Route::Forward);
    assert_eq!(run_app(State::CategoryMain, Key::Char('n'), true), Route::Forward);
    assert_eq!(run_app(State::ReportMain, Key::Tab, true), Route::Forward);
    assert_eq!(run_app(State::TransactionCreate, Key::Esc, true), Route::Show(State::Homepage));
    assert_eq!(run_app(State::TransactionCreate, Key::Enter, true), Route::Forward);
}

fn home() -> Homepage {
    Homepage::new("ada".to_string(), "a@x.org".to_string(), vec!["r".to_string()], vec![], vec!["a".to_string()])
}

#[test]
fn the_client_moves_on_when_a_page_is_done() {
    let mut app = App::new();
    assert_eq!(app.state, State::Cover);
    assert!(app.homepage.is_none());
    assert_eq!(app.route(Key::Char('1')), Route::Show(State::Signup));
    app.state = State::Signup;
    app.settle(false);
    assert_eq!(app.state, State::Signup);
    app.settle(true);
    assert_eq!(app.state, State::Login);
    app.settle(true);
    assert_eq!(app.state, State::Login);
    app.homepage = Some(home());
    app.settle(true);
    assert_eq!(app.state, State::Homepage);
    app.settle(true);
    assert_eq!(app.state, State::Homepage);
    for page in [State::AccountMain, State::CategoryMain, State::ReportMain, State::TransactionCreate] {
        app.state = page;
        app.settle(false);
        assert_eq!(app.state, page);
        app.settle(true);
        assert_eq!(app.state, State::Homepage);
    }
    app.state = State::Cover;
    app.settle(true);
    assert_eq!(app.state, State::Cover);
}

#[test]
fn pages_are_opened_for_the_user_who_is_logged_in() {
    let mut app = App::new();
    app.state = State::Homepage;
    app.open(State::AccountMain);
    assert_eq!(app.state, State::Homepage);
    assert!(app.account_main.is_none());
    app.homepage = Some(home());
    app.open(State::AccountMain);
    assert_eq!(app.state, State::AccountMain);
    assert_eq!(app.account_main.as_ref().unwrap().email, "a@x.org");
    app.open(State::CategoryMain);
    assert_eq!(app.state, State::CategoryMain);
    assert_eq!(app.category_main.as_ref().unwrap().email, "a@x.org");
    app.open(State::ReportMain);
    assert_eq!(app.report_main.as_ref().unwrap().email, "a@x.org");
    app.open(State::TransactionCreate);
    assert_eq!(app.state, State::TransactionCreate);
    assert_eq!(app.transaction_create.as_ref().unwrap().email, "a@x.org");
    app.open(State::Cover);
    assert_eq!(app.state, State::TransactionCreate);
}

#[test]
fn the_home_page_keeps_what_it_is_given() {
    let page = home();
    assert_eq!(page.username, "ada");
    assert_eq!(page.email, "a@x.org");
    assert_eq!(page.report_overview, vec!["r".to_string()]);
    assert!(page.category_overview.is_empty());
    assert_eq!(page.account_overview, vec!["a".to_string()]);
    assert!(CoverPage::new().handle_input(Key::Esc));
    assert!(!CoverPage::new().handle_input(Key::Char('1')));
}

#[test]
fn the_accounts_page_lists_and_selects() {
    let mut page = AccountMain::new("a@x.org".to_string());
    assert_eq!(page.message, "Loading accounts...");
    assert_eq!(page.new_account.email, "a@x.org");
    assert_eq!(page.fetch_url(), "http://localhost:8000/account_summary?email=a@x.org");
    assert_eq!(
        page.delete_url("Visa"),
        "http://localhost:8000/delete_account?email=a@x.org&account_name=Visa"
    );
    assert!(matches!(page.handle_input(Key::Char('d')), AccountRequest::Nothing));
    assert!(matches!(page.handle_input(Key::Down), AccountRequest::Nothing));
    assert_eq!(page.selected, None);
    page.fetched(Fetched::Loaded(vec![account("Visa", "credit"), account("Cash", "debit")]));
    assert_eq!(page.message, "Loaded 2 accounts");
    assert_eq!(page.selected, Some(0));
    assert!(!page.message_is_alarming());
    page.handle_input(Key::Down);
    assert_eq!(page.selected, Some(1));
    match page.handle_input(Key::Char('d')) {
        AccountRequest::Delete(name) => assert_eq!(name, "Cash"),
        other => panic!("no deletion but {:?}", other),
    }
    page.handle_input(Key::Down);
    assert_eq!(page.selected, Some(0));
    page.handle_input(Key::Up);
    assert_eq!(page.selected, Some(1));
    page.fetched(Fetched::Loaded(vec![account("Visa", "credit")]));
    assert_eq!(page.selected, Some(1));
    assert!(matches!(page.handle_input(Key::Char('d')), AccountRequest::Nothing));
    assert!(matches!(page.handle_input(Key::Esc), AccountRequest::Leave));
    page.fetched(Fetched::Unparsable);
    assert_eq!(page.message, "Failed to parse account data");
    assert!(page.message_is_alarming());
    assert_eq!(page.accounts.len(), 1);
    page.fetched(Fetched::Refused);
    assert_eq!(page.message, "Failed to fetch accounts");
    page.fetched(Fetched::Failed("timeout".to_string()));
    assert_eq!(page.message, "Error fetching accounts: timeout");
    assert!(page.message_is_alarming());
}

#[test]
fn the_accounts_page_creates_and_deletes() {
    let mut page = AccountMain::new("a@x.org".to_string());
    page.handle_input(Key::Char('n'));
    assert!(page.creating_account);
    assert!(matches!(page.handle_input(Key::Enter), AccountRequest::Nothing));
    assert_eq!(page.message, "Please fill in all fields");
    for c in "Visa".chars() {
        page.handle_input(Key::Char(c));
    }
    page.handle_input(Key::Char('n'));
    page.handle_input(Key::Backspace);
    assert_eq!(page.new_account.account_name, "Visa");
    assert!(matches!(page.handle_input(Key::Enter), AccountRequest::Nothing));
    page.handle_input(Key::Tab);
    assert_eq!(page.active_field, 1);
    for c in "debit".chars() {
        page.handle_input(Key::Char(c));
    }
    assert_eq!(page.new_account.account_type, "debit");
    page.handle_input(Key::Tab);
    assert_eq!(page.active_field, 0);
    assert!(matches!(page.handle_input(Key::Up), AccountRequest::Nothing));
    assert!(matches!(page.handle_input(Key::Enter), AccountRequest::Create));
    assert!(!page.created(answered(400, "Failed to create new account")));
    assert_eq!(page.message, "Failed to create new account");
    assert!(page.creating_account);
    assert!(!page.created(answered(500, "Database error")));
    assert_eq!(page.message, "Failed to create account: Database error");
    assert!(!page.created(failed("refused")));
    assert_eq!(page.message, "Error creating account: refused");
    assert!(page.created(answered(201, "Successfully created Visa")));
    assert_eq!(page.message, "Account created successfully");
    assert!(!page.creating_account);
    page.handle_input(Key::Char('n'));
    assert_eq!(page.new_account.account_name, "");
    assert_eq!(page.new_account.account_type, "");
    assert!(matches!(page.handle_input(Key::Esc), AccountRequest::Nothing));
    assert!(!page.creating_account);
    assert!(page.deleted(answered(200, "Account successfully deleted")));
    assert_eq!(page.message, "Account deleted successfully");
    assert!(!page.deleted(answered(400, "No such account found for the provided email")));
    assert_eq!(page.message, "Failed to delete account: No such account found for the provided email");
    assert!(!page.deleted(failed("refused")));
    assert_eq!(page.message, "Error deleting account: refused");
}

#[test]
fn the_categories_page_creates_from_its_form() {
    let mut page = CategoryMain::new("a@x.org".to_string());
    assert_eq!(page.message, "Loading categories...");
    assert_eq!(page.fetch_url(), "http://localhost:8000/category_summary?email=a@x.org");
    assert_eq!(
        page.delete_url("Food"),
        "http://localhost:8000/delete_category?email=a@x.org&category_nickname=Food"
    );
    page.handle_input(Key::Char('n'));
    assert!(page.creating_category);
    for (text, field) in [("Food", 0usize), ("need", 1), ("12x", 2), ("weekly", 3)] {
        assert_eq!(page.active_field, field);
        assert!(matches!(page.handle_input(Key::Enter), CategoryRequest::Nothing));
        assert_eq!(page.message, "Please fill in all fields");
        for c in text.chars() {
            page.handle_input(Key::Char(c));
        }
        page.handle_input(Key::Tab);
    }
    assert_eq!(page.active_field, 0);
    assert!(matches!(page.handle_input(Key::Enter), CategoryRequest::Nothing));
    assert_eq!(page.message, "Invalid budget value");
    assert_eq!(page.last_operation_nickname, None);
    page.active_field = 2;
    page.handle_input(Key::Backspace);
    page.handle_input(Key::Char('0'));
    page.handle_input(Key::Char('.'));
    page.handle_input(Key::Char('5'));
    match page.handle_input(Key::Enter) {
        CategoryRequest::Create(created) => {
            assert_eq!(created.email, "a@x.org");
            assert_eq!(created.nickname, "Food");
            assert_eq!(created.category_type, "need");
            assert_eq!(created.budget, Money::from_cents(12050));
            assert_eq!(created.budget_freq, "weekly");
        }
        other => panic!("no creation but {:?}", other),
    }
    assert_eq!(page.last_operation_nickname, Some("Food".to_string()));
    assert!(!page.created(answered(400, "duplicate")));
    assert_eq!(page.message, "duplicate");
    assert!(!page.created(answered(500, "oops")));
    assert_eq!(page.message, "Failed to create category: oops");
    assert!(!page.created(failed("refused")));
    assert_eq!(page.message, "Error creating category: refused");
    assert!(page.creating_category);
    assert_eq!(page.form.nickname, "Food");
    assert!(page.created(answered(201, "Successfully created Food")));
    assert_eq!(page.message, "Category created successfully");
    assert!(!page.creating_category);
    assert_eq!(page.form.nickname, "");
    assert_eq!(page.form.budget, "");
    assert_eq!(page.active_field, 0);
    page.fetched(Fetched::Loaded(vec![category("Rent"), category("Food"), category("Food")]));
    assert_eq!(page.selected, Some(1));
    assert_eq!(page.message, "Loaded 3 categories");
    assert_eq!(page.last_operation_nickname, None);
}

#[test]
fn the_categories_page_lists_deletes_and_updates() {
    let mut page = CategoryMain::new("a@x.org".to_string());
    assert!(matches!(page.handle_input(Key::Char('d')), CategoryRequest::Nothing));
    page.fetched(Fetched::Loaded(vec![category("Rent"), category("Food")]));
    assert_eq!(page.selected, Some(0));
    page.handle_input(Key::Up);
    assert_eq!(page.selected, Some(1));
    match page.handle_input(Key::Char('d')) {
        CategoryRequest::Delete(nickname) => assert_eq!(nickname, "Food"),
        other => panic!("no deletion but {:?}", other),
    }
    assert!(!page.creating_category);
    page.active_field = 2;
    match page.handle_input(Key::Char('u')) {
        CategoryRequest::Delete(nickname) => assert_eq!(nickname, "Food"),
        other => panic!("no deletion but {:?}", other),
    }
    assert!(page.creating_category);
    assert_eq!(page.active_field, 2);
    assert!(matches!(page.handle_input(Key::Esc), CategoryRequest::Nothing));
    assert!(matches!(page.handle_input(Key::Esc), CategoryRequest::Leave));
    page.last_operation_nickname = Some("Gone".to_string());
    page.fetched(Fetched::Loaded(vec![category("Rent")]));
    assert_eq!(page.selected, Some(1));
    assert_eq!(page.last_operation_nickname, None);
    assert_eq!(page.message, "Loaded 1 categories");
    page.selected = None;
    page.fetched(Fetched::Loaded(vec![]));
    assert_eq!(page.selected, None);
    page.last_operation_nickname = Some("Rent".to_string());
    page.fetched(Fetched::Refused);
    assert_eq!(page.message, "Failed to fetch categories");
    assert_eq!(page.last_operation_nickname, Some("Rent".to_string()));
    assert!(page.message_is_alarming());
    page.fetched(Fetched::Unparsable);
    assert_eq!(page.message, "Failed to parse category data");
    page.fetched(Fetched::Failed("down".to_string()));
    assert_eq!(page.message, "Error fetching categories: down");
    assert!(page.deleted(answered(200, "")));
    assert_eq!(page.message, "Category deleted successfully");
    assert!(!page.message_is_alarming());
    assert!(!page.deleted(answered(500, "oops")));
    assert_eq!(page.message, "Failed to delete category: oops");
    assert!(!page.deleted(failed("down")));
    assert_eq!(page.message, "Error deleting category: down");
}

#[test]
fn the_login_page_takes_keys_and_answers() {
    let mut page = LoginPage::new();
    assert_eq!(page.email.label, "Email");
    assert!(page.password.is_password);
    for c in "a@x.org".chars() {
        assert_eq!(page.handle_input(Key::Char(c)), FormRequest::Nothing);
    }
    assert_eq!(page.handle_input(Key::Tab), FormRequest::Nothing);
    assert_eq!(page.active_field, 1);
    page.handle_input(Key::Char('p'));
    page.handle_input(Key::Char('w'));
    page.handle_input(Key::Char('x'));
    page.handle_input(Key::Backspace);
    assert_eq!(page.handle_input(Key::BackTab), FormRequest::Nothing);
    assert_eq!(page.active_field, 0);
    page.handle_input(Key::BackTab);
    assert_eq!(page.active_field, 1);
    page.handle_input(Key::Tab);
    assert_eq!(page.active_field, 0);
    assert_eq!(page.handle_input(Key::Enter), FormRequest::Submit);
    assert_eq!(page.handle_input(Key::Esc), FormRequest::Leave);
    let data = page.submit();
    assert_eq!((data.username.as_str(), data.email.as_str(), data.password.as_str()), ("_login", "a@x.org", "pw"));

    assert_eq!(page.answered(answered(400, "Invalid password"), "400 Bad Request"), None);
    assert_eq!(page.response_message, "Invalid password. Please try again.");
    assert_eq!(page.answered(answered(201, "User successfully registered"), "201 Created"), None);
    assert_eq!(page.response_message, "Email not registered. Please sign up first.");
    assert_eq!(page.answered(answered(500, "Database error"), "500 Internal Server Error"), None);
    assert_eq!(page.response_message, "ERROR_CODE: 500 Internal Server Error\nMessage: Database error");
    assert_eq!(page.answered(answered(200, "welcome"), "200 OK"), None);
    assert_eq!(page.response_message, "ERROR_CODE: 200 OK\nMessage: welcome");
    assert_eq!(page.answered(failed("no route"), ""), None);
    assert_eq!(page.response_message, "Request failed: no route");
    assert_eq!(page.answered(answered(200, "ada Login successful"), "200 OK"), Some("ada".to_string()));
    assert_eq!(page.response_message, "Login successful! Redirecting to homepage...");
    assert_eq!(unknown_answer_text("404 Not Found", "x"), "ERROR_CODE: 404 Not Found\nMessage: x");

    let homepage = page.enter("ada".to_string(), vec!["r1".to_string()], vec!["c1".to_string()], vec![]);
    assert_eq!(homepage.username, "ada");
    assert_eq!(homepage.email, "a@x.org");
    assert_eq!(homepage.report_overview, vec!["r1".to_string()]);
    assert_eq!(homepage.category_overview, vec!["c1".to_string()]);
    assert!(homepage.account_overview.is_empty());
    assert_eq!(page.report_overview, vec!["r1".to_string()]);
}

#[test]
fn the_signup_page_takes_keys_and_answers() {
    let mut page = SignupPage::new();
    for (text, field) in [("ada", 0usize), ("a@x.org", 1), ("pw", 2), ("pv", 3)] {
        assert_eq!(page.active_field, field);
        for c in text.chars() {
            assert_eq!(page.handle_input(Key::Char(c)), FormRequest::Nothing);
        }
        page.handle_input(Key::Tab);
    }
    assert_eq!(page.active_field, 0);
    assert_eq!(page.handle_input(Key::Esc), FormRequest::Nothing);
    assert_eq!(page.handle_input(Key::Enter), FormRequest::Nothing);
    assert_eq!(page.response_message, "Passwords do not match");
    page.handle_input(Key::BackTab);
    assert_eq!(page.active_field, 3);
    page.handle_input(Key::Backspace);
    page.handle_input(Key::Char('w'));
    assert_eq!(page.confirm_password.content, "pw");
    assert_eq!(page.handle_input(Key::Enter), FormRequest::Submit);
    let data = page.submit();
    assert_eq!((data.username.as_str(), data.email.as_str(), data.password.as_str()), ("ada", "a@x.org", "pw"));
    assert!(!page.answered(answered(200, "ada Login successful"), "200 OK"));
    assert_eq!(page.response_message, "Email already registered. Please try another one.");
    assert!(!page.answered(answered(400, "Invalid password"), "400 Bad Request"));
    assert_eq!(page.response_message, "Failed to sign up. Please check your inputs.");
    assert!(!page.answered(answered(409, "Email already registered"), "409 Conflict"));
    assert_eq!(page.response_message, "ERROR_CODE: 409 Conflict\nMessage: Email already registered");
    assert!(!page.answered(answered(200, "hello"), "200 OK"));
    assert_eq!(page.response_message, "ERROR_CODE: 200 OK\nMessage: hello");
    assert!(!page.answered(failed("down"), ""));
    assert_eq!(page.response_message, "Request failed: down");
    assert!(page.answered(answered(201, "User successfully registered"), "201 Created"));
    assert_eq!(page.response_message, "Signup successful! Redirecting to login...");
}

#[test]
fn the_page_for_a_new_transaction_takes_keys_and_answers() {
    let mut page = TransactionCreate::new("a@x.org".to_string());
    for (text, field) in [("Food", 0usize), ("12.5", 1), ("Visa", 2), ("lunch", 3)] {
        assert_eq!(page.active_field, field);
        for c in text.chars() {
            assert_eq!(page.handle_input(Key::Char(c)), FormRequest::Nothing);
        }
        page.handle_input(Key::Tab);
    }
    assert_eq!(page.handle_input(Key::Enter), FormRequest::Submit);
    assert_eq!(page.handle_input(Key::Esc), FormRequest::Leave);
    let data = page.submit();
    assert_eq!(data.email, "a@x.org");
    assert_eq!(data.category_name, "Food");
    assert_eq!(data.amount, Money::from_cents(1250));
    assert_eq!(data.notes, Some("lunch".to_string()));
    assert_eq!(data.account_name, "Visa");
    page.handle_input(Key::BackTab);
    page.handle_input(Key::BackTab);
    page.handle_input(Key::BackTab);
    assert_eq!(page.active_field, 1);
    page.handle_input(Key::Char('x'));
    assert_eq!(page.submit().amount, Money::from_cents(0));
    assert!(!page.answered(answered(400, "No category found for the provided email"), "400 Bad Request"));
    assert_eq!(
        page.response_message,
        "ERROR_CODE: 400 Bad Request\nMessage: No category found for the provided email"
    );
    assert!(!page.answered(failed("down"), ""));
    assert_eq!(page.response_message, "Request failed: down");
    assert!(page.answered(answered(201, "17"), "201 Created"));
    assert_eq!(page.response_message, "Transaction successfully created!");
}

#[test]
fn overviews_have_a_line_for_each_record() {
    assert_eq!(
        get_account_overview(Fetched::Loaded(vec![account("Visa", "credit"), account("Cash", "debit")])),
        vec!["Visa: credit".to_string(), "Cash: debit".to_string()]
    );
    assert_eq!(get_account_overview(Fetched::Loaded(vec![])), Vec::<String>::new());
    assert_eq!(get_account_overview(Fetched::Unparsable), vec!["Error parsing account data".to_string()]);
    assert_eq!(get_account_overview(Fetched::Refused), vec!["Failed to fetch accounts".to_string()]);
    assert_eq!(
        get_account_overview(Fetched::Failed("x".to_string())),
        vec!["Error connecting to server".to_string()]
    );
    assert_eq!(
        get_category_overview(Fetched::Loaded(vec![category("Food")])),
        vec!["Food: need (Budget: $120.5 weekly)".to_string()]
    );
    assert_eq!(get_category_overview(Fetched::Unparsable), vec!["Error parsing category data".to_string()]);
    assert_eq!(get_category_overview(Fetched::Refused), vec!["Failed to fetch categories".to_string()]);
    assert_eq!(
        get_category_overview(Fetched::Failed("x".to_string())),
        vec!["Error connecting to server".to_string()]
    );
    assert_eq!(
        get_report_overview(Fetched::Loaded(vec!["Category Summary:".to_string()])),
        vec!["Category Summary:".to_string()]
    );
    for failure in [Fetched::Unparsable, Fetched::Refused, Fetched::Failed("x".to_string())] {
        assert_eq!(get_report_overview(failure), vec!["Error querying report overview!".to_string()]);
    }
    assert_eq!(report_overview_url("a@x.org"), "http://0.0.0.0:8000/report_overview?email=a@x.org");
    assert_eq!(account_overview_url("a@x.org"), "http://localhost:8000/account_summary?email=a@x.org");
    assert_eq!(category_overview_url("a@x.org"), "http://localhost:8000/category_summary?email=a@x.org");
}

#[test]
fn headings_are_told_from_plain_lines() {
    assert_eq!(line_kind("Category Summary:"), LineKind::CategoryHeading);
    assert_eq!(line_kind("Account Summary:"), LineKind::AccountHeading);
    assert_eq!(line_kind("My Category Summary: and Account Summary:"), LineKind::CategoryHeading);
    assert_eq!(line_kind("Food : 110"), LineKind::Plain);
    assert_eq!(line_kind("Category Summary"), LineKind::Plain);
    assert_eq!(line_kind(""), LineKind::Plain);
    let lines: Vec<String> = ["Category Summary:", "Food : 110", "Account Summary:", "Visa: 3"]
        .iter()
        .map(|line| line.to_string())
        .collect();
    assert_eq!(
        create_lines(&lines),
        vec![LineKind::CategoryHeading, LineKind::Plain, LineKind::AccountHeading, LineKind::Plain]
    );
    assert_eq!(create_lines(&Vec::new()), Vec::<LineKind>::new());
}

#[test]
fn names_stand_in_the_order_of_the_dictionary() {
    assert!(stands_in_order("", ""));
    assert!(stands_in_order("", "a"));
    assert!(!stands_in_order("a", ""));
    assert!(stands_in_order("Food", "Food"));
    assert!(stands_in_order("Food", "Fool"));
    assert!(!stands_in_order("Fool", "Food"));
    assert!(stands_in_order("Foo", "Food"));
    assert!(stands_in_order("Zoo", "apple"));
    let names = ["", "a", "A", "ab", "abc", "b", "Food", "Rent", "food", "ñ", "z", "zz", "é", "日本", "𝄞"];
    for left in names {
        for right in names {
            assert_eq!(stands_in_order(left, right), left <= right);
        }
    }
}

#[test]
fn summaries_are_sorted_by_their_names() {
    let names = ["Rent", "food", "Food", "", "Zoo", "Food", "ñu", "Apple"];
    let mut summaries: Vec<CategorySummary> =
        names.iter().enumerate().map(|(i, name)| summary(name, vec![i as i32], vec!["x"])).collect();
    sort_by_nickname(&mut summaries);
    let sorted: Vec<&str> = summaries.iter().map(|s| s.nickname.as_str()).collect();
    let mut expected = names.to_vec();
    expected.sort();
    assert_eq!(sorted, expected);
    let mut ids: Vec<i32> = summaries.iter().map(|s| s.transaction_idz[0]).collect();
    ids.sort();
    assert_eq!(ids, vec![0, 1, 2, 3, 4, 5, 6, 7]);
    let mut none: Vec<CategorySummary> = Vec::new();
    sort_by_nickname(&mut none);
    assert!(none.is_empty());
}

#[test]
fn the_report_page_shows_its_blocks() {
    assert_eq!(title_block(BudgetFrequency::Weekly, Money::from_cents(10000)), "WEEKLY budget: 100.00");
    assert_eq!(title_block(BudgetFrequency::Daily, Money::from_cents(5)), "DAILY budget: 0.05");
    assert_eq!(title_block(BudgetFrequency::Monthly, Money::from_cents(-150)), "MONTHLY budget: -1.50");
    assert_eq!(title_block(BudgetFrequency::Yearly, Money::from_cents(0)), "YEARLY budget: 0.00");
    assert_eq!(title_block(BudgetFrequency::Other, Money::from_cents(100)), "OTHER budget: 1.00");
    let mut page = ReportMain::new("a@x.org".to_string());
    assert_eq!(page.fetch_url(), "http://localhost:8000/report_details?email=a@x.org");
    assert_eq!(ReportMain::delete_url(17), "http://localhost:8000/delete_trans?trans_id=17");
    page.get_categorical_summary(Fetched::Loaded(vec![
        summary("Rent", vec![7], vec!["d1, 850, "]),
        summary("Food", vec![1, 2], vec!["d2, 40, lunch", "d3, 70, "]),
    ]));
    assert_eq!(page.summary_blocks[0].nickname, "Food");
    assert_eq!(page.summary_blocks[1].nickname, "Rent");
    page.get_categorical_summary(Fetched::Refused);
    page.get_categorical_summary(Fetched::Unparsable);
    page.get_categorical_summary(Fetched::Failed("down".to_string()));
    assert_eq!(page.summary_blocks.len(), 2);
    assert_eq!(page.render_nested_blocks(0), vec!["1: d2, 40, lunch".to_string(), "2: d3, 70, ".to_string()]);
    assert_eq!(page.render_nested_blocks(1), vec!["7: d1, 850, ".to_string()]);
    assert_eq!(page.render_nested_blocks(2), Vec::<String>::new());
    assert_eq!(page.list_states, vec![Some(0), Some(0)]);
    assert_eq!(page.trans_mapping, vec![vec![1, 2], vec![7]]);
}

#[test]
fn the_report_page_takes_keys() {
    let mut page = ReportMain::new("a@x.org".to_string());
    assert_eq!(page.handle_input(Key::Tab), ReportRequest::Nothing);
    assert_eq!(page.active_cat, 0);
    assert_eq!(page.handle_input(Key::Up), ReportRequest::Nothing);
    assert_eq!(page.handle_input(Key::Char('d')), ReportRequest::Nothing);
    page.get_categorical_summary(Fetched::Loaded(vec![
        summary("Food", vec![1, 2, 3], vec!["a", "b", "c"]),
        summary("Rent", vec![7], vec!["d"]),
    ]));
    page.render_nested_blocks(0);
    page.render_nested_blocks(1);
    assert_eq!(page.handle_input(Key::Down), ReportRequest::Nothing);
    assert_eq!(page.list_states, vec![Some(1), Some(0)]);
    assert_eq!(page.handle_input(Key::Char('d')), ReportRequest::Delete(2));
    assert_eq!(page.trans_mapping, vec![vec![1, 3], vec![7]]);
    page.handle_input(Key::Up);
    page.handle_input(Key::Up);
    assert_eq!(page.list_states, vec![Some(2), Some(0)]);
    assert_eq!(page.handle_input(Key::Char('d')), ReportRequest::Nothing);
    assert_eq!(page.handle_input(Key::Tab), ReportRequest::Nothing);
    assert_eq!(page.active_cat, 1);
    page.handle_input(Key::Down);
    assert_eq!(page.list_states, vec![Some(2), Some(0)]);
    assert_eq!(page.handle_input(Key::Char('d')), ReportRequest::Delete(7));
    assert_eq!(page.trans_mapping, vec![vec![1, 3], vec![]]);
    page.handle_input(Key::Tab);
    assert_eq!(page.active_cat, 0);
    assert_eq!(page.handle_input(Key::Esc), ReportRequest::Leave);
    assert_eq!(page.handle_input(Key::Enter), ReportRequest::Nothing);
    assert!(ReportMain::delete_transaction(&answered(200, "")));
    assert!(!ReportMain::delete_transaction(&answered(400, "")));
    assert!(!ReportMain::delete_transaction(&failed("down")));
}

#[test]
fn answers_to_list_requests_are_told_apart() {
    assert!(list_follows(200));
    assert!(!list_follows(201));
    assert!(!list_follows(404));
    assert!(matches!(fetched(200, Some(vec![1, 2])), Fetched::Loaded(rows) if rows == vec![1, 2]));
    assert!(matches!(fetched::<i32>(200, None), Fetched::Unparsable));
    assert!(matches!(fetched(201, Some(vec![1])), Fetched::Refused));
    assert!(matches!(fetched::<i32>(500, None), Fetched::Refused));
    let lines = vec!["Category Summary:".to_string()];
    assert!(matches!(fetched_lines(200, lines.clone()), Fetched::Loaded(sent) if sent == lines));
    assert!(matches!(fetched_lines(299, lines.clone()), Fetched::Loaded(_)));
    assert!(matches!(fetched_lines(199, lines.clone()), Fetched::Refused));
    assert!(matches!(fetched_lines(300, lines.clone()), Fetched::Refused));
    assert!(matches!(fetched_lines(400, Vec::new()), Fetched::Refused));
}
