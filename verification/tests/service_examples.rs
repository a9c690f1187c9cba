use fintrak::frequency::BudgetFrequency;
use fintrak::instant::Instant;
use fintrak::money::Money;
use fintrak::records::{
    Account, Category, ClientTransaction, NewAccount, NewCategory, NewUser, Transaction, User,
};
use fintrak::report::records::SummaryEntry;
use fintrak::service::account_handler::{
    account_deleted, account_inserted, account_summary_loaded, account_user_checked,
    create_account_found, delete_account_found, handle_account_create, handle_delete_account,
    AccountStep,
};
use fintrak::service::auth_handler::{handle_signup, signup_inserted, signup_user_checked, SignupStep};
use fintrak::service::category_handler::{
    budget_value, category_deleted, category_inserted, category_summary_loaded,
    category_updated, category_user_checked, create_category_found, delete_category_found,
    handle_category_create, handle_category_update, handle_delete_category,
    update_category_found, CategoryStep, ValidCategoryFields,
};
use fintrak::service::report_handler::{
    handle_report_details, handle_report_overview, report_details_loaded, IdTotal, OverviewRun,
    OverviewStep,
};
use fintrak::service::status::{list_reply, Loaded, Lookup, Reply, Status, Written};
use fintrak::service::transaction_handler::{
    account_summary_found, add_account_checked, add_category_checked, add_user_checked,
    category_summary_found, check_account_name, check_category_name, check_email_valid,
    delete_transaction_found, handle_add_transaction, handle_delete_transaction,
    transaction_deleted, transaction_inserted, transactions_loaded, ListStep, TransactionStep,
};

fn user() -> User {
    User { id: 1, email: "a@x.org".to_string(), password: "pw".to_string(), username: "ada".to_string() }
}

fn account(id: i32) -> Account {
    Account {
        account_id: id,
        email: "a@x.org".to_string(),
        account_type: "debit".to_string(),
        account_name: "Visa".to_string(),
    }
}

fn category(id: i32) -> Category {
    Category {
        category_id: id,
        email: "a@x.org".to_string(),
        nickname: "Food".to_string(),
        category_type: "need".to_string(),
        budget: Money::from_cents(10000),
        budget_freq: "weekly".to_string(),
    }
}

fn transaction(id: i32) -> Transaction {
    Transaction {
        trans_id: id,
        email: "a@x.org".to_string(),
        category_id: 2,
        amount: Money::from_cents(500),
        notes: None,
        account_id: 3,
        transaction_date: "2024-11-30 12:00:00 UTC".to_string(),
    }
}

fn reply(status: Status, body: &str) -> (Status, String) {
    (status, body.to_string())
}

fn said(reply: Reply) -> (Status, String) {
    (reply.status, reply.body)
}

fn account_answer(step: AccountStep) -> (Status, String) {
    match step {
        AccountStep::Answer(reply) => said(reply),
        other => panic!("no answer but {:?}", other),
    }
}

fn category_answer(step: CategoryStep) -> (Status, String) {
    match step {
        CategoryStep::Answer(reply) => said(reply),
        other => panic!("no answer but {:?}", other),
    }
}

fn transaction_answer(step: TransactionStep) -> (Status, String) {
    match step {
        TransactionStep::Answer(reply) => said(reply),
        other => panic!("no answer but {:?}", other),
    }
}

fn signup_answer(step: SignupStep) -> (Status, String) {
    match step {
        SignupStep::Answer(reply) => said(reply),
        other => panic!("no answer but {:?}", other),
    }
}

#[test]
fn statuses_have_their_codes() {
    assert_eq!(Status::Success.code(), 200);
    assert_eq!(Status::Created.code(), 201);
    assert_eq!(Status::BadRequest.code(), 400);
    assert_eq!(Status::Conflict.code(), 409);
    assert_eq!(Status::InternalServerError.code(), 500);
    assert_eq!(said(Reply::new(Status::Conflict, "x")), reply(Status::Conflict, "x"));
}

#[test]
fn lists_pass_through_or_fail() {
    assert_eq!(list_reply(Loaded::Rows(vec![1, 2])), (Status::Success, vec![1, 2]));
    assert_eq!(list_reply(Loaded::<i32>::QueryFailed), (Status::InternalServerError, vec![]));
    assert_eq!(list_reply(Loaded::<i32>::TaskFailed), (Status::InternalServerError, vec![]));
    let (status, rows) = account_summary_loaded(Loaded::Rows(vec![account(1), account(2)]));
    assert_eq!((status, rows.len(), rows[1].account_id), (Status::Success, 2, 2));
    let (status, rows) = category_summary_loaded(Loaded::QueryFailed);
    assert_eq!((status, rows.len()), (Status::InternalServerError, 0));
    let (status, rows) = transactions_loaded(Loaded::Rows(vec![transaction(4)]));
    assert_eq!((status, rows[0].trans_id), (Status::Success, 4));
}

#[test]
fn deleting_an_account_goes_step_by_step() {
    assert_eq!(account_answer(handle_delete_account("", "Visa")), reply(Status::BadRequest, "Invalid input"));
    assert_eq!(account_answer(handle_delete_account("a@x.org", "")), reply(Status::BadRequest, "Invalid input"));
    assert!(matches!(handle_delete_account("a@x.org", "Visa"), AccountStep::FindUser));
    assert!(matches!(account_user_checked(Lookup::Found(user())), AccountStep::FindAccount));
    assert_eq!(
        account_answer(account_user_checked(Lookup::Missing)),
        reply(Status::BadRequest, "No user found for the provided email")
    );
    assert_eq!(
        account_answer(account_user_checked(Lookup::QueryFailed)),
        reply(Status::InternalServerError, "Database error")
    );
    assert_eq!(
        account_answer(account_user_checked(Lookup::TaskFailed)),
        reply(Status::InternalServerError, "Internal server error")
    );
    assert!(matches!(delete_account_found(Lookup::Found(account(7))), AccountStep::Delete(7)));
    assert_eq!(
        account_answer(delete_account_found(Lookup::Missing)),
        reply(Status::BadRequest, "No such account found for the provided email")
    );
    assert_eq!(
        account_answer(delete_account_found(Lookup::QueryFailed)),
        reply(Status::InternalServerError, "Database error")
    );
    assert_eq!(
        account_answer(delete_account_found(Lookup::TaskFailed)),
        reply(Status::InternalServerError, "Internal server error")
    );
    assert_eq!(said(account_deleted(Written::Rows(1))), reply(Status::Success, "Account successfully deleted"));
    assert_eq!(
        said(account_deleted(Written::Rows(0))),
        reply(Status::InternalServerError, "Failed to delete the account")
    );
    assert_eq!(
        said(account_deleted(Written::QueryFailed)),
        reply(Status::InternalServerError, "Database error during deletion")
    );
    assert_eq!(
        said(account_deleted(Written::TaskFailed)),
        reply(Status::InternalServerError, "Internal server error")
    );
}

#[test]
fn creating_an_account_goes_step_by_step() {
    let new_account = |email: &str, kind: &str, name: &str| NewAccount {
        email: email.to_string(),
        account_type: kind.to_string(),
        account_name: name.to_string(),
    };
    for incomplete in [new_account("", "debit", "Visa"), new_account("a", "", "Visa"), new_account("a", "debit", "")] {
        assert_eq!(account_answer(handle_account_create(&incomplete)), reply(Status::BadRequest, "Invalid input"));
    }
    let complete = new_account("a@x.org", "debit", "Visa");
    assert!(matches!(handle_account_create(&complete), AccountStep::FindUser));
    assert!(matches!(create_account_found(Lookup::Missing), AccountStep::Insert));
    assert_eq!(
        account_answer(create_account_found(Lookup::Found(account(1)))),
        reply(Status::BadRequest, "Failed to create new account")
    );
    assert_eq!(
        account_answer(create_account_found(Lookup::QueryFailed)),
        reply(Status::InternalServerError, "Database error")
    );
    assert_eq!(
        account_answer(create_account_found(Lookup::TaskFailed)),
        reply(Status::InternalServerError, "Internal server error")
    );
    assert_eq!(
        said(account_inserted(&complete, Written::Rows(1))),
        reply(Status::Created, "Successfully created Visa")
    );
    assert_eq!(
        said(account_inserted(&complete, Written::QueryFailed)),
        reply(Status::InternalServerError, "Database error")
    );
    assert_eq!(
        said(account_inserted(&complete, Written::TaskFailed)),
        reply(Status::InternalServerError, "Internal server error")
    );
    assert_eq!(fintrak::service::account_handler::handle_account_summary(""), Some(Status::BadRequest));
    assert_eq!(fintrak::service::account_handler::handle_account_summary("a@x.org"), None);
}

#[test]
fn signing_up_registers_or_logs_in() {
    let new_user = |email: &str, password: &str| NewUser {
        email: email.to_string(),
        password: password.to_string(),
        username: "newcomer".to_string(),
    };
    assert_eq!(signup_answer(handle_signup(&new_user("", "pw"))), reply(Status::BadRequest, "Invalid input"));
    assert_eq!(signup_answer(handle_signup(&new_user("a@x.org", ""))), reply(Status::BadRequest, "Invalid input"));
    assert!(matches!(handle_signup(&new_user("a@x.org", "pw")), SignupStep::FindUser));
    assert_eq!(
        signup_answer(signup_user_checked(&new_user("a@x.org", "pw"), Lookup::Found(user()))),
        reply(Status::Success, "ada Login successful")
    );
    assert_eq!(
        signup_answer(signup_user_checked(&new_user("a@x.org", "wrong"), Lookup::Found(user()))),
        reply(Status::BadRequest, "Invalid password")
    );
    assert!(matches!(signup_user_checked(&new_user("a@x.org", "pw"), Lookup::Missing), SignupStep::Insert));
    assert_eq!(
        signup_answer(signup_user_checked(&new_user("a@x.org", "pw"), Lookup::QueryFailed)),
        reply(Status::InternalServerError, "Database error")
    );
    assert_eq!(
        signup_answer(signup_user_checked(&new_user("a@x.org", "pw"), Lookup::TaskFailed)),
        reply(Status::InternalServerError, "Internal server error")
    );
    assert_eq!(said(signup_inserted(Written::Rows(1))), reply(Status::Created, "User successfully registered"));
    assert_eq!(said(signup_inserted(Written::Duplicate)), reply(Status::Conflict, "Email already registered"));
    assert_eq!(
        said(signup_inserted(Written::QueryFailed)),
        reply(Status::InternalServerError, "Failed to register user")
    );
    assert_eq!(
        said(signup_inserted(Written::TaskFailed)),
        reply(Status::InternalServerError, "Internal server error")
    );
}

#[test]
fn creating_and_deleting_a_category_goes_step_by_step() {
    let new_category = |email: &str, nickname: &str, kind: &str, freq: &str| NewCategory {
        email: email.to_string(),
        nickname: nickname.to_string(),
        category_type: kind.to_string(),
        budget: Money::from_cents(100),
        budget_freq: freq.to_string(),
    };
    for incomplete in [
        new_category("", "Food", "need", "weekly"),
        new_category("a", "", "need", "weekly"),
        new_category("a", "Food", "", "weekly"),
        new_category("a", "Food", "need", ""),
    ] {
        assert_eq!(category_answer(handle_category_create(&incomplete)), reply(Status::BadRequest, "Invalid input"));
    }
    let complete = new_category("a@x.org", "Food", "need", "weekly");
    assert!(matches!(handle_category_create(&complete), CategoryStep::FindUser));
    assert!(matches!(category_user_checked(Lookup::Found(user())), CategoryStep::FindCategory));
    assert_eq!(
        category_answer(category_user_checked(Lookup::Missing)),
        reply(Status::BadRequest, "No user found for the provided email")
    );
    assert_eq!(
        category_answer(category_user_checked(Lookup::QueryFailed)),
        reply(Status::InternalServerError, "Database error")
    );
    assert_eq!(
        category_answer(category_user_checked(Lookup::TaskFailed)),
        reply(Status::InternalServerError, "Internal server error")
    );
    assert!(matches!(create_category_found(Lookup::Missing), CategoryStep::Insert));
    assert_eq!(
        category_answer(create_category_found(Lookup::Found(category(1)))),
        reply(Status::BadRequest, "Failed to create new category: duplicate nicknames")
    );
    assert_eq!(
        said(category_inserted(&complete, Written::Rows(1))),
        reply(Status::Created, "Successfully created Food")
    );
    assert_eq!(
        said(category_inserted(&complete, Written::TaskFailed)),
        reply(Status::InternalServerError, "Internal server error")
    );
    assert_eq!(
        said(category_inserted(&complete, Written::QueryFailed)),
        reply(Status::InternalServerError, "Database error")
    );

    assert_eq!(category_answer(handle_delete_category("", "Food")), reply(Status::BadRequest, "Invalid input"));
    assert_eq!(category_answer(handle_delete_category("a", "")), reply(Status::BadRequest, "Invalid input"));
    assert!(matches!(handle_delete_category("a", "Food"), CategoryStep::FindUser));
    assert!(matches!(delete_category_found(Lookup::Found(category(9))), CategoryStep::Delete(9)));
    assert_eq!(
        category_answer(delete_category_found(Lookup::Missing)),
        reply(Status::BadRequest, "No such category found for the provided email")
    );
    assert_eq!(said(category_deleted(Written::Rows(2))), reply(Status::Success, "Category successfully deleted"));
    assert_eq!(
        said(category_deleted(Written::Rows(0))),
        reply(Status::InternalServerError, "Failed to delete the category")
    );
    assert_eq!(
        said(category_deleted(Written::QueryFailed)),
        reply(Status::InternalServerError, "Database error during deletion")
    );
    assert_eq!(fintrak::service::category_handler::handle_category_summary(""), Some(Status::BadRequest));
    assert_eq!(fintrak::service::category_handler::handle_category_summary("a"), None);
}

#[test]
fn changing_a_category_goes_step_by_step() {
    assert_eq!(ValidCategoryFields::from_str("nickname"), Ok(ValidCategoryFields::Name));
    assert_eq!(ValidCategoryFields::from_str("category_type"), Ok(ValidCategoryFields::Type));
    assert_eq!(ValidCategoryFields::from_str("budget"), Ok(ValidCategoryFields::Budget));
    assert_eq!(ValidCategoryFields::from_str("budget_freq"), Ok(ValidCategoryFields::Freq));
    assert_eq!(ValidCategoryFields::from_str("email"), Err(()));
    assert_eq!(ValidCategoryFields::from_str(""), Err(()));
    assert!(matches!(handle_category_update("budget"), CategoryStep::FindUser));
    assert_eq!(
        category_answer(handle_category_update("colour")),
        reply(Status::BadRequest, "Invalid field specified.")
    );
    assert!(matches!(
        update_category_found(ValidCategoryFields::Budget, Lookup::Found(category(1))),
        CategoryStep::Update(ValidCategoryFields::Budget)
    ));
    assert_eq!(
        category_answer(update_category_found(ValidCategoryFields::Name, Lookup::Missing)),
        reply(Status::BadRequest, "Failed to update category: unable to match existing entry")
    );
    assert_eq!(
        category_answer(update_category_found(ValidCategoryFields::Name, Lookup::QueryFailed)),
        reply(Status::InternalServerError, "Database error")
    );
    assert_eq!(budget_value("12.5"), Some(Money::from_cents(1250)));
    assert_eq!(budget_value("a lot"), None);
    assert_eq!(
        said(category_updated("Food", "budget", "12.5", Written::Rows(1))),
        reply(Status::Created, "Successfully updated category Food field budget to 12.5")
    );
    assert_eq!(
        said(category_updated("Food", "budget", "12.5", Written::QueryFailed)),
        reply(Status::InternalServerError, "Database error")
    );
    assert_eq!(
        said(category_updated("Food", "budget", "12.5", Written::TaskFailed)),
        reply(Status::InternalServerError, "Internal server error")
    );
}

#[test]
fn lookups_are_checked() {
    assert_eq!(check_email_valid(Lookup::Found(user())), reply(Status::Success, "a@x.org"));
    assert_eq!(
        check_email_valid(Lookup::Missing),
        reply(Status::BadRequest, "No user found for the provided email")
    );
    assert_eq!(check_email_valid(Lookup::QueryFailed), reply(Status::InternalServerError, "Database error"));
    assert_eq!(
        check_email_valid(Lookup::TaskFailed),
        reply(Status::InternalServerError, "Internal server error")
    );
    assert_eq!(check_category_name(Lookup::Found(category(5))), (Status::Success, 5));
    assert_eq!(check_category_name(Lookup::Missing), (Status::BadRequest, 0));
    assert_eq!(check_category_name(Lookup::QueryFailed), (Status::InternalServerError, 0));
    assert_eq!(check_account_name(Lookup::Found(account(6))), (Status::Success, 6));
    assert_eq!(check_account_name(Lookup::Missing), (Status::BadRequest, 0));
    assert_eq!(check_account_name(Lookup::TaskFailed), (Status::InternalServerError, 0));
    assert_eq!(fintrak::service::report_handler::check_email_valid(Lookup::Found(user())), reply(Status::Success, "a@x.org"));
    assert_eq!(fintrak::service::report_handler::check_category_name(Lookup::Found(category(5))), reply(Status::Success, "Food"));
    assert_eq!(fintrak::service::report_handler::check_category_name(Lookup::Missing), reply(Status::BadRequest, ""));
    assert_eq!(fintrak::service::report_handler::check_category_name(Lookup::TaskFailed), reply(Status::InternalServerError, ""));
    assert_eq!(fintrak::service::report_handler::check_account_name(Lookup::Found(account(6))), reply(Status::Success, "Visa"));
    assert_eq!(fintrak::service::report_handler::check_account_name(Lookup::Missing), reply(Status::BadRequest, ""));
    assert_eq!(fintrak::service::report_handler::check_account_name(Lookup::QueryFailed), reply(Status::InternalServerError, ""));
}

fn client_transaction(email: &str, category: &str) -> ClientTransaction {
    ClientTransaction {
        email: email.to_string(),
        category_name: category.to_string(),
        amount: Money::from_cents(1250),
        notes: Some("lunch".to_string()),
        account_name: "Visa".to_string(),
    }
}

#[test]
fn adding_a_transaction_goes_step_by_step() {
    assert_eq!(
        transaction_answer(handle_add_transaction(&client_transaction("", "Food"))),
        reply(Status::BadRequest, "Invalid input")
    );
    let request = client_transaction("a@x.org", "Food");
    assert!(matches!(handle_add_transaction(&request), TransactionStep::FindUser));
    assert!(matches!(add_user_checked(&request, Lookup::Found(user())), TransactionStep::FindCategory));
    for failed in [Lookup::Missing, Lookup::QueryFailed, Lookup::TaskFailed] {
        assert_eq!(
            transaction_answer(add_user_checked(&request, failed)),
            reply(Status::BadRequest, "No user found for the provided email")
        );
    }
    assert_eq!(
        transaction_answer(add_user_checked(&client_transaction("a@x.org", ""), Lookup::Found(user()))),
        reply(Status::BadRequest, "No category found for the provided email")
    );
    assert!(matches!(add_category_checked(Lookup::Found(category(5))), TransactionStep::FindAccount(5)));
    for failed in [Lookup::Missing, Lookup::QueryFailed, Lookup::TaskFailed] {
        assert_eq!(
            transaction_answer(add_category_checked(failed)),
            reply(Status::BadRequest, "No category found for the provided email")
        );
    }
    match add_account_checked(request, 5, Lookup::Found(account(6)), "2024-11-30 12:00:00 UTC".to_string()) {
        TransactionStep::Insert(stored) => {
            assert_eq!(stored.email, "a@x.org");
            assert_eq!(stored.category_id, 5);
            assert_eq!(stored.amount, Money::from_cents(1250));
            assert_eq!(stored.notes, Some("lunch".to_string()));
            assert_eq!(stored.account_id, 6);
            assert_eq!(stored.transaction_date, "2024-11-30 12:00:00 UTC");
        }
        other => panic!("no insert but {:?}", other),
    }
    for failed in [Lookup::Missing, Lookup::QueryFailed, Lookup::TaskFailed] {
        assert_eq!(
            transaction_answer(add_account_checked(client_transaction("a", "Food"), 5, failed, String::new())),
            reply(Status::BadRequest, "No account found for the provided email")
        );
    }
    assert_eq!(said(transaction_inserted(Loaded::Rows(vec![17, 18]))), reply(Status::Created, "17"));
    assert_eq!(said(transaction_inserted(Loaded::Rows(vec![-3]))), reply(Status::Created, "-3"));
    for failed in [Loaded::Rows(vec![]), Loaded::QueryFailed, Loaded::TaskFailed] {
        assert_eq!(said(transaction_inserted(failed)), reply(Status::InternalServerError, "Database error"));
    }
}

#[test]
fn deleting_a_transaction_goes_step_by_step() {
    assert_eq!(
        transaction_answer(handle_delete_transaction("")),
        reply(Status::BadRequest, "Invalid input")
    );
    assert!(matches!(handle_delete_transaction("17"), TransactionStep::FindTransaction(17)));
    assert!(matches!(handle_delete_transaction("-4"), TransactionStep::FindTransaction(-4)));
    assert!(matches!(handle_delete_transaction("seventeen"), TransactionStep::Malformed));
    assert!(matches!(handle_delete_transaction("99999999999"), TransactionStep::Malformed));
    assert!(matches!(delete_transaction_found(17, Lookup::Found(transaction(17))), TransactionStep::Delete(17)));
    assert_eq!(
        transaction_answer(delete_transaction_found(17, Lookup::Missing)),
        reply(Status::BadRequest, "No transaction found for the provided ID")
    );
    assert_eq!(
        transaction_answer(delete_transaction_found(17, Lookup::QueryFailed)),
        reply(Status::InternalServerError, "Database error")
    );
    assert_eq!(
        transaction_answer(delete_transaction_found(17, Lookup::TaskFailed)),
        reply(Status::InternalServerError, "Internal server error")
    );
    assert_eq!(
        said(transaction_deleted(Written::Rows(1))),
        reply(Status::Success, "Transaction successfully deleted")
    );
    assert_eq!(
        said(transaction_deleted(Written::Rows(0))),
        reply(Status::InternalServerError, "Failed to delete the transaction")
    );
    assert_eq!(
        said(transaction_deleted(Written::QueryFailed)),
        reply(Status::InternalServerError, "Database error during deletion")
    );
    assert_eq!(
        said(transaction_deleted(Written::TaskFailed)),
        reply(Status::InternalServerError, "Internal server error")
    );
}

#[test]
fn listing_transactions_goes_step_by_step() {
    assert_eq!(fintrak::service::transaction_handler::handle_category_summary("Food", Lookup::Found(user())), ListStep::FindOwner);
    assert_eq!(fintrak::service::transaction_handler::handle_category_summary("", Lookup::Found(user())), ListStep::Refuse(Status::BadRequest));
    assert_eq!(fintrak::service::transaction_handler::handle_category_summary("Food", Lookup::Missing), ListStep::Refuse(Status::BadRequest));
    assert_eq!(fintrak::service::transaction_handler::handle_category_summary("Food", Lookup::QueryFailed), ListStep::Refuse(Status::BadRequest));
    assert_eq!(category_summary_found(Lookup::Found(category(5))), ListStep::Load(5));
    assert_eq!(category_summary_found(Lookup::Missing), ListStep::Refuse(Status::BadRequest));
    assert_eq!(category_summary_found(Lookup::TaskFailed), ListStep::Refuse(Status::BadRequest));
    assert_eq!(fintrak::service::transaction_handler::handle_account_summary(Lookup::Found(user())), ListStep::FindOwner);
    assert_eq!(fintrak::service::transaction_handler::handle_account_summary(Lookup::Missing), ListStep::Refuse(Status::BadRequest));
    assert_eq!(account_summary_found(Lookup::Found(account(6))), ListStep::Load(6));
    assert_eq!(account_summary_found(Lookup::QueryFailed), ListStep::Refuse(Status::BadRequest));
}

fn overview_answer(step: OverviewStep) -> (Status, Vec<String>) {
    match step {
        OverviewStep::Answer(status, lines) => (status, lines),
        other => panic!("no answer but {:?}", other),
    }
}

fn id_total(id: i32, cents: Option<i64>) -> IdTotal {
    IdTotal { id, total: cents.map(Money::from_cents) }
}

#[test]
fn the_overview_is_made_name_by_name() {
    assert!(matches!(handle_report_overview(Lookup::Found(user())), OverviewStep::LoadCategoryTotals));
    for failed in [Lookup::Missing, Lookup::QueryFailed, Lookup::TaskFailed] {
        assert_eq!(overview_answer(handle_report_overview(failed)), (Status::BadRequest, vec![]));
    }
    let mut run = OverviewRun::new();
    let categories = vec![id_total(4, None), id_total(5, Some(11000)), id_total(6, None), id_total(7, Some(-250))];
    assert!(matches!(run.totals_loaded(Loaded::Rows(categories)), OverviewStep::NameCategory(5)));
    assert!(matches!(run.named(Status::Success, "Food".to_string()), OverviewStep::NameCategory(7)));
    assert!(matches!(run.named(Status::Success, "Rent".to_string()), OverviewStep::LoadAccountTotals));
    let accounts = vec![id_total(1, Some(10750)), id_total(2, None)];
    assert!(matches!(run.totals_loaded(Loaded::Rows(accounts)), OverviewStep::NameAccount(1)));
    assert_eq!(
        overview_answer(run.named(Status::Success, "Visa".to_string())),
        (
            Status::Success,
            vec![
                "Category Summary:".to_string(),
                "Food : 110".to_string(),
                "Rent : -2.5".to_string(),
                "Account Summary:".to_string(),
                "Visa: 107.5".to_string(),
            ]
        )
    );
}

#[test]
fn an_overview_of_nothing_has_its_two_headings() {
    let mut run = OverviewRun::new();
    assert!(matches!(run.totals_loaded(Loaded::Rows(vec![])), OverviewStep::LoadAccountTotals));
    assert_eq!(
        overview_answer(run.totals_loaded(Loaded::Rows(vec![id_total(1, None)]))),
        (Status::Success, vec!["Category Summary:".to_string(), "Account Summary:".to_string()])
    );
}

#[test]
fn the_overview_fails_with_the_store_and_without_a_name() {
    let mut run = OverviewRun::new();
    assert_eq!(overview_answer(run.totals_loaded(Loaded::QueryFailed)), (Status::InternalServerError, vec![]));
    assert_eq!(overview_answer(run.totals_loaded(Loaded::TaskFailed)), (Status::InternalServerError, vec![]));
    assert_eq!(
        overview_answer(run.named(Status::Success, "Food".to_string())),
        (Status::InternalServerError, vec![])
    );
    assert!(matches!(run.totals_loaded(Loaded::Rows(vec![id_total(5, Some(1))])), OverviewStep::NameCategory(5)));
    assert_eq!(overview_answer(run.named(Status::BadRequest, String::new())), (Status::BadRequest, vec![]));
    assert_eq!(
        overview_answer(run.named(Status::InternalServerError, String::new())),
        (Status::BadRequest, vec![])
    );
    assert!(matches!(run.named(Status::Success, "Food".to_string()), OverviewStep::LoadAccountTotals));
    assert_eq!(overview_answer(run.totals_loaded(Loaded::TaskFailed)), (Status::InternalServerError, vec![]));
}

#[test]
fn the_report_is_answered_or_fails() {
    assert_eq!(handle_report_details(Lookup::Found(user())), None);
    assert_eq!(handle_report_details(Lookup::Missing), Some(Status::BadRequest));
    assert_eq!(handle_report_details(Lookup::TaskFailed), Some(Status::BadRequest));
    let now = Instant::parse("2024-11-30T12:00:00Z").unwrap();
    let row = |date: &str| SummaryEntry {
        nickname: "Food".to_string(),
        budget: Money::from_cents(10000),
        budget_freq: BudgetFrequency::Weekly,
        transaction_date: date.to_string(),
        amount: Money::from_cents(4000),
        notes: None,
        transaction_id: 1,
    };
    let (status, report) = report_details_loaded(Loaded::Rows(vec![row("2024-11-30T11:00:00Z")]), now);
    assert_eq!(status, Status::Success);
    assert_eq!(report.len(), 1);
    assert_eq!(report[0].total, Money::from_cents(4000));
    let (status, report) = report_details_loaded(Loaded::Rows(vec![row("no date")]), now);
    assert_eq!((status, report.len()), (Status::InternalServerError, 0));
    let (status, report) = report_details_loaded(Loaded::QueryFailed, now);
    assert_eq!((status, report.len()), (Status::InternalServerError, 0));
    let (status, report) = report_details_loaded(Loaded::TaskFailed, now);
    assert_eq!((status, report.len()), (Status::InternalServerError, 0));
    let (status, report) = report_details_loaded(Loaded::Rows(vec![]), now);
    assert_eq!((status, report.len()), (Status::Success, 0));
}
