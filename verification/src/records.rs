//! The records that the tracker stores and exchanges.

use vstd::prelude::*;
use vstd::string::*;
use crate::money::{money_text, Money};

verus! {

/// A user of the tracker.
#[derive(Debug)]
pub struct User {
    pub id: i32,
    pub email: String,
    pub password: String,
    pub username: String,
}

/// A user who signs up or logs in.
#[derive(Debug)]
pub struct NewUser {
    pub email: String,
    pub password: String,
    pub username: String,
}

/// An account of a user.
#[derive(Debug)]
pub struct Account {
    pub account_id: i32,
    pub email: String,
    pub account_type: String,
    pub account_name: String,
}

/// An account that is to be created.
#[derive(Debug)]
pub struct NewAccount {
    pub email: String,
    pub account_type: String,
    pub account_name: String,
}

/// A category of a user, with its budget and the name of the period in which
/// the budget renews.
#[derive(Debug)]
pub struct Category {
    pub category_id: i32,
    pub email: String,
    pub nickname: String,
    pub category_type: String,
    pub budget: Money,
    pub budget_freq: String,
}

/// A category that is to be created.
#[derive(Debug)]
pub struct NewCategory {
    pub email: String,
    pub nickname: String,
    pub category_type: String,
    pub budget: Money,
    pub budget_freq: String,
}

/// A transaction as it is stored.
#[derive(Debug)]
pub struct Transaction {
    pub trans_id: i32,
    pub email: String,
    pub category_id: i32,
    pub amount: Money,
    pub notes: Option<String>,
    pub account_id: i32,
    pub transaction_date: String,
}

/// A transaction that is to be stored.
#[derive(Debug)]
pub struct NewTransaction {
    pub email: String,
    pub category_id: i32,
    pub amount: Money,
    pub notes: Option<String>,
    pub account_id: i32,
    pub transaction_date: String,
}

/// A transaction as a client sends it: category and account by name.
#[derive(Debug)]
pub struct ClientTransaction {
    pub email: String,
    pub category_name: String,
    pub amount: Money,
    pub notes: Option<String>,
    pub account_name: String,
}

/// A category to create, as plain values.
pub struct NewCategoryView {
    pub email: Seq<char>,
    pub nickname: Seq<char>,
    pub category_type: Seq<char>,
    pub budget: Money,
    pub budget_freq: Seq<char>,
}

impl View for NewCategory {
    type V = NewCategoryView;

    open spec fn view(&self) -> NewCategoryView {
        NewCategoryView {
            email: self.email@,
            nickname: self.nickname@,
            category_type: self.category_type@,
            budget: self.budget,
            budget_freq: self.budget_freq@,
        }
    }
}

/// A transaction to store, as plain values.
pub struct NewTransactionView {
    pub email: Seq<char>,
    pub category_id: i32,
    pub amount: int,
    pub notes: Option<Seq<char>>,
    pub account_id: i32,
    pub transaction_date: Seq<char>,
}

impl View for NewTransaction {
    type V = NewTransactionView;

    open spec fn view(&self) -> NewTransactionView {
        NewTransactionView {
            email: self.email@,
            category_id: self.category_id,
            amount: self.amount.cents as int,
            notes: match self.notes {
                Some(text) => Some(text@),
                None => None,
            },
            account_id: self.account_id,
            transaction_date: self.transaction_date@,
        }
    }
}

/// The line that lists an account: its name, a colon and its type.
pub open spec fn account_line(name: Seq<char>, kind: Seq<char>) -> Seq<char> {
    name + seq![':', ' '] + kind
}

/// The line that lists a category: its name, its type, and in brackets its
/// budget and the period of the budget.
pub open spec fn category_line(
    nickname: Seq<char>,
    kind: Seq<char>,
    budget: int,
    period: Seq<char>,
) -> Seq<char> {
    nickname + seq![':', ' '] + kind + " (Budget: $"@ + money_text(budget) + seq![' '] + period
        + seq![')']
}

impl Account {
    /// The line that lists the account.
    pub fn line(&self) -> (line: String)
        ensures
            line@ == account_line(self.account_name@, self.account_type@),
    {
        proof {
            reveal_strlit(": ");
        }
        let mut line = self.account_name.clone();
        line.append(": ");
        line.append(self.account_type.as_str());
        assert(line@ =~= account_line(self.account_name@, self.account_type@));
        line
    }
}

impl Category {
    /// The line that lists the category.
    pub fn line(&self) -> (line: String)
        ensures
            line@ == category_line(
                self.nickname@,
                self.category_type@,
                self.budget.cents as int,
                self.budget_freq@,
            ),
    {
        proof {
            reveal_strlit(": ");
            reveal_strlit(" ");
            reveal_strlit(")");
        }
        let mut line = self.nickname.clone();
        line.append(": ");
        line.append(self.category_type.as_str());
        line.append(" (Budget: $");
        let budget = self.budget.render();
        line.append(budget.as_str());
        line.append(" ");
        line.append(self.budget_freq.as_str());
        line.append(")");
        assert(line@ =~= category_line(
            self.nickname@,
            self.category_type@,
            self.budget.cents as int,
            self.budget_freq@,
        ));
        line
    }
}

} // verus!
