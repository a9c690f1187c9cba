//! The overviews of the home page: their lines, and how each line is shown.

use vstd::prelude::*;
use vstd::string::*;
use crate::client::http::Fetched;
use crate::records::{account_line, category_line, Account, Category};
use crate::text::{contains_text, joined, occurs_in, text_views};

verus! {

/// The lines of the accounts, one for each account.
pub open spec fn account_lines(accounts: Seq<Account>) -> Seq<Seq<char>> {
    Seq::new(
        accounts.len(),
        |i: int| account_line(accounts[i].account_name@, accounts[i].account_type@),
    )
}

/// The lines of the categories, one for each category.
pub open spec fn category_lines(categories: Seq<Category>) -> Seq<Seq<char>> {
    Seq::new(
        categories.len(),
        |i: int|
            category_line(
                categories[i].nickname@,
                categories[i].category_type@,
                categories[i].budget.cents as int,
                categories[i].budget_freq@,
            ),
    )
}

/// The one line that stands for an overview that could not be had.
fn single_line(text: &str) -> (lines: Vec<String>)
    ensures
        text_views(lines@) == seq![text@],
{
    let mut lines: Vec<String> = Vec::new();
    lines.push(String::from_str(text));
    assert(text_views(lines@) =~= seq![text@]);
    lines
}

/// The overview of the accounts: a line for each account that the service
/// listed, or one line that says why there is no list.
pub fn get_account_overview(outcome: Fetched<Account>) -> (lines: Vec<String>)
    ensures
        text_views(lines@) == match outcome {
            Fetched::Loaded(accounts) => account_lines(accounts@),
            Fetched::Unparsable => seq!["Error parsing account data"@],
            Fetched::Refused => seq!["Failed to fetch accounts"@],
            Fetched::Failed(_) => seq!["Error connecting to server"@],
        },
{
    match outcome {
        Fetched::Loaded(accounts) => {
            let mut lines: Vec<String> = Vec::new();
            let mut i: usize = 0;
            while i < accounts.len()
                invariant
                    i <= accounts.len(),
                    lines@.len() == i,
                    forall|j: int| 0 <= j < i ==> lines@[j]@ == account_lines(accounts@)[j],
                decreases accounts.len() - i,
            {
                lines.push(accounts[i].line());
                i += 1;
            }
            assert(text_views(lines@) =~= account_lines(accounts@));
            lines
        },
        Fetched::Unparsable => single_line("Error parsing account data"),
        Fetched::Refused => single_line("Failed to fetch accounts"),
        Fetched::Failed(_) => single_line("Error connecting to server"),
    }
}

/// The overview of the categories: a line for each category that the
/// service listed, or one line that says why there is no list.
pub fn get_category_overview(outcome: Fetched<Category>) -> (lines: Vec<String>)
    ensures
        text_views(lines@) == match outcome {
            Fetched::Loaded(categories) => category_lines(categories@),
            Fetched::Unparsable => seq!["Error parsing category data"@],
            Fetched::Refused => seq!["Failed to fetch categories"@],
            Fetched::Failed(_) => seq!["Error connecting to server"@],
        },
{
    match outcome {
        Fetched::Loaded(categories) => {
            let mut lines: Vec<String> = Vec::new();
            let mut i: usize = 0;
            while i < categories.len()
                invariant
                    i <= categories.len(),
                    lines@.len() == i,
                    forall|j: int| 0 <= j < i ==> lines@[j]@ == category_lines(categories@)[j],
                decreases categories.len() - i,
            {
                lines.push(categories[i].line());
                i += 1;
            }
            assert(text_views(lines@) =~= category_lines(categories@));
            lines
        },
        Fetched::Unparsable => single_line("Error parsing category data"),
        Fetched::Refused => single_line("Failed to fetch categories"),
        Fetched::Failed(_) => single_line("Error connecting to server"),
    }
}

/// The overview of the report: the lines that the service sent, or one line
/// that says that there are none.
pub fn get_report_overview(outcome: Fetched<String>) -> (lines: Vec<String>)
    ensures
        match outcome {
            Fetched::Loaded(sent) => lines == sent,
            _ => text_views(lines@) == seq!["Error querying report overview!"@],
        },
{
    match outcome {
        Fetched::Loaded(sent) => sent,
        _ => single_line("Error querying report overview!"),
    }
}

/// Where to ask for the overview of the report of a user.
pub fn report_overview_url(email: &str) -> (url: String)
    ensures
        url@ == "http://0.0.0.0:8000/report_overview?email="@ + email@,
{
    joined("http://0.0.0.0:8000/report_overview?email=", email)
}

/// Where to ask for the accounts of a user.
pub fn account_overview_url(email: &str) -> (url: String)
    ensures
        url@ == "http://localhost:8000/account_summary?email="@ + email@,
{
    joined("http://localhost:8000/account_summary?email=", email)
}

/// Where to ask for the categories of a user.
pub fn category_overview_url(email: &str) -> (url: String)
    ensures
        url@ == "http://localhost:8000/category_summary?email="@ + email@,
{
    joined("http://localhost:8000/category_summary?email=", email)
}

/// How a line of an overview is shown.
#[derive(Clone, Copy, Debug, PartialEq, Eq, Structural)]
pub enum LineKind {
    /// The heading of the categories: bold, in magenta on white.
    CategoryHeading,
    /// The heading of the accounts: bold, in light blue on white.
    AccountHeading,
    /// Any other line: in black.
    Plain,
}

/// How a line is shown: as a heading if it holds the words of one, those of
/// the categories going first.
pub open spec fn kind_of(line: Seq<char>) -> LineKind {
    if occurs_in(line, "Category Summary:"@) {
        LineKind::CategoryHeading
    } else if occurs_in(line, "Account Summary:"@) {
        LineKind::AccountHeading
    } else {
        LineKind::Plain
    }
}

/// How a line is shown.
pub fn line_kind(line: &str) -> (kind: LineKind)
    ensures
        kind == kind_of(line@),
{
    if contains_text(line, "Category Summary:") {
        LineKind::CategoryHeading
    } else if contains_text(line, "Account Summary:") {
        LineKind::AccountHeading
    } else {
        LineKind::Plain
    }
}

/// How each line of an overview is shown.
pub fn create_lines(summary_lines: &Vec<String>) -> (kinds: Vec<LineKind>)
    ensures
        kinds@.len() == summary_lines@.len(),
        forall|i: int| 0 <= i < kinds@.len() ==> kinds@[i] == kind_of(summary_lines@[i]@),
{
    let mut kinds: Vec<LineKind> = Vec::new();
    let mut i: usize = 0;
    while i < summary_lines.len()
        invariant
            i <= summary_lines.len(),
            kinds@.len() == i,
            forall|j: int| 0 <= j < i ==> kinds@[j] == kind_of(summary_lines@[j]@),
        decreases summary_lines.len() - i,
    {
        kinds.push(line_kind(summary_lines[i].as_str()));
        i += 1;
    }
    kinds
}

} // verus!
