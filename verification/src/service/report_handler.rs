//! What the service decides when the overview or the report is asked for.

use vstd::prelude::*;
use vstd::string::*;
use crate::instant::Instant;
use crate::money::Money;
use crate::overview::{build_flat_overview, overview_of, total_views, NamedTotal, NamedTotalView};
use crate::records::{Account, Category, User};
use crate::report::aggregate::build_category_report;
use crate::report::model::{expected_report, SummaryView};
use crate::report::records::{entry_views, summary_views, CategorySummary, SummaryEntry};
use crate::service::status::{Loaded, Lookup, Status};
use crate::service::transaction_handler::lookup_status;
use crate::text::text_views;

verus! {

/// Whether there is a user with the email that was looked up: the status,
/// and the email of the user or the text of the refusal.
pub fn check_email_valid(found: Lookup<User>) -> (checked: (Status, String))
    ensures
        checked.0 == lookup_status(found),
        checked.1@ == match found {
            Lookup::Found(user) => user.email@,
            Lookup::Missing => "No user found for the provided email"@,
            Lookup::QueryFailed => "Database error"@,
            Lookup::TaskFailed => "Internal server error"@,
        },
{
    crate::service::transaction_handler::check_email_valid(found)
}

/// Whether the user has a category with the id that was looked up: the
/// status, and the nickname of the category or no text.
pub fn check_category_name(found: Lookup<Category>) -> (checked: (Status, String))
    ensures
        checked.0 == lookup_status(found),
        checked.1@ == match found {
            Lookup::Found(category) => category.nickname@,
            _ => Seq::<char>::empty(),
        },
{
    match found {
        Lookup::Found(category) => (Status::Success, category.nickname),
        Lookup::Missing => (Status::BadRequest, String::new()),
        _ => (Status::InternalServerError, String::new()),
    }
}

/// Whether the user has an account with the id that was looked up: the
/// status, and the name of the account or no text.
pub fn check_account_name(found: Lookup<Account>) -> (checked: (Status, String))
    ensures
        checked.0 == lookup_status(found),
        checked.1@ == match found {
            Lookup::Found(account) => account.account_name@,
            _ => Seq::<char>::empty(),
        },
{
    match found {
        Lookup::Found(account) => (Status::Success, account.account_name),
        Lookup::Missing => (Status::BadRequest, String::new()),
        _ => (Status::InternalServerError, String::new()),
    }
}

/// The sum of the transactions of the category or the account with the
/// given id; `None` where it has no transaction.
#[derive(Clone, Copy, Debug, PartialEq, Eq)]
pub struct IdTotal {
    pub id: i32,
    pub total: Option<Money>,
}

/// What comes next while the overview is made.
#[derive(Debug)]
pub enum OverviewStep {
    /// Ask the store for the total of each category of the user.
    LoadCategoryTotals,
    /// Ask the store for the category with this id.
    NameCategory(i32),
    /// Ask the store for the total of each account of the user.
    LoadAccountTotals,
    /// Ask the store for the account with this id.
    NameAccount(i32),
    /// Answer the request with this status and these lines.
    Answer(Status, Vec<String>),
}

/// A step as plain values.
pub enum OverviewStepView {
    LoadCategoryTotals,
    NameCategory(i32),
    LoadAccountTotals,
    NameAccount(i32),
    Answer(Status, Seq<Seq<char>>),
}

impl View for OverviewStep {
    type V = OverviewStepView;

    open spec fn view(&self) -> OverviewStepView {
        match self {
            OverviewStep::LoadCategoryTotals => OverviewStepView::LoadCategoryTotals,
            OverviewStep::NameCategory(id) => OverviewStepView::NameCategory(*id),
            OverviewStep::LoadAccountTotals => OverviewStepView::LoadAccountTotals,
            OverviewStep::NameAccount(id) => OverviewStepView::NameAccount(*id),
            OverviewStep::Answer(status, lines) => OverviewStepView::Answer(
                *status,
                text_views(lines@),
            ),
        }
    }
}

/// The overview in the making: the totals that have their names, and those
/// of the section at work that wait for theirs.
#[derive(Debug)]
pub struct OverviewRun {
    pub categories: Vec<NamedTotal>,
    pub accounts: Vec<NamedTotal>,
    /// The totals of the section at work, by id.
    pub pending: Vec<IdTotal>,
    /// How many of `pending` are done with.
    pub next: usize,
    /// Whether the section at work is that of the accounts.
    pub on_accounts: bool,
}

/// An overview in the making, as plain values.
pub struct OverviewRunView {
    pub categories: Seq<NamedTotalView>,
    pub accounts: Seq<NamedTotalView>,
    pub pending: Seq<IdTotal>,
    pub next: usize,
    pub on_accounts: bool,
}

impl View for OverviewRun {
    type V = OverviewRunView;

    open spec fn view(&self) -> OverviewRunView {
        OverviewRunView {
            categories: total_views(self.categories@),
            accounts: total_views(self.accounts@),
            pending: self.pending@,
            next: self.next,
            on_accounts: self.on_accounts,
        }
    }
}

/// The answer that refuses a request: the status and no lines.
pub open spec fn refusal(status: Status) -> OverviewStepView {
    OverviewStepView::Answer(status, Seq::empty())
}

/// The place of the first total from `from` on that has a transaction, or
/// the number of totals if there is none.
pub open spec fn next_to_name(pending: Seq<IdTotal>, from: int) -> int
    decreases pending.len() - from,
{
    if from < 0 || from >= pending.len() {
        pending.len() as int
    } else if pending[from].total is Some {
        from
    } else {
        next_to_name(pending, from + 1)
    }
}

/// How the making goes on from where it stands: with the name of the next
/// total that has a transaction; past the last category, with the totals
/// of the accounts; past the last account, with the answer, which is the
/// overview of all that was named.
pub open spec fn proceeded(run: OverviewRunView) -> (OverviewRunView, OverviewStepView) {
    let stop = next_to_name(run.pending, run.next as int);
    if stop < run.pending.len() {
        (
            OverviewRunView { next: stop as usize, ..run },
            if run.on_accounts {
                OverviewStepView::NameAccount(run.pending[stop].id)
            } else {
                OverviewStepView::NameCategory(run.pending[stop].id)
            },
        )
    } else if !run.on_accounts {
        (
            OverviewRunView { next: stop as usize, on_accounts: true, ..run },
            OverviewStepView::LoadAccountTotals,
        )
    } else {
        (
            OverviewRunView { next: stop as usize, ..run },
            OverviewStepView::Answer(Status::Success, overview_of(run.categories, run.accounts)),
        )
    }
}

/// Whether the making waits for the name of a total.
pub open spec fn awaits_name(run: OverviewRunView) -> bool {
    run.next < run.pending.len() && run.pending[run.next as int].total is Some
}

/// The answer that refuses a request.
fn refuse(status: Status) -> (step: OverviewStep)
    ensures
        step@ == refusal(status),
{
    let lines: Vec<String> = Vec::new();
    assert(text_views(lines@) =~= Seq::empty());
    OverviewStep::Answer(status, lines)
}

/// The first step of the overview, after the user was looked up: for a user
/// that is there the totals of the categories are loaded.
pub fn handle_report_overview(user: Lookup<User>) -> (step: OverviewStep)
    ensures
        step@ == if user is Found {
            OverviewStepView::LoadCategoryTotals
        } else {
            refusal(Status::BadRequest)
        },
{
    let (status, _) = check_email_valid(user);
    if status != Status::Success {
        refuse(Status::BadRequest)
    } else {
        OverviewStep::LoadCategoryTotals
    }
}

impl OverviewRun {
    /// An overview of which nothing is made yet.
    pub fn new() -> (run: OverviewRun)
        ensures
            run@ == (OverviewRunView {
                categories: Seq::empty(),
                accounts: Seq::empty(),
                pending: Seq::empty(),
                next: 0,
                on_accounts: false,
            }),
    {
        let run = OverviewRun {
            categories: Vec::new(),
            accounts: Vec::new(),
            pending: Vec::new(),
            next: 0,
            on_accounts: false,
        };
        assert(run@.categories =~= Seq::empty());
        assert(run@.accounts =~= Seq::empty());
        run
    }

    /// Goes on from where the making stands.
    fn proceed(&mut self) -> (step: OverviewStep)
        ensures
            (final(self)@, step@) == proceeded(old(self)@),
    {
        let ghost start = self.next;
        while self.next < self.pending.len() && self.pending[self.next].total.is_none()
            invariant
                self.pending == old(self).pending,
                self.categories == old(self).categories,
                self.accounts == old(self).accounts,
                self.on_accounts == old(self).on_accounts,
                next_to_name(self.pending@, self.next as int) == next_to_name(
                    self.pending@,
                    start as int,
                ),
                start == old(self).next,
            decreases self.pending.len() - self.next,
        {
            self.next += 1;
        }
        if self.next > self.pending.len() {
            self.next = self.pending.len();
        }
        if self.next < self.pending.len() {
            let id = self.pending[self.next].id;
            if self.on_accounts {
                OverviewStep::NameAccount(id)
            } else {
                OverviewStep::NameCategory(id)
            }
        } else if !self.on_accounts {
            self.on_accounts = true;
            OverviewStep::LoadAccountTotals
        } else {
            OverviewStep::Answer(
                Status::Success,
                build_flat_overview(&self.categories, &self.accounts),
            )
        }
    }

    /// Takes in the totals of the section at work, as the store gave them:
    /// where the store failed the request is refused, else the making goes
    /// on with these totals.
    pub fn totals_loaded(&mut self, loaded: Loaded<IdTotal>) -> (step: OverviewStep)
        ensures
            match loaded {
                Loaded::Rows(totals) => (final(self)@, step@) == proceeded(
                    OverviewRunView { pending: totals@, next: 0, ..old(self)@ },
                ),
                _ => final(self)@ == old(self)@ && step@ == refusal(Status::InternalServerError),
            },
    {
        match loaded {
            Loaded::Rows(totals) => {
                self.pending = totals;
                self.next = 0;
                self.proceed()
            },
            _ => refuse(Status::InternalServerError),
        }
    }

    /// Takes in the name of the total that waits for one, as the lookup
    /// gave it: without a name the request is refused, with it the total
    /// joins its section and the making goes on behind it. Where no total
    /// waits for a name, the request fails.
    pub fn named(&mut self, status: Status, name: String) -> (step: OverviewStep)
        ensures
            !awaits_name(old(self)@) ==> final(self)@ == old(self)@ && step@ == refusal(
                Status::InternalServerError,
            ),
            awaits_name(old(self)@) && status != Status::Success ==> final(self)@ == old(self)@
                && step@ == refusal(Status::BadRequest),
            awaits_name(old(self)@) && status == Status::Success ==> (final(self)@, step@)
                == proceeded(with_name(old(self)@, name@)),
    {
        if self.next >= self.pending.len() {
            return refuse(Status::InternalServerError);
        }
        let total = self.pending[self.next].total;
        if total.is_none() {
            return refuse(Status::InternalServerError);
        }
        if status != Status::Success {
            return refuse(Status::BadRequest);
        }
        let ghost before = self@;
        let entry = NamedTotal { name, total };
        if self.on_accounts {
            self.accounts.push(entry);
            assert(self@.accounts =~= with_name(before, name@).accounts);
        } else {
            self.categories.push(entry);
            assert(self@.categories =~= with_name(before, name@).categories);
        }
        self.next += 1;
        self.proceed()
    }
}

/// The making after the total that waited got its name.
pub open spec fn with_name(run: OverviewRunView, name: Seq<char>) -> OverviewRunView {
    let entry = NamedTotalView {
        name,
        total: match run.pending[run.next as int].total {
            Some(sum) => Some(sum.cents as int),
            None => None,
        },
    };
    if run.on_accounts {
        OverviewRunView { accounts: run.accounts.push(entry), next: (run.next + 1) as usize, ..run }
    } else {
        OverviewRunView {
            categories: run.categories.push(entry),
            next: (run.next + 1) as usize,
            ..run
        }
    }
}

/// What a request for the report is answered with before the store is
/// asked for the transactions, after the user was looked up: without a
/// user that is there it is refused.
pub fn handle_report_details(user: Lookup<User>) -> (refused: Option<Status>)
    ensures
        refused == if user is Found {
            None
        } else {
            Some(Status::BadRequest)
        },
{
    let (status, _) = check_email_valid(user);
    if status != Status::Success {
        Some(Status::BadRequest)
    } else {
        None
    }
}

/// The summaries that a request for the report is answered with.
pub open spec fn details_of(loaded: Loaded<SummaryEntry>, now: Instant) -> Option<Seq<SummaryView>> {
    match loaded {
        Loaded::Rows(rows) => match expected_report(entry_views(rows@), now) {
            Ok(summaries) => Some(summaries),
            Err(_) => None,
        },
        _ => None,
    }
}

/// What a request for the report is answered with after the store was
/// asked for the transactions: the report as of `now` under the status
/// `Success`; no summaries under `InternalServerError` where the store
/// failed or no report can be made.
pub fn report_details_loaded(loaded: Loaded<SummaryEntry>, now: Instant) -> (reply: (
    Status,
    Vec<CategorySummary>,
))
    ensures
        match details_of(loaded, now) {
            Some(summaries) => reply.0 == Status::Success && summary_views(reply.1@) == summaries,
            None => reply.0 == Status::InternalServerError && reply.1@.len() == 0,
        },
{
    match loaded {
        Loaded::Rows(rows) => match build_category_report(&rows, now) {
            Ok(summaries) => (Status::Success, summaries),
            Err(_) => (Status::InternalServerError, Vec::new()),
        },
        _ => (Status::InternalServerError, Vec::new()),
    }
}

} // verus!
