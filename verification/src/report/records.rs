//! The records that go into the report and those that come out of it.

use vstd::prelude::*;
use crate::frequency::BudgetFrequency;
use crate::instant::Instant;
use crate::money::Money;
use crate::report::model::{EntryView, ReportError, RowView, SummaryView};
use crate::text::text_views;

verus! {

/// One transaction joined with the category it belongs to, as the store
/// hands it out: the date is still text.
#[derive(Debug)]
pub struct SummaryEntry {
    pub nickname: String,
    pub budget: Money,
    pub budget_freq: BudgetFrequency,
    pub transaction_date: String,
    pub amount: Money,
    pub notes: Option<String>,
    pub transaction_id: i32,
}

/// A transaction whose date has been read.
#[derive(Debug)]
pub struct TransactionRow {
    pub entry: SummaryEntry,
    pub at: Instant,
}

/// What the report says of one category.
#[derive(Debug)]
pub struct CategorySummary {
    pub nickname: String,
    pub budget: Money,
    pub budget_freq: BudgetFrequency,
    pub overbudget: bool,
    pub total: Money,
    /// The ids of the transactions that count, in the order of `cat_trans`.
    pub transaction_idz: Vec<i32>,
    /// One line for each transaction that counts.
    pub cat_trans: Vec<String>,
}

/// The characters of optional notes.
pub open spec fn notes_view(notes: Option<String>) -> Option<Seq<char>> {
    match notes {
        Some(text) => Some(text@),
        None => None,
    }
}

impl View for SummaryEntry {
    type V = EntryView;

    open spec fn view(&self) -> EntryView {
        EntryView {
            nickname: self.nickname@,
            budget: self.budget.cents as int,
            budget_freq: self.budget_freq,
            transaction_date: self.transaction_date@,
            amount: self.amount.cents as int,
            notes: notes_view(self.notes),
            transaction_id: self.transaction_id,
        }
    }
}

impl View for TransactionRow {
    type V = RowView;

    open spec fn view(&self) -> RowView {
        RowView { entry: self.entry@, at: self.at }
    }
}

impl View for CategorySummary {
    type V = SummaryView;

    open spec fn view(&self) -> SummaryView {
        SummaryView {
            nickname: self.nickname@,
            budget: self.budget.cents as int,
            budget_freq: self.budget_freq,
            overbudget: self.overbudget,
            total: self.total.cents as int,
            transaction_idz: self.transaction_idz@,
            cat_trans: text_views(self.cat_trans@),
        }
    }
}

/// The plain values of each entry.
pub open spec fn entry_views(entries: Seq<SummaryEntry>) -> Seq<EntryView> {
    Seq::new(entries.len(), |i: int| entries[i]@)
}

/// The plain values of each row.
pub open spec fn row_views(rows: Seq<TransactionRow>) -> Seq<RowView> {
    Seq::new(rows.len(), |i: int| rows[i]@)
}

/// The plain values of each summary.
pub open spec fn summary_views(summaries: Seq<CategorySummary>) -> Seq<SummaryView> {
    Seq::new(summaries.len(), |i: int| summaries[i]@)
}

/// The plain values of the outcome of a report.
pub open spec fn report_view(out: Result<Vec<CategorySummary>, ReportError>) -> Result<
    Seq<SummaryView>,
    ReportError,
> {
    match out {
        Ok(summaries) => Ok(summary_views(summaries@)),
        Err(error) => Err(error),
    }
}

impl Clone for SummaryEntry {
    fn clone(&self) -> (copy: SummaryEntry)
        ensures
            copy@ == self@,
    {
        let notes = match &self.notes {
            Some(text) => Some(text.clone()),
            None => None,
        };
        SummaryEntry {
            nickname: self.nickname.clone(),
            budget: self.budget,
            budget_freq: self.budget_freq,
            transaction_date: self.transaction_date.clone(),
            amount: self.amount,
            notes,
            transaction_id: self.transaction_id,
        }
    }
}

} // verus!
