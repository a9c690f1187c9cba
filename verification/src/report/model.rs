//! What the spending report is, stated over plain sequences: which
//! categories it lists, in what order, and what it says of each.

use vstd::prelude::*;
use crate::frequency::{outside_window, BudgetFrequency};
use crate::instant::{elapsed_minutes, parsed_instant, Instant};
use crate::money::money_text;

verus! {

/// One transaction joined with its category, as plain values.
pub struct EntryView {
    pub nickname: Seq<char>,
    pub budget: int,
    pub budget_freq: BudgetFrequency,
    pub transaction_date: Seq<char>,
    pub amount: int,
    pub notes: Option<Seq<char>>,
    pub transaction_id: i32,
}

/// A transaction together with the instant that its date denotes.
pub struct RowView {
    pub entry: EntryView,
    pub at: Instant,
}

/// What the report says of one category, as plain values.
pub struct SummaryView {
    pub nickname: Seq<char>,
    pub budget: int,
    pub budget_freq: BudgetFrequency,
    pub overbudget: bool,
    pub total: int,
    pub transaction_idz: Seq<i32>,
    pub cat_trans: Seq<Seq<char>>,
}

/// Why no report could be made.
#[derive(Clone, Copy, Debug, PartialEq, Eq, Structural)]
pub enum ReportError {
    /// The date of some transaction cannot be read.
    InputError,
    /// The total of some category left the range of amounts that can be held.
    AggregationFailure,
}

/// The rows that belong to the category `name`.
pub open spec fn in_category(name: Seq<char>) -> spec_fn(RowView) -> bool {
    |row: RowView| row.entry.nickname == name
}

/// The rows that lie inside the period of `frequency` that ends at `now`.
pub open spec fn in_window(frequency: BudgetFrequency, now: Instant) -> spec_fn(RowView) -> bool {
    |row: RowView| !outside_window(frequency, elapsed_minutes(now, row.at))
}

/// The rows of one category, in the order of arrival.
pub open spec fn category_rows(rows: Seq<RowView>, name: Seq<char>) -> Seq<RowView> {
    rows.filter(in_category(name))
}

/// The budget period of a category: that of its first row.
pub open spec fn category_frequency(rows: Seq<RowView>, name: Seq<char>) -> BudgetFrequency {
    category_rows(rows, name)[0].entry.budget_freq
}

/// The budget of a category: that of its first row.
pub open spec fn category_budget(rows: Seq<RowView>, name: Seq<char>) -> int {
    category_rows(rows, name)[0].entry.budget
}

/// The rows of one category that count toward its budget: those inside the
/// category's budget period, in the order of arrival.
pub open spec fn counted_rows(rows: Seq<RowView>, now: Instant, name: Seq<char>) -> Seq<RowView> {
    category_rows(rows, name).filter(in_window(category_frequency(rows, name), now))
}

/// The sum of the amounts of `rows`.
pub open spec fn sum_of_amounts(rows: Seq<RowView>) -> int
    decreases rows.len(),
{
    if rows.len() == 0 {
        0
    } else {
        sum_of_amounts(rows.drop_last()) + rows.last().entry.amount
    }
}

/// The text that stands for missing notes.
pub open spec fn notes_text(notes: Option<Seq<char>>) -> Seq<char> {
    match notes {
        Some(text) => text,
        None => Seq::empty(),
    }
}

/// The line that the report shows for a transaction: its date, its amount
/// and its notes, separated by a comma and a space.
pub open spec fn line_of(entry: EntryView) -> Seq<char> {
    entry.transaction_date + seq![',', ' '] + money_text(entry.amount) + seq![',', ' ']
        + notes_text(entry.notes)
}

/// The category names of `rows`, each once, in the order of first
/// appearance.
pub open spec fn first_seen(rows: Seq<RowView>) -> Seq<Seq<char>>
    decreases rows.len(),
{
    if rows.len() == 0 {
        Seq::empty()
    } else {
        let earlier = first_seen(rows.drop_last());
        if earlier.contains(rows.last().entry.nickname) {
            earlier
        } else {
            earlier.push(rows.last().entry.nickname)
        }
    }
}

/// The summary of a category with the given budget and period, of which
/// the rows `counted` count: their sum, whether it exceeds the budget, and
/// for each row its id and its line. A category of which no row counts
/// is not over budget.
pub open spec fn summarized(
    name: Seq<char>,
    budget: int,
    frequency: BudgetFrequency,
    counted: Seq<RowView>,
) -> SummaryView {
    SummaryView {
        nickname: name,
        budget,
        budget_freq: frequency,
        overbudget: counted.len() > 0 && sum_of_amounts(counted) > budget,
        total: sum_of_amounts(counted),
        transaction_idz: Seq::new(counted.len(), |k: int| counted[k].entry.transaction_id),
        cat_trans: Seq::new(counted.len(), |k: int| line_of(counted[k].entry)),
    }
}

/// What the report says of the category `name`: the budget and the period
/// of its first row, and the rows that lie inside that period.
pub open spec fn summary_of(rows: Seq<RowView>, now: Instant, name: Seq<char>) -> SummaryView {
    summarized(
        name,
        category_budget(rows, name),
        category_frequency(rows, name),
        counted_rows(rows, now, name),
    )
}

/// A summary after one more transaction was counted: the total grows by its
/// amount, the flag is set anew, and its id and line are added at the end.
pub open spec fn recorded(summary: SummaryView, entry: EntryView) -> SummaryView {
    SummaryView {
        overbudget: summary.total + entry.amount > summary.budget,
        total: summary.total + entry.amount,
        transaction_idz: summary.transaction_idz.push(entry.transaction_id),
        cat_trans: summary.cat_trans.push(line_of(entry)),
        ..summary
    }
}

/// The report: one summary for each category, in the order of first
/// appearance.
pub open spec fn report_of(rows: Seq<RowView>, now: Instant) -> Seq<SummaryView> {
    Seq::new(first_seen(rows).len(), |j: int| summary_of(rows, now, first_seen(rows)[j]))
}

/// Whether an amount can be held in hundredths.
pub open spec fn representable(cents: int) -> bool {
    i64::MIN <= cents <= i64::MAX
}

/// Whether every running total stays representable: after each row, the
/// total of each category.
pub open spec fn totals_fit(rows: Seq<RowView>, now: Instant) -> bool {
    forall|k: int, name: Seq<char>|
        0 <= k <= rows.len() ==> representable(
            #[trigger] sum_of_amounts(counted_rows(rows.take(k), now, name)),
        )
}

/// Whether the date of every entry can be read.
pub open spec fn dates_readable(entries: Seq<EntryView>) -> bool {
    forall|i: int| 0 <= i < entries.len() ==> parsed_instant(#[trigger] entries[i].transaction_date) is Some
}

/// The entries, each with the instant that its date denotes.
pub open spec fn dated(entries: Seq<EntryView>) -> Seq<RowView> {
    Seq::new(
        entries.len(),
        |i: int| RowView { entry: entries[i], at: parsed_instant(entries[i].transaction_date)->0 },
    )
}

/// What summing up `rows` gives: the report, unless a running total leaves
/// the range of amounts that can be held.
pub open spec fn expected_summaries(rows: Seq<RowView>, now: Instant) -> Result<
    Seq<SummaryView>,
    ReportError,
> {
    if totals_fit(rows, now) {
        Ok(report_of(rows, now))
    } else {
        Err(ReportError::AggregationFailure)
    }
}

/// What a report on `entries` gives: `InputError` if some date cannot be
/// read, else what summing up the dated entries gives.
pub open spec fn expected_report(entries: Seq<EntryView>, now: Instant) -> Result<
    Seq<SummaryView>,
    ReportError,
> {
    if dates_readable(entries) {
        expected_summaries(dated(entries), now)
    } else {
        Err(ReportError::InputError)
    }
}

} // verus!
