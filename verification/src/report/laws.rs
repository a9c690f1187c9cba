//! What holds of every report, whatever the transactions and the time.

use vstd::prelude::*;
use crate::frequency::{outside_window, window_of};
use crate::instant::{elapsed_minutes, Instant};
use crate::report::model::{
    category_frequency, category_rows, counted_rows, dated, expected_report, first_seen,
    in_category, in_window, line_of, report_of, sum_of_amounts, EntryView, ReportError, RowView,
    SummaryView,
};
use crate::report::proofs::{lemma_first_seen_exact, lemma_first_seen_push};

verus! {

/// The category of a row.
pub open spec fn nickname_of() -> spec_fn(RowView) -> Seq<char> {
    |row: RowView| row.entry.nickname
}

/// The categories that occur among `rows`.
pub open spec fn categories_of(rows: Seq<RowView>) -> Set<Seq<char>> {
    rows.map_values(nickname_of()).to_set()
}

/// The categories that occur among `entries`.
pub open spec fn categories_among(entries: Seq<EntryView>) -> Set<Seq<char>> {
    entries.map_values(|entry: EntryView| entry.nickname).to_set()
}

/// The rows of the category `name` that pass the window check of that
/// category.
pub open spec fn counts_toward(rows: Seq<RowView>, now: Instant, name: Seq<char>) -> spec_fn(
    RowView,
) -> bool {
    |row: RowView|
        row.entry.nickname == name && !outside_window(
            category_frequency(rows, name),
            elapsed_minutes(now, row.at),
        )
}

/// The categories in order of first appearance are the categories that
/// occur.
proof fn lemma_first_seen_covers(rows: Seq<RowView>)
    ensures
        first_seen(rows).to_set() == categories_of(rows),
    decreases rows.len(),
{
    if rows.len() == 0 {
        assert(first_seen(rows).to_set() =~= categories_of(rows));
    } else {
        let earlier = rows.drop_last();
        let row = rows.last();
        assert(earlier.push(row) =~= rows);
        lemma_first_seen_covers(earlier);
        lemma_first_seen_push(earlier, row);
        earlier.lemma_push_map_commute(nickname_of(), row);
        earlier.map_values(nickname_of()).lemma_push_to_set_commute(row.entry.nickname);
        first_seen(earlier).lemma_push_to_set_commute(row.entry.nickname);
        assert(first_seen(rows).to_set() =~= categories_of(rows));
    }
}

/// Filtering twice keeps what passes both tests.
proof fn lemma_filter_twice(
    rows: Seq<RowView>,
    first: spec_fn(RowView) -> bool,
    second: spec_fn(RowView) -> bool,
    both: spec_fn(RowView) -> bool,
)
    requires
        forall|row: RowView| #[trigger] both(row) == (first(row) && second(row)),
    ensures
        rows.filter(first).filter(second) == rows.filter(both),
    decreases rows.len(),
{
    if rows.len() == 0 {
        rows.lemma_filter_len(first);
        rows.lemma_filter_len(both);
        rows.filter(first).lemma_filter_len(second);
        assert(rows.filter(first).filter(second) =~= rows.filter(both));
    } else {
        let earlier = rows.drop_last();
        let row = rows.last();
        assert(earlier.push(row) =~= rows);
        lemma_filter_twice(earlier, first, second, both);
        earlier.lemma_filter_push(row, first);
        earlier.lemma_filter_push(row, both);
        earlier.filter(first).lemma_filter_push(row, second);
    }
}

/// The report has one summary for each category that occurs among the
/// entries, whether or not any of its transactions counts.
pub proof fn law_one_summary_per_category(entries: Seq<EntryView>, now: Instant)
    requires
        expected_report(entries, now) is Ok,
    ensures
        expected_report(entries, now)->Ok_0.len() == categories_among(entries).len(),
{
    let rows = dated(entries);
    lemma_first_seen_exact(rows);
    lemma_first_seen_covers(rows);
    first_seen(rows).unique_seq_to_set();
    assert(rows.map_values(nickname_of()) =~= entries.map_values(
        |entry: EntryView| entry.nickname,
    ));
}

/// The summaries come in the order in which their categories first appear,
/// each category once.
pub proof fn law_first_seen_order(rows: Seq<RowView>, now: Instant, j: int)
    requires
        0 <= j < report_of(rows, now).len(),
    ensures
        report_of(rows, now).len() == first_seen(rows).len(),
        report_of(rows, now)[j].nickname == first_seen(rows)[j],
        first_seen(rows).no_duplicates(),
        categories_of(rows).contains(first_seen(rows)[j]),
{
    lemma_first_seen_exact(rows);
    lemma_first_seen_covers(rows);
    assert(first_seen(rows).contains(first_seen(rows)[j]));
}

/// In every summary the ids and the lines pair off: there are as many of
/// the one as of the other.
pub proof fn law_ids_pair_with_lines(rows: Seq<RowView>, now: Instant, j: int)
    requires
        0 <= j < report_of(rows, now).len(),
    ensures
        report_of(rows, now)[j].transaction_idz.len() == report_of(rows, now)[j].cat_trans.len(),
{
}

/// The total of a summary is the exact sum of the amounts of the rows of
/// its category that passed the window check, and its ids and lines are
/// those of the same rows, in the order of arrival.
pub proof fn law_total_is_sum_of_counted(rows: Seq<RowView>, now: Instant, j: int)
    requires
        0 <= j < report_of(rows, now).len(),
    ensures
        ({
            let passed = rows.filter(counts_toward(rows, now, first_seen(rows)[j]));
            let summary = report_of(rows, now)[j];
            &&& summary.total == sum_of_amounts(passed)
            &&& summary.transaction_idz == Seq::new(
                passed.len(),
                |k: int| passed[k].entry.transaction_id,
            )
            &&& summary.cat_trans == Seq::new(passed.len(), |k: int| line_of(passed[k].entry))
        }),
{
    let name = first_seen(rows)[j];
    lemma_filter_twice(
        rows,
        in_category(name),
        in_window(category_frequency(rows, name), now),
        counts_toward(rows, now, name),
    );
}

/// Setting the flag anew from the final total and the budget gives the flag
/// of the summary, wherever a transaction counts or the budget is not
/// negative.
pub proof fn law_flag_is_total_over_budget(rows: Seq<RowView>, now: Instant, j: int)
    requires
        0 <= j < report_of(rows, now).len(),
        report_of(rows, now)[j].transaction_idz.len() > 0 || report_of(rows, now)[j].budget >= 0,
    ensures
        report_of(rows, now)[j].overbudget == (report_of(rows, now)[j].total > report_of(
            rows,
            now,
        )[j].budget),
{
    let name = first_seen(rows)[j];
    let counted = counted_rows(rows, now, name);
    if counted.len() == 0 {
        assert(sum_of_amounts(counted) == 0);
    }
}

/// Two reports on the same entries as of the same time are the same report,
/// or the same failure.
pub proof fn law_same_input_same_report(
    entries: Seq<EntryView>,
    now: Instant,
    first: Result<Seq<SummaryView>, ReportError>,
    second: Result<Seq<SummaryView>, ReportError>,
)
    requires
        first == expected_report(entries, now),
        second == expected_report(entries, now),
    ensures
        first == second,
{
}

/// A row that lies back exactly as long as the budget period of its
/// category counts: the period includes its far end.
pub proof fn law_boundary_counts(rows: Seq<RowView>, now: Instant, i: int)
    requires
        0 <= i < rows.len(),
        window_of(category_frequency(rows, rows[i].entry.nickname)) == Some(
            elapsed_minutes(now, rows[i].at),
        ),
    ensures
        counted_rows(rows, now, rows[i].entry.nickname).contains(rows[i]),
{
    let name = rows[i].entry.nickname;
    rows.lemma_filter_contains(in_category(name), i);
    let mine = category_rows(rows, name);
    let at = mine.index_of(rows[i]);
    mine.lemma_filter_contains(in_window(category_frequency(rows, name), now), at);
}

/// A report on no entries is an empty report, and no failure.
pub proof fn law_no_entries_no_summaries(now: Instant)
    ensures
        expected_report(Seq::empty(), now) == Ok::<Seq<SummaryView>, ReportError>(Seq::empty()),
{
    let none = Seq::<EntryView>::empty();
    let rows = dated(none);
    assert(rows =~= Seq::<RowView>::empty());
    assert forall|k: int, name: Seq<char>| 0 <= k <= rows.len() implies #[trigger] sum_of_amounts(
        counted_rows(rows.take(k), now, name),
    ) == 0 by {
        assert(rows.take(k) =~= rows);
        rows.lemma_filter_len(in_category(name));
        category_rows(rows, name).lemma_filter_len(in_window(category_frequency(rows, name), now));
    }
    assert(report_of(rows, now) =~= Seq::<SummaryView>::empty());
}

/// A category of which no row lies inside its budget period is still
/// listed: with nothing spent, not over budget, and without transactions.
pub proof fn law_idle_category_is_listed(rows: Seq<RowView>, now: Instant, i: int)
    requires
        0 <= i < rows.len(),
        counted_rows(rows, now, rows[i].entry.nickname).len() == 0,
    ensures
        exists|j: int|
            0 <= j < report_of(rows, now).len() && {
                let summary = #[trigger] report_of(rows, now)[j];
                &&& summary.nickname == rows[i].entry.nickname
                &&& summary.total == 0
                &&& !summary.overbudget
                &&& summary.transaction_idz.len() == 0
                &&& summary.cat_trans.len() == 0
            },
{
    let name = rows[i].entry.nickname;
    lemma_first_seen_exact(rows);
    rows.lemma_filter_contains(in_category(name), i);
    assert(category_rows(rows, name).len() > 0);
    assert(first_seen(rows).contains(name));
    let j = first_seen(rows).index_of(name);
    assert(report_of(rows, now)[j].nickname == name);
}

} // verus!
