//! How the report of a sequence of rows changes when one more row arrives.

use vstd::prelude::*;
use crate::instant::Instant;
use crate::report::model::{
    category_budget, category_frequency, category_rows, counted_rows, first_seen, in_category,
    in_window, recorded, sum_of_amounts, summarized, summary_of, RowView,
};
use crate::frequency::BudgetFrequency;

verus! {

/// A row that arrives last is listed last, and only if its category is new.
pub proof fn lemma_first_seen_push(rows: Seq<RowView>, row: RowView)
    ensures
        first_seen(rows.push(row)) == if first_seen(rows).contains(row.entry.nickname) {
            first_seen(rows)
        } else {
            first_seen(rows).push(row.entry.nickname)
        },
{
    assert(rows.push(row).drop_last() =~= rows);
}

/// A row joins the rows of its own category and of no other.
pub proof fn lemma_category_rows_push(rows: Seq<RowView>, row: RowView, name: Seq<char>)
    ensures
        category_rows(rows.push(row), name) == if row.entry.nickname == name {
            category_rows(rows, name).push(row)
        } else {
            category_rows(rows, name)
        },
{
    rows.lemma_filter_push(row, in_category(name));
}

/// A category is listed exactly if it has a row, and it is listed once.
pub proof fn lemma_first_seen_exact(rows: Seq<RowView>)
    ensures
        first_seen(rows).no_duplicates(),
        forall|name: Seq<char>| #[trigger]
            first_seen(rows).contains(name) <==> category_rows(rows, name).len() > 0,
    decreases rows.len(),
{
    if rows.len() == 0 {
        assert forall|name: Seq<char>| #[trigger]
            first_seen(rows).contains(name) <==> category_rows(rows, name).len() > 0 by {
            rows.lemma_filter_len(in_category(name));
        }
    } else {
        let earlier = rows.drop_last();
        let row = rows.last();
        assert(earlier.push(row) =~= rows);
        lemma_first_seen_exact(earlier);
        lemma_first_seen_push(earlier, row);
        assert forall|name: Seq<char>| #[trigger]
            first_seen(rows).contains(name) <==> category_rows(rows, name).len() > 0 by {
            lemma_category_rows_push(earlier, row, name);
            assert(first_seen(earlier).contains(name) <==> category_rows(earlier, name).len() > 0);
            if first_seen(earlier).contains(row.entry.nickname) {
            } else {
                let grown = first_seen(earlier).push(row.entry.nickname);
                if name == row.entry.nickname {
                    assert(grown[grown.len() - 1] == name);
                } else if first_seen(earlier).contains(name) {
                    let at = first_seen(earlier).index_of(name);
                    assert(grown[at] == name);
                } else if grown.contains(name) {
                    let at = grown.index_of(name);
                    assert(first_seen(earlier)[at] == name);
                }
            }
        }
    }
}

/// The sum grows by the amount of a row that joins.
pub proof fn lemma_sum_push(rows: Seq<RowView>, row: RowView)
    ensures
        sum_of_amounts(rows.push(row)) == sum_of_amounts(rows) + row.entry.amount,
{
    assert(rows.push(row).drop_last() =~= rows);
}

/// A row of another category leaves a category's summary as it was.
pub proof fn lemma_summary_of_other(rows: Seq<RowView>, row: RowView, now: Instant, name: Seq<char>)
    requires
        row.entry.nickname != name,
    ensures
        summary_of(rows.push(row), now, name) == summary_of(rows, now, name),
        counted_rows(rows.push(row), now, name) == counted_rows(rows, now, name),
{
    lemma_category_rows_push(rows, row, name);
}

/// The first row of a category opens it: it sets budget and period, and
/// counts if it lies inside that period.
pub proof fn lemma_counted_rows_open(rows: Seq<RowView>, row: RowView, now: Instant)
    requires
        category_rows(rows, row.entry.nickname).len() == 0,
    ensures
        category_budget(rows.push(row), row.entry.nickname) == row.entry.budget,
        category_frequency(rows.push(row), row.entry.nickname) == row.entry.budget_freq,
        counted_rows(rows.push(row), now, row.entry.nickname) == if in_window(
            row.entry.budget_freq,
            now,
        )(row) {
            seq![row]
        } else {
            Seq::empty()
        },
{
    let name = row.entry.nickname;
    lemma_category_rows_push(rows, row, name);
    let mine = category_rows(rows, name);
    assert(mine =~= Seq::empty());
    let keep = in_window(row.entry.budget_freq, now);
    Seq::<RowView>::empty().lemma_filter_push(row, keep);
    Seq::<RowView>::empty().lemma_filter_len(keep);
    assert(Seq::<RowView>::empty().filter(keep) =~= Seq::empty());
    assert(Seq::<RowView>::empty().push(row) =~= seq![row]);
}

/// A later row of a category leaves budget and period as they were, and
/// counts if it lies inside the period.
pub proof fn lemma_counted_rows_extend(rows: Seq<RowView>, row: RowView, now: Instant)
    requires
        category_rows(rows, row.entry.nickname).len() > 0,
    ensures
        category_budget(rows.push(row), row.entry.nickname) == category_budget(
            rows,
            row.entry.nickname,
        ),
        category_frequency(rows.push(row), row.entry.nickname) == category_frequency(
            rows,
            row.entry.nickname,
        ),
        counted_rows(rows.push(row), now, row.entry.nickname) == if in_window(
            category_frequency(rows, row.entry.nickname),
            now,
        )(row) {
            counted_rows(rows, now, row.entry.nickname).push(row)
        } else {
            counted_rows(rows, now, row.entry.nickname)
        },
{
    let name = row.entry.nickname;
    lemma_category_rows_push(rows, row, name);
    let mine = category_rows(rows, name);
    mine.lemma_filter_push(row, in_window(category_frequency(rows, name), now));
}

/// Counting one more row of a category is recording it in the summary.
pub proof fn lemma_summarized_push(
    name: Seq<char>,
    budget: int,
    frequency: BudgetFrequency,
    counted: Seq<RowView>,
    row: RowView,
)
    ensures
        summarized(name, budget, frequency, counted.push(row)) == recorded(
            summarized(name, budget, frequency, counted),
            row.entry,
        ),
{
    lemma_sum_push(counted, row);
    let grown = summarized(name, budget, frequency, counted.push(row));
    let noted = recorded(summarized(name, budget, frequency, counted), row.entry);
    assert(grown.transaction_idz =~= noted.transaction_idz);
    assert(grown.cat_trans =~= noted.cat_trans);
}

} // verus!
