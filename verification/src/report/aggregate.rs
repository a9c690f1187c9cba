//! Building the report from the transactions of one user.

use vstd::prelude::*;
use vstd::string::*;
use crate::instant::{parsed_instant, Instant};
use crate::money::Money;
use crate::report::model::{
    category_budget, category_frequency, category_rows, counted_rows, dated, dates_readable,
    expected_report, expected_summaries, first_seen, line_of, recorded, report_of, representable,
    sum_of_amounts, summarized, summary_of, ReportError,
};
use crate::report::proofs::{
    lemma_counted_rows_extend, lemma_counted_rows_open, lemma_first_seen_exact,
    lemma_first_seen_push, lemma_summarized_push, lemma_summary_of_other,
};
use crate::report::records::{
    entry_views, report_view, row_views, summary_views, CategorySummary, SummaryEntry,
    TransactionRow,
};

verus! {

/// The line that the report shows for a transaction.
pub fn format_line(entry: &SummaryEntry) -> (line: String)
    ensures
        line@ == line_of(entry@),
{
    proof {
        reveal_strlit(", ");
    }
    assert(", "@ =~= seq![',', ' ']);
    let mut line = entry.transaction_date.clone();
    line.append(", ");
    let amount = entry.amount.render();
    line.append(amount.as_str());
    line.append(", ");
    match &entry.notes {
        Some(text) => {
            line.append(text.as_str());
        },
        None => {},
    }
    assert(line@ =~= line_of(entry@));
    line
}

impl CategorySummary {
    /// The summary of a category of which no transaction counts yet, with
    /// the budget and the period that `entry` carries.
    pub fn open(entry: &SummaryEntry) -> (summary: CategorySummary)
        ensures
            summary@ == summarized(
                entry@.nickname,
                entry@.budget,
                entry@.budget_freq,
                Seq::empty(),
            ),
    {
        let summary = CategorySummary {
            nickname: entry.nickname.clone(),
            budget: entry.budget,
            budget_freq: entry.budget_freq,
            overbudget: false,
            total: Money { cents: 0 },
            transaction_idz: Vec::new(),
            cat_trans: Vec::new(),
        };
        proof {
            let blank = summarized(
                entry@.nickname,
                entry@.budget,
                entry@.budget_freq,
                Seq::empty(),
            );
            assert(summary@.cat_trans =~= blank.cat_trans);
            assert(summary@.transaction_idz =~= blank.transaction_idz);
        }
        summary
    }

    /// Counts one more transaction, unless the total would leave the range
    /// of amounts that can be held: then nothing changes and the answer is
    /// `false`.
    pub fn record(&mut self, entry: &SummaryEntry) -> (done: bool)
        ensures
            done == representable(old(self)@.total + entry@.amount),
            done ==> final(self)@ == recorded(old(self)@, entry@),
            !done ==> final(self)@ == old(self)@,
    {
        match self.total.cents.checked_add(entry.amount.cents) {
            None => false,
            Some(total) => {
                let line = format_line(entry);
                self.total = Money { cents: total };
                self.overbudget = total > self.budget.cents;
                self.transaction_idz.push(entry.transaction_id);
                self.cat_trans.push(line);
                assert(final(self)@.cat_trans =~= old(self)@.cat_trans.push(line_of(entry@)));
                true
            },
        }
    }
}

/// The place of the category `name` among `summaries`.
fn find_category(summaries: &Vec<CategorySummary>, name: &String) -> (found: Option<usize>)
    ensures
        match found {
            Some(place) => place < summaries.len() && summaries[place as int]@.nickname == name@,
            None => forall|j: int| 0 <= j < summaries.len() ==> summaries[j]@.nickname != name@,
        },
{
    let mut place: usize = 0;
    while place < summaries.len()
        invariant
            place <= summaries.len(),
            forall|j: int| 0 <= j < place ==> summaries[j]@.nickname != name@,
        decreases summaries.len() - place,
    {
        if summaries[place].nickname == *name {
            return Some(place);
        }
        place += 1;
    }
    None
}

/// The report on transactions whose dates have been read: one summary for
/// each category, in the order in which the categories first appear. It
/// fails only where a running total leaves the range of amounts that can be
/// held.
pub fn summarize(rows: &Vec<TransactionRow>, now: Instant) -> (out: Result<
    Vec<CategorySummary>,
    ReportError,
>)
    ensures
        report_view(out) == expected_summaries(row_views(rows@), now),
{
    let ghost all = row_views(rows@);
    let mut summaries: Vec<CategorySummary> = Vec::new();
    let mut i: usize = 0;
    while i < rows.len()
        invariant
            i <= rows.len(),
            all == row_views(rows@),
            summary_views(summaries@) =~= report_of(all.take(i as int), now),
            forall|k: int, name: Seq<char>|
                0 <= k <= i ==> representable(
                    #[trigger] sum_of_amounts(counted_rows(all.take(k), now, name)),
                ),
        decreases rows.len() - i,
    {
        let row = &rows[i];
        let ghost seen = all.take(i as int);
        let ghost this = all[i as int];
        let ghost name = this.entry.nickname;
        let ghost next = seen.push(this);
        let ghost before = if category_rows(seen, name).len() > 0 {
            counted_rows(seen, now, name)
        } else {
            Seq::empty()
        };
        proof {
            lemma_first_seen_exact(seen);
            lemma_first_seen_exact(next);
            lemma_first_seen_push(seen, this);
            all.lemma_take_succ_push(i as int);
            assert(all.take(i + 1) == next);
            assert(summary_views(summaries@).len() == summaries.len());
            assert(report_of(seen, now).len() == first_seen(seen).len());
            assert forall|j: int| 0 <= j < summaries.len() implies summaries[j]@ == summary_of(
                seen,
                now,
                first_seen(seen)[j],
            ) by {
                assert(summary_views(summaries@)[j] == summaries[j]@);
                assert(report_of(seen, now)[j] == summary_of(seen, now, first_seen(seen)[j]));
            }
        }
        let place = match find_category(&summaries, &row.entry.nickname) {
            Some(place) => {
                proof {
                    assert(first_seen(seen)[place as int] == name);
                    lemma_counted_rows_extend(seen, this, now);
                }
                place
            },
            None => {
                proof {
                    if first_seen(seen).contains(name) {
                        let at = first_seen(seen).index_of(name);
                        assert(summaries[at]@.nickname == name);
                    }
                    lemma_counted_rows_open(seen, this, now);
                }
                summaries.push(CategorySummary::open(&row.entry));
                summaries.len() - 1
            },
        };
        proof {
            assert(summaries.len() == first_seen(next).len());
            assert(first_seen(next)[place as int] == name);
            assert(summaries[place as int]@ == summarized(
                name,
                category_budget(next, name),
                category_frequency(next, name),
                before,
            ));
        }
        let ghost held = summary_views(summaries@);
        let elapsed = now.minutes_since(&row.at);
        if !summaries[place].budget_freq.excludes(elapsed) {
            let done = summaries[place].record(&row.entry);
            proof {
                lemma_summarized_push(
                    name,
                    category_budget(next, name),
                    category_frequency(next, name),
                    before,
                    this,
                );
                assert(counted_rows(next, now, name) == before.push(this));
            }
            if !done {
                proof {
                    assert(!representable(
                        sum_of_amounts(counted_rows(all.take(i + 1), now, name)),
                    ));
                }
                return Err(ReportError::AggregationFailure);
            }
        } else {
            proof {
                assert(counted_rows(next, now, name) == before);
            }
        }
        proof {
            assert(summaries[place as int]@ == summary_of(next, now, name));
            assert forall|j: int| 0 <= j < summaries.len() implies summaries[j]@ == summary_of(
                next,
                now,
                first_seen(next)[j],
            ) by {
                if j != place {
                    assert(summaries[j]@ == held[j]);
                    assert(first_seen(next)[j] != name);
                    lemma_summary_of_other(seen, this, now, first_seen(next)[j]);
                }
            }
            assert forall|k: int, other: Seq<char>| 0 <= k <= i + 1 implies representable(
                #[trigger] sum_of_amounts(counted_rows(all.take(k), now, other)),
            ) by {
                if k == i + 1 {
                    if other == name {
                        assert(sum_of_amounts(counted_rows(next, now, name))
                            == summaries[place as int]@.total);
                    } else {
                        lemma_summary_of_other(seen, this, now, other);
                        assert(representable(
                            sum_of_amounts(counted_rows(all.take(i as int), now, other)),
                        ));
                    }
                }
            }
        }
        i += 1;
    }
    proof {
        assert(all.take(rows.len() as int) =~= all);
    }
    Ok(summaries)
}

/// Reads the date of every entry; `None` where some date cannot be read.
pub fn date_entries(entries: &Vec<SummaryEntry>) -> (rows: Option<Vec<TransactionRow>>)
    ensures
        match rows {
            Some(rows) => dates_readable(entry_views(entries@)) && row_views(rows@) == dated(
                entry_views(entries@),
            ),
            None => !dates_readable(entry_views(entries@)),
        },
{
    let ghost plain = entry_views(entries@);
    let mut rows: Vec<TransactionRow> = Vec::new();
    let mut i: usize = 0;
    while i < entries.len()
        invariant
            i <= entries.len(),
            plain == entry_views(entries@),
            rows.len() == i,
            forall|j: int| 0 <= j < i ==> parsed_instant(#[trigger] plain[j].transaction_date) is Some,
            forall|j: int| 0 <= j < i ==> (#[trigger] rows[j])@ == dated(plain)[j],
        decreases entries.len() - i,
    {
        let entry = &entries[i];
        assert(plain[i as int] == entry@);
        match Instant::parse(entry.transaction_date.as_str()) {
            Some(at) => {
                rows.push(TransactionRow { entry: entry.clone(), at });
            },
            None => {
                assert(parsed_instant(plain[i as int].transaction_date) is None);
                return None;
            },
        }
        i += 1;
    }
    assert(row_views(rows@) =~= dated(plain));
    Some(rows)
}

/// The spending report on the transactions of one user, as of `now`: one
/// summary for each category, in the order in which the categories first
/// appear. A transaction counts toward its category if it lies inside the
/// category's budget period, which ends at `now`; the others are left out.
///
/// Fails with `InputError` exactly if the date of some entry cannot be
/// read, and else with `AggregationFailure` exactly if a running total
/// leaves the range of amounts that can be held.
pub fn build_category_report(rows: &Vec<SummaryEntry>, now: Instant) -> (out: Result<
    Vec<CategorySummary>,
    ReportError,
>)
    ensures
        report_view(out) == expected_report(entry_views(rows@), now),
{
    match date_entries(rows) {
        None => Err(ReportError::InputError),
        Some(timed) => summarize(&timed, now),
    }
}

} // verus!
