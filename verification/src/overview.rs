//! The flat overview: the total of each category and of each account, one
//! line of text apiece.

use vstd::prelude::*;
use vstd::string::*;
use crate::money::{money_text, Money};
use crate::text::text_views;

verus! {

/// The sum of the transactions of a category or of an account; `None` where
/// it has no transaction.
#[derive(Debug)]
pub struct NamedTotal {
    pub name: String,
    pub total: Option<Money>,
}

/// A named total as plain values.
pub struct NamedTotalView {
    pub name: Seq<char>,
    pub total: Option<int>,
}

impl View for NamedTotal {
    type V = NamedTotalView;

    open spec fn view(&self) -> NamedTotalView {
        NamedTotalView {
            name: self.name@,
            total: match self.total {
                Some(sum) => Some(sum.cents as int),
                None => None,
            },
        }
    }
}

/// The plain values of each total.
pub open spec fn total_views(totals: Seq<NamedTotal>) -> Seq<NamedTotalView> {
    Seq::new(totals.len(), |i: int| totals[i]@)
}

/// The heading of the categories' section.
pub open spec fn category_heading() -> Seq<char> {
    "Category Summary:"@
}

/// The heading of the accounts' section.
pub open spec fn account_heading() -> Seq<char> {
    "Account Summary:"@
}

/// What stands between a category's name and its total.
pub open spec fn category_separator() -> Seq<char> {
    seq![' ', ':', ' ']
}

/// What stands between an account's name and its total.
pub open spec fn account_separator() -> Seq<char> {
    seq![':', ' ']
}

/// The line of a total: its name, the separator and the amount; none where
/// there is no transaction.
pub open spec fn total_line(separator: Seq<char>) -> spec_fn(NamedTotalView) -> Option<Seq<char>> {
    |entry: NamedTotalView|
        match entry.total {
            Some(cents) => Some(entry.name + separator + money_text(cents)),
            None => None,
        }
}

/// The lines of a section: one for each total that has a transaction, in
/// the order given.
pub open spec fn section_lines(totals: Seq<NamedTotalView>, separator: Seq<char>) -> Seq<
    Seq<char>,
> {
    totals.filter_map(total_line(separator))
}

/// The overview: the categories' heading and lines, then the accounts'
/// heading and lines.
pub open spec fn overview_of(
    category_totals: Seq<NamedTotalView>,
    account_totals: Seq<NamedTotalView>,
) -> Seq<Seq<char>> {
    seq![category_heading()] + section_lines(category_totals, category_separator())
        + seq![account_heading()] + section_lines(account_totals, account_separator())
}

/// Appends to `lines` the lines of the section of `totals`.
fn append_section(lines: &mut Vec<String>, totals: &Vec<NamedTotal>, separator: &str)
    ensures
        text_views(final(lines)@) == text_views(old(lines)@) + section_lines(
            total_views(totals@),
            separator@,
        ),
{
    let ghost plain = total_views(totals@);
    let ghost start = text_views(lines@);
    let mut i: usize = 0;
    assert(plain.take(0).filter_map(total_line(separator@)) =~= Seq::empty());
    while i < totals.len()
        invariant
            i <= totals.len(),
            plain == total_views(totals@),
            text_views(lines@) =~= start + plain.take(i as int).filter_map(total_line(separator@)),
        decreases totals.len() - i,
    {
        let entry = &totals[i];
        proof {
            plain.lemma_filter_map_take_succ(total_line(separator@), i as int);
            assert(plain[i as int] == entry@);
        }
        let ghost above = text_views(lines@);
        let ghost done = plain.take(i as int).filter_map(total_line(separator@));
        match entry.total {
            Some(sum) => {
                let mut line = entry.name.clone();
                line.append(separator);
                let amount = sum.render();
                line.append(amount.as_str());
                let ghost text = line@;
                lines.push(line);
                assert(total_line(separator@)(plain[i as int]) == Some(text));
                assert(text_views(lines@) =~= above.push(text));
                assert(above.push(text) =~= start + (done + seq![text]));
            },
            None => {
                assert(total_line(separator@)(plain[i as int]) is None);
                assert(above =~= start + (done + Seq::empty()));
            },
        }
        i += 1;
    }
    assert(plain.take(totals.len() as int) =~= plain);
}

/// The overview of what was spent: under the heading `Category Summary:` a
/// line `name : total` for each category, then under the heading
/// `Account Summary:` a line `name: total` for each account. A category or
/// an account without a transaction has no line.
pub fn build_flat_overview(category_totals: &Vec<NamedTotal>, account_totals: &Vec<NamedTotal>) -> (lines:
    Vec<String>)
    ensures
        text_views(lines@) == overview_of(total_views(category_totals@), total_views(account_totals@)),
{
    proof {
        reveal_strlit(" : ");
        reveal_strlit(": ");
    }
    assert(" : "@ =~= category_separator());
    assert(": "@ =~= account_separator());
    let mut lines: Vec<String> = Vec::new();
    lines.push(String::from_str("Category Summary:"));
    assert(text_views(lines@) =~= seq![category_heading()]);
    append_section(&mut lines, category_totals, " : ");
    let ghost upper = text_views(lines@);
    lines.push(String::from_str("Account Summary:"));
    assert(text_views(lines@) =~= upper + seq![account_heading()]);
    append_section(&mut lines, account_totals, ": ");
    lines
}

/// The overview starts with the heading of the categories, and the heading
/// of the accounts follows the lines of the categories; there are never
/// more lines than two headings and one line for each total.
pub proof fn law_overview_shape(
    category_totals: Seq<NamedTotalView>,
    account_totals: Seq<NamedTotalView>,
)
    ensures
        overview_of(category_totals, account_totals)[0] == category_heading(),
        overview_of(category_totals, account_totals)[1 + section_lines(
            category_totals,
            category_separator(),
        ).len() as int] == account_heading(),
        overview_of(category_totals, account_totals).len() == 2 + section_lines(
            category_totals,
            category_separator(),
        ).len() + section_lines(account_totals, account_separator()).len(),
        section_lines(category_totals, category_separator()).len() <= category_totals.len(),
        section_lines(account_totals, account_separator()).len() <= account_totals.len(),
{
    lemma_section_is_short(category_totals, category_separator());
    lemma_section_is_short(account_totals, account_separator());
}

/// A section has at most one line for each total.
proof fn lemma_section_is_short(totals: Seq<NamedTotalView>, separator: Seq<char>)
    ensures
        section_lines(totals, separator).len() <= totals.len(),
    decreases totals.len(),
{
    if totals.len() > 0 {
        lemma_section_is_short(totals.drop_last(), separator);
    }
}

/// A total without a transaction adds no line to its section, and a total
/// with one adds its line at the end.
pub proof fn law_section_grows_by_totals(
    totals: Seq<NamedTotalView>,
    separator: Seq<char>,
    last: NamedTotalView,
)
    ensures
        section_lines(totals.push(last), separator) == match last.total {
            Some(cents) => section_lines(totals, separator).push(
                last.name + separator + money_text(cents),
            ),
            None => section_lines(totals, separator),
        },
{
    assert(totals.push(last).drop_last() =~= totals);
    match last.total {
        Some(cents) => {
            let line = last.name + separator + money_text(cents);
            assert(section_lines(totals, separator) + seq![line] =~= section_lines(
                totals,
                separator,
            ).push(line));
        },
        None => {},
    }
}

} // verus!
