//! The page that shows the report, category by category, and deletes
//! transactions from it.

use vstd::prelude::*;
use vstd::string::*;
use crate::client::components::Key;
use crate::client::http::{Fetched, Response};
use crate::client::list::{step_down, step_up, stepped_down, stepped_up};
use crate::client::sorting::{sort_by_nickname, sorted_by_name};
use crate::frequency::BudgetFrequency;
use crate::money::{money_text_fixed, Money};
use crate::report::records::CategorySummary;
use crate::text::{i32_text, integer_text, joined, text_views};

verus! {

/// The report page.
#[derive(Debug)]
pub struct ReportMain {
    pub email: String,
    /// The summaries of the report, one block for each.
    pub summary_blocks: Vec<CategorySummary>,
    /// For each block that was drawn, the place of the selected
    /// transaction in its list.
    pub list_states: Vec<Option<usize>>,
    /// The block that takes the keys.
    pub active_cat: usize,
    /// For each block that was drawn, the ids of the transactions in its
    /// list.
    pub trans_mapping: Vec<Vec<i32>>,
}

/// What the page asks of the service after a key press.
#[derive(Clone, Copy, Debug, PartialEq, Eq, Structural)]
pub enum ReportRequest {
    /// Nothing; the page stays.
    Nothing,
    /// Nothing; the page is left.
    Leave,
    /// Delete the transaction with this id.
    Delete(i32),
}

/// The name of a budget period in capitals.
pub open spec fn capitals(frequency: BudgetFrequency) -> Seq<char> {
    match frequency {
        BudgetFrequency::Daily => "DAILY"@,
        BudgetFrequency::Weekly => "WEEKLY"@,
        BudgetFrequency::Monthly => "MONTHLY"@,
        BudgetFrequency::Yearly => "YEARLY"@,
        BudgetFrequency::Other => "OTHER"@,
    }
}

/// The words that a block shows of the budget: the period in capitals and
/// the budget with two decimals.
pub open spec fn budget_caption(frequency: BudgetFrequency, budget: int) -> Seq<char> {
    capitals(frequency) + " budget: "@ + money_text_fixed(budget)
}

/// The entry that a block lists for a transaction: its id, a colon and its
/// line.
pub open spec fn item_text(id: i32, line: Seq<char>) -> Seq<char> {
    integer_text(id as int) + seq![':', ' '] + line
}

/// How many entries a block lists: as many as the summary has lines with
/// an id.
pub open spec fn item_count(summary: CategorySummary) -> nat {
    if summary.transaction_idz@.len() < summary.cat_trans@.len() {
        summary.transaction_idz@.len()
    } else {
        summary.cat_trans@.len()
    }
}

/// The entries that a block lists: one for each line of the summary, with
/// the id that belongs to it.
pub open spec fn items_of(summary: CategorySummary) -> Seq<Seq<char>> {
    Seq::new(
        item_count(summary),
        |k: int| item_text(summary.transaction_idz@[k], summary.cat_trans@[k]@),
    )
}

/// The words that a block shows of the budget.
pub fn title_block(frequency: BudgetFrequency, budget: Money) -> (caption: String)
    ensures
        caption@ == budget_caption(frequency, budget.cents as int),
{
    let period = match frequency {
        BudgetFrequency::Daily => "DAILY",
        BudgetFrequency::Weekly => "WEEKLY",
        BudgetFrequency::Monthly => "MONTHLY",
        BudgetFrequency::Yearly => "YEARLY",
        BudgetFrequency::Other => "OTHER",
    };
    let mut caption = joined(period, " budget: ");
    caption.append(budget.render_fixed().as_str());
    caption
}

impl ReportMain {
    /// The page of the user with the given email, before its report is
    /// there.
    pub fn new(email: String) -> (page: ReportMain)
        ensures
            page.email == email,
            page.summary_blocks@.len() == 0,
            page.list_states@.len() == 0,
            page.active_cat == 0,
            page.trans_mapping@.len() == 0,
    {
        ReportMain {
            summary_blocks: Vec::new(),
            email,
            list_states: Vec::new(),
            active_cat: 0,
            trans_mapping: Vec::new(),
        }
    }

    /// Where to ask for the report of the user.
    pub fn fetch_url(&self) -> (url: String)
        ensures
            url@ == "http://localhost:8000/report_details?email="@ + self.email@,
    {
        joined("http://localhost:8000/report_details?email=", self.email.as_str())
    }

    /// Where to ask for the deletion of the transaction with the given id.
    pub fn delete_url(trans_id: i32) -> (url: String)
        ensures
            url@ == "http://localhost:8000/delete_trans?trans_id="@ + integer_text(trans_id as int),
    {
        joined("http://localhost:8000/delete_trans?trans_id=", i32_text(trans_id).as_str())
    }

    /// Takes in what the service answered when asked for the report: the
    /// summaries that it sent become the blocks of the page, in the order
    /// of their names; any other outcome changes nothing.
    pub fn get_categorical_summary(&mut self, outcome: Fetched<CategorySummary>)
        ensures
            final(self).email == old(self).email,
            final(self).list_states == old(self).list_states,
            final(self).active_cat == old(self).active_cat,
            final(self).trans_mapping == old(self).trans_mapping,
            match outcome {
                Fetched::Loaded(summaries) => sorted_by_name(final(self).summary_blocks@) && final(self).summary_blocks@.to_multiset() == summaries@.to_multiset(),
                _ => final(self).summary_blocks == old(self).summary_blocks,
            },
    {
        match outcome {
            Fetched::Loaded(summaries) => {
                let mut summaries = summaries;
                sort_by_nickname(&mut summaries);
                self.summary_blocks = summaries;
            },
            _ => {},
        }
    }

    /// Draws up the block with the given number: its entries. The block
    /// gets a list of its own, with the first entry selected, and the ids
    /// of its transactions are noted; both are added behind those of the
    /// blocks drawn before. A number that is no block's gives no entries
    /// and changes nothing.
    pub fn render_nested_blocks(&mut self, i: usize) -> (items: Vec<String>)
        ensures
            final(self).email == old(self).email,
            final(self).summary_blocks == old(self).summary_blocks,
            final(self).active_cat == old(self).active_cat,
            i < old(self).summary_blocks@.len() ==> {
                &&& text_views(items@) == items_of(old(self).summary_blocks@[i as int])
                &&& final(self).list_states@ == old(self).list_states@.push(Some(0usize))
                &&& final(self).trans_mapping@.len() == old(self).trans_mapping@.len() + 1
                &&& final(self).trans_mapping@.drop_last() == old(self).trans_mapping@
                &&& final(self).trans_mapping@.last()@ == old(self).summary_blocks@[i as int].transaction_idz@.take(items@.len() as int)
            },
            i >= old(self).summary_blocks@.len() ==> {
                &&& items@.len() == 0
                &&& final(self).list_states == old(self).list_states
                &&& final(self).trans_mapping == old(self).trans_mapping
            },
    {
        let mut items: Vec<String> = Vec::new();
        if i >= self.summary_blocks.len() {
            return items;
        }
        let mut ids: Vec<i32> = Vec::new();
        let block = &self.summary_blocks[i];
        let shown: usize = if block.transaction_idz.len() < block.cat_trans.len() {
            block.transaction_idz.len()
        } else {
            block.cat_trans.len()
        };
        let mut k: usize = 0;
        while k < shown
            invariant
                k <= shown,
                shown == item_count(*block),
                items@.len() == k,
                forall|j: int| 0 <= j < k ==> items@[j]@ == items_of(*block)[j],
                ids@ =~= block.transaction_idz@.take(k as int),
            decreases shown - k,
        {
            proof {
                reveal_strlit(": ");
            }
            let mut item = i32_text(block.transaction_idz[k]);
            item.append(": ");
            item.append(block.cat_trans[k].as_str());
            assert(item@ =~= item_text(
                block.transaction_idz@[k as int],
                block.cat_trans@[k as int]@,
            ));
            items.push(item);
            ids.push(block.transaction_idz[k]);
            k += 1;
        }
        assert(text_views(items@) =~= items_of(*block));
        let ghost mapping = self.trans_mapping@;
        self.list_states.push(Some(0));
        self.trans_mapping.push(ids);
        assert(self.trans_mapping@.drop_last() =~= mapping);
        items
    }

    /// Applies a key press to the page and says what to ask of the
    /// service. Escape leaves the page. Tab moves to the next block, and
    /// from the last to the first. The arrows move the selection in the
    /// list of the active block, around its ends. `d` deletes the selected
    /// transaction of the active block and strikes its id from the block's
    /// list. A key that finds nothing to act on changes nothing.
    pub fn handle_input(&mut self, key: Key) -> (request: ReportRequest)
        ensures
            final(self).email == old(self).email,
            final(self).summary_blocks == old(self).summary_blocks,
            final(self).active_cat == active_after(*old(self), key),
            final(self).list_states@ == states_after(*old(self), key),
            request == request_after(*old(self), key),
            match request {
                ReportRequest::Delete(_) => {
                    &&& final(self).trans_mapping@.len() == old(self).trans_mapping@.len()
                    &&& forall|j: int|
                        0 <= j < old(self).trans_mapping@.len() && j != old(self).active_cat
                            ==> final(self).trans_mapping@[j] == old(self).trans_mapping@[j]
                    &&& final(self).trans_mapping@[old(self).active_cat as int]@ == old(self).trans_mapping@[old(self).active_cat as int]@.remove(
                        old(self).list_states@[old(self).active_cat as int]->0 as int,
                    )
                },
                _ => final(self).trans_mapping == old(self).trans_mapping,
            },
    {
        match key {
            Key::Esc => ReportRequest::Leave,
            Key::Tab => {
                if self.summary_blocks.len() > 0 {
                    self.active_cat = if self.active_cat == usize::MAX {
                        proof {
                            let count = self.summary_blocks.len() as int;
                            vstd::arithmetic::div_mod::lemma_add_mod_noop(
                                self.active_cat as int,
                                1,
                                count,
                            );
                            vstd::arithmetic::div_mod::lemma_mod_twice(self.active_cat as int, count);
                            vstd::arithmetic::div_mod::lemma_add_mod_noop(
                                self.active_cat as int % count,
                                1,
                                count,
                            );
                        }
                        ((self.active_cat % self.summary_blocks.len()) + 1)
                            % self.summary_blocks.len()
                    } else {
                        (self.active_cat + 1) % self.summary_blocks.len()
                    };
                }
                ReportRequest::Nothing
            },
            Key::Up => {
                if self.active_cat < self.list_states.len() && self.active_cat
                    < self.summary_blocks.len() {
                    let moved = step_up(
                        self.list_states[self.active_cat],
                        self.summary_blocks[self.active_cat].cat_trans.len(),
                    );
                    self.list_states[self.active_cat] = moved;
                }
                ReportRequest::Nothing
            },
            Key::Down => {
                if self.active_cat < self.list_states.len() && self.active_cat
                    < self.summary_blocks.len() {
                    let moved = step_down(
                        self.list_states[self.active_cat],
                        self.summary_blocks[self.active_cat].cat_trans.len(),
                    );
                    self.list_states[self.active_cat] = moved;
                }
                ReportRequest::Nothing
            },
            Key::Char('d') => {
                if self.active_cat < self.list_states.len() && self.active_cat
                    < self.trans_mapping.len() {
                    match self.list_states[self.active_cat] {
                        Some(selected) => {
                            if selected < self.trans_mapping[self.active_cat].len() {
                                let id = self.trans_mapping[self.active_cat].remove(selected);
                                ReportRequest::Delete(id)
                            } else {
                                ReportRequest::Nothing
                            }
                        },
                        None => ReportRequest::Nothing,
                    }
                } else {
                    ReportRequest::Nothing
                }
            },
            _ => ReportRequest::Nothing,
        }
    }

    /// Takes in what the service answered when asked to delete a
    /// transaction, and says whether to ask for the report anew: after
    /// status 200.
    pub fn delete_transaction(response: &Response) -> (again: bool)
        ensures
            again == (*response matches Response::Answered { status, .. } && status == 200),
    {
        match response {
            Response::Answered { status, .. } => *status == 200,
            Response::Failed { .. } => false,
        }
    }
}

/// The active block after a key press.
pub open spec fn active_after(page: ReportMain, key: Key) -> usize {
    if key == Key::Tab && page.summary_blocks@.len() > 0 {
        ((page.active_cat + 1) % (page.summary_blocks@.len() as int)) as usize
    } else {
        page.active_cat
    }
}

/// Whether the active block has a list and a summary.
pub open spec fn has_active_list(page: ReportMain) -> bool {
    page.active_cat < page.list_states@.len() && page.active_cat < page.summary_blocks@.len()
}

/// The selections after a key press.
pub open spec fn states_after(page: ReportMain, key: Key) -> Seq<Option<usize>> {
    let at = page.active_cat as int;
    if key == Key::Up && has_active_list(page) {
        page.list_states@.update(
            at,
            stepped_up(page.list_states@[at], page.summary_blocks@[at].cat_trans@.len()),
        )
    } else if key == Key::Down && has_active_list(page) {
        page.list_states@.update(
            at,
            stepped_down(page.list_states@[at], page.summary_blocks@[at].cat_trans@.len()),
        )
    } else {
        page.list_states@
    }
}

/// What the page asks of the service after a key press.
pub open spec fn request_after(page: ReportMain, key: Key) -> ReportRequest {
    let at = page.active_cat as int;
    if key == Key::Esc {
        ReportRequest::Leave
    } else if key == Key::Char('d') && at < page.list_states@.len() && at
        < page.trans_mapping@.len() {
        match page.list_states@[at] {
            Some(selected) => if selected < page.trans_mapping@[at]@.len() {
                ReportRequest::Delete(page.trans_mapping@[at]@[selected as int])
            } else {
                ReportRequest::Nothing
            },
            None => ReportRequest::Nothing,
        }
    } else {
        ReportRequest::Nothing
    }
}

} // verus!
