//! Putting the summaries of a report in the order of their names.

use vstd::prelude::*;
use vstd::seq_lib::{to_multiset_insert, to_multiset_remove};
use crate::report::records::CategorySummary;
use crate::text::characters;

verus! {

/// Whether the text `left` stands before the text `right` in the dictionary,
/// or is the same text: the texts are held against each other character by
/// character, by the numbers of the characters, and a text stands before
/// all that it begins.
pub open spec fn in_order(left: Seq<char>, right: Seq<char>) -> bool
    decreases left.len(),
{
    if left.len() == 0 {
        true
    } else if right.len() == 0 {
        false
    } else if left[0] != right[0] {
        left[0] < right[0]
    } else {
        in_order(left.drop_first(), right.drop_first())
    }
}

/// Whether summaries stand in the order of their names, each next to its
/// neighbour.
pub open spec fn sorted_by_name(summaries: Seq<CategorySummary>) -> bool {
    forall|i: int|
        0 <= i < summaries.len() - 1 ==> in_order(
            #[trigger] summaries[i].nickname@,
            summaries[i + 1].nickname@,
        )
}

/// Of two texts one stands before the other, or they are the same.
pub proof fn lemma_in_order_total(left: Seq<char>, right: Seq<char>)
    ensures
        in_order(left, right) || in_order(right, left),
    decreases left.len(),
{
    if left.len() > 0 && right.len() > 0 && left[0] == right[0] {
        lemma_in_order_total(left.drop_first(), right.drop_first());
    }
}

/// What stands before a text that stands before a third, stands before
/// the third.
pub proof fn lemma_in_order_transitive(first: Seq<char>, second: Seq<char>, third: Seq<char>)
    requires
        in_order(first, second),
        in_order(second, third),
    ensures
        in_order(first, third),
    decreases first.len(),
{
    if first.len() > 0 && second.len() > 0 && third.len() > 0 {
        if first[0] == second[0] && second[0] == third[0] {
            lemma_in_order_transitive(
                first.drop_first(),
                second.drop_first(),
                third.drop_first(),
            );
        }
    }
}

/// In summaries that stand in order next to their neighbours, every
/// earlier one stands before every later one.
pub proof fn lemma_sorted_throughout(summaries: Seq<CategorySummary>, i: int, j: int)
    requires
        sorted_by_name(summaries),
        0 <= i <= j < summaries.len(),
    ensures
        in_order(summaries[i].nickname@, summaries[j].nickname@),
    decreases j - i,
{
    if i == j {
        lemma_in_order_same(summaries[i].nickname@);
    } else {
        lemma_sorted_throughout(summaries, i, j - 1);
        lemma_in_order_transitive(
            summaries[i].nickname@,
            summaries[j - 1].nickname@,
            summaries[j].nickname@,
        );
    }
}

/// A text is in order with itself.
pub proof fn lemma_in_order_same(text: Seq<char>)
    ensures
        in_order(text, text),
    decreases text.len(),
{
    if text.len() > 0 {
        lemma_in_order_same(text.drop_first());
    }
}

/// Whether `left` stands before `right` in the dictionary, or is the same.
pub fn stands_in_order(left: &str, right: &str) -> (ordered: bool)
    ensures
        ordered == in_order(left@, right@),
{
    let a = characters(left);
    let b = characters(right);
    let mut i: usize = 0;
    assert(a@.skip(0) =~= a@ && b@.skip(0) =~= b@);
    loop
        invariant
            i <= a.len(),
            i <= b.len(),
            a@ == left@,
            b@ == right@,
            in_order(left@, right@) == in_order(a@.skip(i as int), b@.skip(i as int)),
        decreases a.len() - i,
    {
        let ghost rest_a = a@.skip(i as int);
        let ghost rest_b = b@.skip(i as int);
        if i >= a.len() {
            return true;
        }
        if i >= b.len() {
            return false;
        }
        assert(rest_a[0] == a@[i as int] && rest_b[0] == b@[i as int]);
        if a[i] != b[i] {
            return a[i] < b[i];
        }
        assert(rest_a.drop_first() =~= a@.skip(i + 1));
        assert(rest_b.drop_first() =~= b@.skip(i + 1));
        i += 1;
    }
}

/// Puts the summaries in the order of their names. None is lost and none is
/// added.
pub fn sort_by_nickname(summaries: &mut Vec<CategorySummary>)
    ensures
        sorted_by_name(final(summaries)@),
        final(summaries)@.to_multiset() == old(summaries)@.to_multiset(),
{
    let mut done: usize = 0;
    while done < summaries.len()
        invariant
            done <= summaries.len(),
            sorted_by_name(summaries@.take(done as int)),
            summaries@.to_multiset() == old(summaries)@.to_multiset(),
        decreases summaries.len() - done,
    {
        let ghost before = summaries@;
        let moving = summaries.remove(done);
        let ghost without = summaries@;
        proof {
            to_multiset_remove(before, done as int);
            assert(without.take(done as int) =~= before.take(done as int));
        }
        let mut place: usize = done;
        while place > 0 && !stands_in_order(
            summaries[place - 1].nickname.as_str(),
            moving.nickname.as_str(),
        )
            invariant
                place <= done <= summaries.len(),
                summaries@ == without,
                forall|k: int| place <= k < done ==> in_order(
                    moving.nickname@,
                    (#[trigger] without[k]).nickname@,
                ),
            decreases place,
        {
            proof {
                lemma_in_order_total(without[place - 1].nickname@, moving.nickname@);
            }
            place -= 1;
        }
        summaries.insert(place, moving);
        proof {
            to_multiset_insert(without, place as int, moving);
            assert(summaries@.to_multiset() =~= before.to_multiset()) by {
                broadcast use vstd::seq_lib::group_to_multiset_ensures;
                broadcast use vstd::multiset::group_multiset_axioms;

                assert(before.contains(before[done as int]));
                assert(before.to_multiset().count(moving) > 0);
            }
            let sorted = summaries@.take(done + 1);
            let earlier = without.take(done as int);
            assert forall|i: int| 0 <= i < sorted.len() - 1 implies in_order(
                #[trigger] sorted[i].nickname@,
                sorted[i + 1].nickname@,
            ) by {
                if i + 1 < place {
                    assert(sorted[i] == earlier[i] && sorted[i + 1] == earlier[i + 1]);
                } else if i + 1 == place {
                    assert(sorted[i] == without[place - 1]);
                } else if i == place {
                    assert(sorted[i + 1] == without[place as int]);
                } else {
                    assert(sorted[i] == earlier[i - 1] && sorted[i + 1] == earlier[i]);
                }
            }
        }
        done += 1;
    }
    assert(summaries@.take(summaries.len() as int) =~= summaries@);
}

} // verus!
