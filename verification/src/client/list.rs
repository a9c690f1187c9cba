//! Moving the selection up and down a list; it wraps around at both ends.

use vstd::prelude::*;

verus! {

/// The selection after a step up a list of `len` entries: from the first
/// entry to the last, and with nothing selected as if from the first. An
/// empty list keeps the selection it has.
pub open spec fn stepped_up(selected: Option<usize>, len: nat) -> Option<usize> {
    if len == 0 {
        selected
    } else {
        let at = match selected {
            Some(at) => at,
            None => 0,
        };
        if at == 0 {
            Some((len - 1) as usize)
        } else {
            Some((at - 1) as usize)
        }
    }
}

/// The selection after a step down a list of `len` entries: from the last
/// entry, or from beyond it, to the first.
pub open spec fn stepped_down(selected: Option<usize>, len: nat) -> Option<usize> {
    if len == 0 {
        selected
    } else {
        let at = match selected {
            Some(at) => at,
            None => 0,
        };
        if at >= len - 1 {
            Some(0)
        } else {
            Some((at + 1) as usize)
        }
    }
}

/// The selection after a step up.
pub fn step_up(selected: Option<usize>, len: usize) -> (next: Option<usize>)
    ensures
        next == stepped_up(selected, len as nat),
{
    if len == 0 {
        selected
    } else {
        let at = match selected {
            Some(at) => at,
            None => 0,
        };
        if at == 0 {
            Some(len - 1)
        } else {
            Some(at - 1)
        }
    }
}

/// The selection after a step down.
pub fn step_down(selected: Option<usize>, len: usize) -> (next: Option<usize>)
    ensures
        next == stepped_down(selected, len as nat),
{
    if len == 0 {
        selected
    } else {
        let at = match selected {
            Some(at) => at,
            None => 0,
        };
        if at >= len - 1 {
            Some(0)
        } else {
            Some(at + 1)
        }
    }
}

/// A selection inside a list that is not empty stays inside it, whichever
/// way it steps.
pub proof fn lemma_steps_stay_inside(selected: Option<usize>, len: nat)
    requires
        0 < len <= usize::MAX,
        selected matches Some(at) ==> at < len,
    ensures
        stepped_up(selected, len) matches Some(at) && at < len,
        stepped_down(selected, len) matches Some(at) && at < len,
{
}

/// In a list that is not empty, a step down and then a step up lead back
/// to the entry that was selected.
pub proof fn lemma_down_then_up(at: usize, len: nat)
    requires
        at < len <= usize::MAX,
    ensures
        stepped_up(stepped_down(Some(at), len), len) == Some(at),
        stepped_down(stepped_up(Some(at), len), len) == Some(at),
{
}

} // verus!
