//! How often a budget renews, and the length of the period it covers.

use vstd::prelude::*;
use crate::text::same_text;

verus! {

/// The renewal period of a category's budget.
#[derive(Clone, Copy, Debug, PartialEq, Eq, Structural)]
pub enum BudgetFrequency {
    Daily,
    Weekly,
    Monthly,
    Yearly,
    /// Any period the tracker does not know: such a budget never expires.
    Other,
}

/// Minutes in a day.
pub const MINUTES_PER_DAY: i64 = 1440;

/// The frequency that a name denotes.
pub open spec fn frequency_named(name: Seq<char>) -> BudgetFrequency {
    if name == "daily"@ {
        BudgetFrequency::Daily
    } else if name == "weekly"@ {
        BudgetFrequency::Weekly
    } else if name == "monthly"@ {
        BudgetFrequency::Monthly
    } else if name == "yearly"@ {
        BudgetFrequency::Yearly
    } else {
        BudgetFrequency::Other
    }
}

/// The length in minutes of the period of a frequency: a day, seven days,
/// thirty days, 365 days; `None` where the period has no end.
pub open spec fn window_of(frequency: BudgetFrequency) -> Option<int> {
    match frequency {
        BudgetFrequency::Daily => Some(1440int),
        BudgetFrequency::Weekly => Some(10080int),
        BudgetFrequency::Monthly => Some(43200int),
        BudgetFrequency::Yearly => Some(525600int),
        BudgetFrequency::Other => None,
    }
}

/// Whether a transaction that lies `elapsed` minutes back falls out of the
/// period of `frequency`. The boundary belongs to the period.
pub open spec fn outside_window(frequency: BudgetFrequency, elapsed: int) -> bool {
    match window_of(frequency) {
        Some(length) => elapsed > length,
        None => false,
    }
}

impl BudgetFrequency {
    /// Reads a frequency from its name; every unknown name is `Other`.
    pub fn from_name(name: &str) -> (frequency: BudgetFrequency)
        ensures
            frequency == frequency_named(name@),
    {
        if same_text(name, "daily") {
            BudgetFrequency::Daily
        } else if same_text(name, "weekly") {
            BudgetFrequency::Weekly
        } else if same_text(name, "monthly") {
            BudgetFrequency::Monthly
        } else if same_text(name, "yearly") {
            BudgetFrequency::Yearly
        } else {
            BudgetFrequency::Other
        }
    }

    /// The name of the frequency.
    pub fn name(&self) -> (name: &'static str)
        ensures
            name@ == match *self {
                BudgetFrequency::Daily => "daily"@,
                BudgetFrequency::Weekly => "weekly"@,
                BudgetFrequency::Monthly => "monthly"@,
                BudgetFrequency::Yearly => "yearly"@,
                BudgetFrequency::Other => "other"@,
            },
    {
        match self {
            BudgetFrequency::Daily => "daily",
            BudgetFrequency::Weekly => "weekly",
            BudgetFrequency::Monthly => "monthly",
            BudgetFrequency::Yearly => "yearly",
            BudgetFrequency::Other => "other",
        }
    }

    /// The length of the period in minutes, `None` where it has no end.
    pub fn window_minutes(&self) -> (window: Option<i64>)
        ensures
            match window {
                Some(length) => window_of(*self) == Some(length as int),
                None => window_of(*self) is None,
            },
    {
        match self {
            BudgetFrequency::Daily => Some(MINUTES_PER_DAY),
            BudgetFrequency::Weekly => Some(7 * MINUTES_PER_DAY),
            BudgetFrequency::Monthly => Some(30 * MINUTES_PER_DAY),
            BudgetFrequency::Yearly => Some(365 * MINUTES_PER_DAY),
            BudgetFrequency::Other => None,
        }
    }

    /// Whether a transaction `elapsed` minutes back has left the period.
    pub fn excludes(&self, elapsed: i64) -> (out: bool)
        ensures
            out == outside_window(*self, elapsed as int),
    {
        match self.window_minutes() {
            Some(length) => elapsed > length,
            None => false,
        }
    }
}

/// The name of a frequency reads back as that frequency.
pub proof fn lemma_name_round_trip(frequency: BudgetFrequency)
    ensures
        frequency_named(
            match frequency {
                BudgetFrequency::Daily => "daily"@,
                BudgetFrequency::Weekly => "weekly"@,
                BudgetFrequency::Monthly => "monthly"@,
                BudgetFrequency::Yearly => "yearly"@,
                BudgetFrequency::Other => "other"@,
            },
        ) == frequency,
{
    reveal_strlit("daily");
    reveal_strlit("weekly");
    reveal_strlit("monthly");
    reveal_strlit("yearly");
    reveal_strlit("other");
    assert("daily"@.len() == 5);
    assert("weekly"@.len() == 6);
    assert("monthly"@.len() == 7);
    assert("yearly"@[0] == 'y');
    assert("other"@[0] == 'o');
    assert("weekly"@[0] == 'w');
}

} // verus!
