//! The spending report: transactions grouped by category, summed within the
//! category's budget period, and flagged where the sum exceeds the budget.
//!
//! [`model`] says what the report is, [`aggregate`] builds it, [`laws`]
//! states what holds of every report, and [`proofs`] holds the steps by
//! which the building is shown to give the report.

pub mod aggregate;
pub mod laws;
pub mod model;
pub mod proofs;
pub mod records;

pub use crate::report::aggregate::{build_category_report, summarize};
pub use crate::report::model::ReportError;
pub use crate::report::records::{CategorySummary, SummaryEntry, TransactionRow};
