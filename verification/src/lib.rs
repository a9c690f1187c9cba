//! Personal finance tracking with machine-checked contracts.
//!
//! The heart of the crate is the spending report of [`report`]: the
//! transactions of a user, grouped by category, summed within each
//! category's budget period and flagged where the sum exceeds the budget.
//! Around it stand the amounts of [`money`], the budget periods of
//! [`frequency`], the points in time of [`instant`], and the flat overview
//! of [`overview`].
//!
//! [`service`] holds what the tracker's service decides for each request,
//! [`client`] what its terminal client does with each key and each answer,
//! and [`profile`] the rules of the local profile tools. None of them reads
//! or writes anything: whoever uses them asks the store, the network and
//! the terminal, and hands over what came back.

pub mod client;
pub mod decimal;
pub mod frequency;
pub mod instant;
pub mod money;
pub mod overview;
pub mod profile;
pub mod records;
pub mod report;
pub mod service;
pub mod text;
