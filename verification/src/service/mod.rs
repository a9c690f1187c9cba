//! The decisions of the tracker's service: what each request is answered
//! with, given what the store says.

pub mod account_handler;
pub mod auth_handler;
pub mod category_handler;
pub mod queries;
pub mod report_handler;
pub mod status;
pub mod transaction_handler;
