//! The decisions of the tracker's terminal client: what each key does on
//! each page, and what the pages show.

pub mod account_main;
pub mod app;
pub mod category_main;
pub mod components;
pub mod http;
pub mod list;
pub mod login;
pub mod report;
pub mod report_main;
pub mod signup;
pub mod sorting;
pub mod transaction_create;
pub mod cover;
pub mod homepage;
