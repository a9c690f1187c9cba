//! The tracker's local profile: users kept in a file, and tables kept in
//! text files next to a store in memory.

pub mod database;
pub mod patterns;
pub mod tui;
