[package]
name = "fintrak"
version = "0.1.0"
edition = "2021"
publish = false

[dependencies]
anyhow = "1"
chrono = "0.4"
crossterm = "0.28"
diesel = { version = "2", features = ["postgres", "r2d2"] }
dirs = "5"
dotenv = "0.15"
ratatui = "0.29"
regex = "1"
reqwest = { version = "0.12", default-features = false, features = ["json"] }
rocket = { version = "0.5", features = ["json"] }
rusqlite = { version = "0.32", features = ["bundled"] }
serde = { version = "1", features = ["derive"] }
serde_json = "1"
tokio = { version = "1", features = ["rt-multi-thread", "macros"] }
