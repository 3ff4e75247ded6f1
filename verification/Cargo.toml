[package]
name = "pos_ledger"
version = "0.1.0"
edition = "2021"
publish = false

[dependencies]
anyhow = "1"
chrono = "0.4"
iced = { version = "0.13", default-features = false, features = ["tokio"] }
sqlx = { version = "0.8", default-features = false, features = ["sqlite", "runtime-tokio", "chrono", "migrate"] }
tokio = { version = "1", features = ["rt-multi-thread", "macros"] }
