[package]
name = "judo"
version = "0.1.0"
edition = "2021"
publish = false

[dependencies]
anyhow = "1"
chrono = "0.4"
color-eyre = "0.6"
crossterm = "*"
dirs = "*"
ratatui = "*"
serde = { version = "1", features = ["derive"] }
sqlx = { version = "0.8", default-features = false, features = ["sqlite", "runtime-tokio", "chrono", "macros"] }
textwrap = "0.16"
tokio = { version = "1", features = ["macros", "rt-multi-thread"] }
toml = "*"
