[package]
name = "company_reporting"
version = "0.1.0"
edition = "2021"
publish = false

[dependencies]
clap = { version = "4", features = ["derive"] }
crossterm = "0.28"
eyre = "0.6"
log = "0.4"
ratatui = "0.29"
rusqlite = { version = "*", features = ["bundled"] }
simple-logging = "2"
tempfile = "3"
