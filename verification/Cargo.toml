[package]
name = "login_form"
version = "0.1.0"
edition = "2021"
publish = false

[dependencies]
crossterm = "0.25"
reqwest = { version = "0.11", default-features = false, features = ["blocking", "json"] }
serde = { version = "1", features = ["derive"] }
tui = "0.19"
