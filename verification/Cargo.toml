[package]
name = "gideon-tax-core"
version = "0.1.0"
edition = "2021"
publish = false

[dependencies]
rust_decimal = { version = "1", default-features = false, features = ["std", "serde"] }
rust_decimal_macros = "1"
serde = { version = "1", features = ["derive"] }
us-tax-brackets = "*"
