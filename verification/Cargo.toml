[package]
name = "rust_di"
version = "0.1.0"
edition = "2021"
publish = false

[dependencies]
dashmap = "*"
tokio = { version = "*", features = ["sync", "rt", "macros"] }
async-trait = "*"
once_cell = "*"
thiserror = "*"
