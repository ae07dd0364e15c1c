[package]
name = "branch_prune"
version = "0.1.0"
edition = "2021"
publish = false

[dependencies]
chrono = "0.4"
crossterm = "*"
git2 = { version = "*", default-features = false }
