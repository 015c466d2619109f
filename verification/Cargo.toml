[package]
name = "yara_x_core"
version = "0.1.0"
edition = "2021"
publish = false

[dependencies]
anyhow = "1"
bincode = "1"
darling = "0.14"
proc-macro2 = "1"
quote = "1"
syn = { version = "1", features = ["full", "visit"] }
