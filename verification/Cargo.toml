[package]
name = "proc_macro2_whitespace"
version = "0.1.0"
edition = "2021"
publish = false

[dependencies]
proc-macro2 = { version = "1", features = ["span-locations"] }
rustfmt-nightly = "*"
