[package]
name = "kj_rs"
version = "0.1.0"
edition = "2021"
publish = false

[dependencies]
syn = { version = "2", features = ["full"] }
quote = "1"
proc-macro2 = "1"
cxx = "1"
static_assertions = "1"
