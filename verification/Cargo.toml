[package]
name = "fluentbase_runtime"
version = "0.1.0"
edition = "2021"
publish = false

[dependencies]
syn = { version = "2", features = ["full"] }
syn-solidity = "*"
proc-macro2 = "1"
quote = "1"
proc-macro-error = "1"
