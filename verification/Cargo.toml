[package]
name = "jsonrpc_interface"
version = "0.1.0"
edition = "2021"
publish = false

[dependencies]
jsonrpc-core = "*"
proc-macro2 = "0.4"
quote = "0.6"
serde = "1"
serde_json = "1"
syn = { version = "0.15", features = ["full"] }
