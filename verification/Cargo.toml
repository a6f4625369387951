[package]
name = "celer_pay_rpc"
version = "0.1.0"
edition = "2021"
publish = false

[dependencies]
jsonrpc-core = "18"
jsonrpc-derive = "18"
serde = "1"
serde_json = "1"
