[package]
name = "node_supervisor"
version = "0.1.0"
edition = "2021"
publish = false

[dependencies]
subprocess = "=0.2.15"
serde_json = "=1.0.151"
jsonrpc-core = "=18.0.0"
reqwest = { version = "=0.13.5", default-features = false, features = ["blocking", "json"] }
