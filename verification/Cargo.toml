[package]
name = "query_root"
version = "0.1.0"
edition = "2021"
publish = false

[dependencies]
indexmap = "1.6.2"
async-trait = "0.1.48"
futures-util = { version = "0.3", default-features = false, features = ["std"] }
