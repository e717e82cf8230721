[package]
name = "pgrouter"
version = "0.1.0"
edition = "2021"
publish = false

[dependencies]
tokio = { version = "1", features = ["rt-multi-thread", "sync", "macros", "time", "net"] }
tokio-postgres = "0.7"
tokio-util = "0.7"
whoami = "1"
serde = { version = "1", features = ["derive"] }
