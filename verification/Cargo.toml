[package]
name = "mme"
version = "0.1.0"
edition = "2021"
publish = false

[dependencies]
base64 = "0.22"
ciborium = "0.2"
ciborium-io = "0.2"
colored = "2"
tracing = "0.1"
tracing-subscriber = { version = "0.3", features = ["env-filter"] }
clap = { version = "4", features = ["cargo"] }
flume = "0.11"
enum_dispatch = "0.3"
spin_on = "0.1"
