[package]
name = "typesafe_sdk"
version = "0.1.0"
edition = "2021"
publish = false

[dependencies]
indexmap = { version = "=2.14.2", features = ["serde"] }
httpdate = "=1.0.3"
serde = { version = "=1.0.229", features = ["derive"] }
serde_json = "=1.0.154"
tokio = { version = "=1.54.1", features = ["rt-multi-thread", "macros", "time", "sync"] }
reqwest = { version = "=0.12.28", default-features = false, features = ["rustls-tls"] }
async-trait = "=0.1.92"
futures = "=0.3.34"
incurs = "=0.14.0"
schemars = "=1.2.3"
