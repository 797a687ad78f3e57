[package]
name = "brook"
version = "0.1.0"
edition = "2021"
publish = false

[dependencies]
async-stream = "0.3"
async-trait = "0.1"
bytes = "1"
futures-core = "0.3"
futures-util = "0.3"
prost-types = "0.13"
rand = "0.8"
subtle = "2"
thiserror = "1"
tokio = { version = "1", features = ["macros", "rt", "rt-multi-thread", "sync", "time"] }
tokio-stream = { version = "0.1", features = ["sync"] }
tonic = { version = "0.12", default-features = false, features = ["codegen", "prost"] }
tracing = "0.1"
uuid = { version = "1", features = ["v4"] }
