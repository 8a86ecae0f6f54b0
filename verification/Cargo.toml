[package]
name = "thegarii"
version = "0.1.0"
edition = "2021"
publish = false

[dependencies]
futures = "0.3"
log = "0.4"
prost = { version = "0.11", default-features = false, features = ["std"] }
rand = "0.8"
reqwest = { version = "0.11", features = ["gzip", "json"] }
serde = { version = "1", features = ["derive"] }
serde_json = "1"
structopt = "0.3"
tokio = { version = "1", features = ["rt-multi-thread", "time"] }
