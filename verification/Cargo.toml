[package]
name = "poker_domain"
version = "0.1.0"
edition = "2021"
publish = false

[dependencies]
angzarr-client = "*"
hex = "0.4"
uuid = { version = "1", features = ["v4"] }
prost = "*"
prost-types = "*"
chrono = "0.4"
tokio = { version = "1", features = ["rt-multi-thread", "macros"] }
tonic = "*"
tracing = "0.1"
tracing-subscriber = { version = "0.3", features = ["env-filter"] }
rusqlite = { version = "*", features = ["bundled"] }
lazy_static = "1"
