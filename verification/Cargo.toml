[package]
name = "qcyx"
version = "0.1.0"
edition = "2021"
publish = false

[dependencies]
btleplug = "*"
tokio = { version = "*", features = ["macros", "rt-multi-thread", "time", "sync"] }
futures = "*"
clap = { version = "*", features = ["derive"] }
thiserror = "*"
serde = { version = "*", features = ["derive"] }
serde_json = "*"
tracing = "*"
tracing-subscriber = { version = "*", features = ["env-filter"] }
uuid = "*"
