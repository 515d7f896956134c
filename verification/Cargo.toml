[package]
name = "bbq"
version = "0.1.0"
edition = "2021"
publish = false

[dependencies]
chrono = "*"
uuid = { version = "*", features = ["v4"] }
tokio = { version = "*", features = ["rt-multi-thread", "sync", "time", "macros", "signal", "net", "io-util"] }
serde = { version = "*", features = ["derive"] }
serde_json = "*"
toml = "*"
