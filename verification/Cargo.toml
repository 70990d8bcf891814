[package]
name = "terrarium_control"
version = "0.1.0"
edition = "2021"
publish = false

[dependencies]
rppal = "*"
chrono = "*"
serde = { version = "*", features = ["derive"] }
toml = "*"
tokio = { version = "*", features = ["rt-multi-thread", "macros", "time", "sync"] }
