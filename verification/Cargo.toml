[package]
name = "nx_mux"
version = "0.1.0"
edition = "2021"
publish = false

[dependencies]
tokio = { version = "*", features = ["full"] }
tokio-stream = { version = "*", features = ["io-util"] }
serde = { version = "*", features = ["derive"] }
clap = { version = "*", features = ["derive"] }
ratatui = "*"
