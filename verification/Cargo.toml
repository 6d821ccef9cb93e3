[package]
name = "surge_ping"
version = "0.1.0"
edition = "2021"
publish = false

[dependencies]
tokio = { version = "*", features = ["full"] }
socket2 = "*"
clap = { version = "*", features = ["derive"] }
futures = "*"
rand = "*"
