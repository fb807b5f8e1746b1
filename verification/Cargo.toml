[package]
name = "schwitzerflut"
version = "0.1.0"
edition = "2021"
publish = false

[dependencies]
image = "*"
tokio = { version = "*", features = ["rt-multi-thread", "macros", "net", "io-util"] }
clap = { version = "*", features = ["derive", "env"] }
anyhow = "*"
