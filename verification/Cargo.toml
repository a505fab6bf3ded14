[package]
name = "canvasbot"
version = "0.1.0"
edition = "2021"
publish = false

[dependencies]
bollard = "*"
clap = { version = "*", features = ["derive"] }
console-subscriber = "*"
futures = "*"
indexmap = { version = "*", features = ["serde"] }
log = "*"
reqwest = { version = "*", default-features = false, features = ["json", "rustls-tls"] }
serde = { version = "*", features = ["derive"] }
serde_json = "*"
sevenz-rust = "*"
similar = "*"
simple_logger = "*"
tokio = { version = "*", features = ["full"] }
toml = "*"
