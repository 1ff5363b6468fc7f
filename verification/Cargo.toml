[package]
name = "rusty_socks"
version = "0.1.0"
edition = "2021"
publish = false

[dependencies]
futures = "0.3"
log = "0.4"
serde = { version = "1", features = ["derive"] }
simple_logger = "*"
thiserror = "*"
tokio = { version = "1", features = ["io-util", "macros", "net", "rt-multi-thread", "time"] }
toml = "*"
