[package]
name = "compressed_log_sink"
version = "0.1.0"
edition = "2021"
publish = false

[dependencies]
lz4_flex = { version = "*", features = ["frame"] }
tungstenite = "*"
rustls = { version = "*", default-features = false, features = ["ring", "std", "logging", "tls12"] }
rustls-pemfile = "*"
docopt = "*"
log = "*"
env_logger = "*"
