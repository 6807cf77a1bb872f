[package]
name = "lnk"
version = "0.1.0"
edition = "2021"
publish = false

[dependencies]
sled = "0.34"
http = "0.2"
rand = "0.8"
axum = "0.6"
clap = { version = "4", features = ["derive", "env"] }
fast_qr = { version = "*", features = ["svg"] }
serde = { version = "1", features = ["derive"] }
